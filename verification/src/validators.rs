//! Decoding of validator registrations from transaction envelopes, and
//! their finalization by commit transactions.
//!
//! A registration envelope is a set of six transactions from one sender
//! to the well-known sink address, tagged by a leading marker byte 1 to
//! 6. Tag 1 carries the signing key and the validator address at fixed
//! byte offsets; tags 2 to 6 each carry one shard of the voting key,
//! concatenated in tag order. A candidate exists only once all six tags
//! have been seen. A commit transaction whose value meets the deposit
//! threshold and whose payload decodes (hex, then UTF-8, then address
//! text) to a candidate's address finalizes that candidate with the
//! deposit as its stake.
//!
//! The voting key is carried as its aggregate byte encoding. The BLS
//! library that decides whether those bytes form a well-formed key is
//! not among this crate's dependencies, so a malformed concatenation is
//! not detected here; the consumer of the genesis record must validate
//! the keys.

use vstd::prelude::*;

use crate::codec::{bytes_eq, hex_bytes, hex_decode, hex_ok, push_all, sub_bytes, utf8_decode};
use crate::keys::{address_from_any, parse_any_address};
use crate::types::PoWTransaction;

verus! {

/// A registration that has shown all six tags but is not yet committed.
#[derive(Clone, Debug, PartialEq, Eq)]
pub struct CandidateValidator {
    /// Validator address bytes, from the tag-1 payload.
    pub address: Vec<u8>,
    /// Schnorr signing key bytes, from the tag-1 payload.
    pub signing_key: Vec<u8>,
    /// Voting key encoding: the five shards concatenated in tag order.
    pub voting_key: Vec<u8>,
}

/// A finalized genesis validator.
#[derive(Clone, Debug, PartialEq, Eq)]
pub struct GenesisValidator {
    /// Validator address bytes.
    pub validator_address: Vec<u8>,
    /// Schnorr signing key bytes.
    pub signing_key: Vec<u8>,
    /// Voting key encoding.
    pub voting_key: Vec<u8>,
    /// Reward address bytes; the registration envelope assigns the
    /// validator address itself.
    pub reward_address: Vec<u8>,
    /// Stake in the smallest currency unit.
    pub balance: u64,
}

/// Mathematical model of a candidate.
#[verifier::ext_equal]
pub struct CandidateValidatorV {
    /// Validator address bytes.
    pub address: Seq<u8>,
    /// Signing key bytes.
    pub signing_key: Seq<u8>,
    /// Voting key encoding.
    pub voting_key: Seq<u8>,
}

/// Mathematical model of a genesis validator.
#[verifier::ext_equal]
pub struct GenesisValidatorV {
    /// Validator address bytes.
    pub validator_address: Seq<u8>,
    /// Signing key bytes.
    pub signing_key: Seq<u8>,
    /// Voting key encoding.
    pub voting_key: Seq<u8>,
    /// Reward address bytes.
    pub reward_address: Seq<u8>,
    /// Stake.
    pub balance: u64,
}

impl View for CandidateValidator {
    type V = CandidateValidatorV;

    open spec fn view(&self) -> CandidateValidatorV {
        CandidateValidatorV {
            address: self.address@,
            signing_key: self.signing_key@,
            voting_key: self.voting_key@,
        }
    }
}

impl View for GenesisValidator {
    type V = GenesisValidatorV;

    open spec fn view(&self) -> GenesisValidatorV {
        GenesisValidatorV {
            validator_address: self.validator_address@,
            signing_key: self.signing_key@,
            voting_key: self.voting_key@,
            reward_address: self.reward_address@,
            balance: self.balance,
        }
    }
}

/// The decoded payload of a transaction, if its data field holds
/// well-formed hex.
pub open spec fn spec_payload(t: PoWTransaction) -> Option<Seq<u8>> {
    match t.data {
        Option::None => None,
        Option::Some(h) => if hex_ok(h@) {
            Some(hex_bytes(h@))
        } else {
            None
        },
    }
}

/// Whether a transaction carries a registration payload with the given
/// marker tag: at least 64 payload bytes, the first being the tag.
pub open spec fn spec_has_tag(t: PoWTransaction, tag: u8) -> bool {
    match spec_payload(t) {
        Option::Some(d) => d.len() >= 64 && d[0] == tag,
        Option::None => false,
    }
}

/// Whether a transaction is `sender`'s registration transaction with
/// the given tag.
pub open spec fn tag_matches(t: PoWTransaction, sender: Seq<char>, tag: u8) -> bool {
    t.from_address@ == sender && spec_has_tag(t, tag)
}

/// The payload of the last transaction from `sender` carrying the given
/// tag, if any: a later transaction with the same tag replaces an
/// earlier one.
pub open spec fn spec_slot(txns: Seq<PoWTransaction>, sender: Seq<char>, tag: u8) -> Option<Seq<u8>>
    decreases txns.len(),
{
    if txns.len() == 0 {
        None
    } else if tag_matches(txns.last(), sender, tag) {
        spec_payload(txns.last())
    } else {
        spec_slot(txns.drop_last(), sender, tag)
    }
}

/// A filled slot holds a payload of at least 64 bytes whose first byte
/// is its tag.
pub proof fn lemma_slot_len(txns: Seq<PoWTransaction>, sender: Seq<char>, tag: u8)
    requires
        spec_slot(txns, sender, tag) is Some,
    ensures
        spec_slot(txns, sender, tag).unwrap().len() >= 64,
        spec_slot(txns, sender, tag).unwrap()[0] == tag,
    decreases txns.len(),
{
    if txns.len() != 0 && !tag_matches(txns.last(), sender, tag) {
        lemma_slot_len(txns.drop_last(), sender, tag);
    }
}

/// Whether `sender`'s envelope is complete: all six tags present.
pub open spec fn spec_complete(txns: Seq<PoWTransaction>, sender: Seq<char>) -> bool {
    forall|tag: u8| 1 <= tag <= 6 ==> spec_slot(txns, sender, tag) is Some
}

/// The voting-key shard a tag contributes: its payload bytes from
/// offset 7.
pub open spec fn spec_shard(txns: Seq<PoWTransaction>, sender: Seq<char>, tag: u8) -> Seq<u8>
    recommends
        spec_slot(txns, sender, tag) is Some,
{
    let d = spec_slot(txns, sender, tag).unwrap();
    d.subrange(7, d.len() as int)
}

/// The candidate a complete envelope defines: signing key at bytes 12
/// to 44 and address at bytes 44 to 64 of the tag-1 payload, and the
/// voting key as the concatenation of the five shards in tag order.
pub open spec fn spec_candidate(txns: Seq<PoWTransaction>, sender: Seq<char>) -> CandidateValidatorV
    recommends
        spec_complete(txns, sender),
{
    let d1 = spec_slot(txns, sender, 1).unwrap();
    CandidateValidatorV {
        address: d1.subrange(44, 64),
        signing_key: d1.subrange(12, 44),
        voting_key: spec_shard(txns, sender, 2) + spec_shard(txns, sender, 3) + spec_shard(txns, sender, 4)
            + spec_shard(txns, sender, 5) + spec_shard(txns, sender, 6),
    }
}

/// The senders of a transaction sequence, in first-appearance order.
pub open spec fn spec_senders(txns: Seq<PoWTransaction>) -> Seq<Seq<char>>
    decreases txns.len(),
{
    if txns.len() == 0 {
        Seq::empty()
    } else {
        let rest = spec_senders(txns.drop_last());
        if rest.contains(txns.last().from_address@) {
            rest
        } else {
            rest.push(txns.last().from_address@)
        }
    }
}

/// The candidates with the given validator address removed.
pub open spec fn remove_address(cands: Seq<CandidateValidatorV>, addr: Seq<u8>) -> Seq<CandidateValidatorV> {
    cands.filter(|c: CandidateValidatorV| c.address != addr)
}

/// Whether the candidates bear pairwise distinct validator addresses.
pub open spec fn distinct_addresses(cands: Seq<CandidateValidatorV>) -> bool {
    forall|i: int, j: int|
        0 <= i < j < cands.len() ==> (#[trigger] cands[i]).address != (#[trigger] cands[j]).address
}

/// The candidates of the senders with complete envelopes, in the
/// senders' order, keyed by validator address: a later envelope that
/// embeds an already registered address replaces the earlier candidate,
/// so at most one candidate exists per address.
pub open spec fn spec_decode_senders(txns: Seq<PoWTransaction>, senders: Seq<Seq<char>>) -> Seq<CandidateValidatorV>
    decreases senders.len(),
{
    if senders.len() == 0 {
        Seq::empty()
    } else {
        let rest = spec_decode_senders(txns, senders.drop_last());
        if spec_complete(txns, senders.last()) {
            remove_address(rest, spec_candidate(txns, senders.last()).address).push(
                spec_candidate(txns, senders.last()),
            )
        } else {
            rest
        }
    }
}

/// All candidates a transaction sequence registers: one per sender with
/// a complete envelope, in first-appearance order of the senders.
pub open spec fn spec_decode(txns: Seq<PoWTransaction>) -> Seq<CandidateValidatorV> {
    spec_decode_senders(txns, spec_senders(txns))
}

/// View of an optional byte vector.
pub open spec fn opt_bytes_view(o: Option<Vec<u8>>) -> Option<Seq<u8>> {
    match o {
        Option::Some(v) => Some(v@),
        Option::None => None,
    }
}

/// Whether one of the strings in `v` has the view `s`.
pub open spec fn contains_str(v: Seq<String>, s: Seq<char>) -> bool {
    exists|m: int| 0 <= m < v.len() && v[m]@ == s
}

fn contains_string(v: &Vec<String>, s: &String) -> (r: bool)
    ensures
        r == contains_str(v@, s@),
{
    let mut k: usize = 0;
    while k < v.len()
        invariant
            k <= v@.len(),
            forall|m: int| 0 <= m < k ==> v@[m]@ != s@,
        decreases v@.len() - k,
    {
        if v[k] == *s {
            return true;
        }
        k = k + 1;
    }
    false
}

/// Drop every candidate bearing the given validator address.
fn remove_candidates_with_address(v: &mut Vec<CandidateValidator>, addr: &Vec<u8>)
    ensures
        final(v)@.map_values(|c: CandidateValidator| c@) == remove_address(
            old(v)@.map_values(|c: CandidateValidator| c@),
            addr@,
        ),
{
    let ghost cm = old(v)@.map_values(|c: CandidateValidator| c@);
    let mut kept: Vec<CandidateValidator> = Vec::new();
    proof {
        reveal(Seq::filter);
        assert(cm.take(0) =~= Seq::<CandidateValidatorV>::empty());
        assert(kept@.map_values(|c: CandidateValidator| c@) =~= remove_address(cm.take(0), addr@));
    }
    while v.len() > 0
        invariant
            v@.len() <= old(v)@.len(),
            cm == old(v)@.map_values(|c: CandidateValidator| c@),
            v@ == old(v)@.skip(old(v)@.len() - v@.len()),
            kept@.map_values(|c: CandidateValidator| c@) == remove_address(
                cm.take(old(v)@.len() - v@.len()),
                addr@,
            ),
        decreases v@.len(),
    {
        let ghost n = old(v)@.len() - v@.len();
        proof {
            assert(cm.take(n + 1).drop_last() =~= cm.take(n as int));
            assert(cm.take(n + 1).last() == cm[n as int]);
            assert(v@[0] == old(v)@[n as int]);
            assert(cm[n as int] == old(v)@[n as int]@);
        }
        let c = v.remove(0);
        proof {
            assert(v@ =~= old(v)@.skip(n + 1));
        }
        if !bytes_eq(&c.address, addr) {
            kept.push(c);
        }
        proof {
            reveal(Seq::filter);
            assert(kept@.map_values(|c: CandidateValidator| c@) =~= remove_address(cm.take(n + 1), addr@));
        }
    }
    proof {
        assert(cm.take(old(v)@.len() as int) =~= cm);
    }
    *v = kept;
}

/// Reconstruct all registration candidates from the transactions sent
/// to the sink address: group by sender, track the six tag slots per
/// sender (a later duplicate tag replaces an earlier one), accept a
/// candidate exactly when all six tags are present, and keep at most
/// one candidate per embedded validator address (the later envelope
/// wins).
pub fn decode_validators(transactions: &Vec<PoWTransaction>) -> (r: Vec<CandidateValidator>)
    ensures
        r@.map_values(|c: CandidateValidator| c@) == spec_decode(transactions@),
{
    let ghost txns = transactions@;
    // Senders in first-appearance order.
    let mut senders: Vec<String> = Vec::new();
    let mut i: usize = 0;
    proof {
        assert(txns.take(0) =~= Seq::<PoWTransaction>::empty());
    }
    while i < transactions.len()
        invariant
            i <= txns.len(),
            txns == transactions@,
            senders@.len() == spec_senders(txns.take(i as int)).len(),
            forall|m: int| 0 <= m < senders@.len() ==> senders@[m]@ == spec_senders(txns.take(i as int))[m],
        decreases txns.len() - i,
    {
        proof {
            assert(txns.take(i + 1).drop_last() =~= txns.take(i as int));
            assert(txns.take(i + 1).last() == txns[i as int]);
        }
        let ghost prev = spec_senders(txns.take(i as int));
        let t = &transactions[i];
        if !contains_string(&senders, &t.from_address) {
            proof {
                if prev.contains(t.from_address@) {
                    let w = choose|m: int| 0 <= m < prev.len() && prev[m] == t.from_address@;
                    assert(senders@[w]@ == t.from_address@);
                }
            }
            senders.push(t.from_address.clone());
        } else {
            proof {
                let w = choose|m: int| 0 <= m < senders@.len() && senders@[m]@ == t.from_address@;
                assert(prev[w] == t.from_address@);
                assert(prev.contains(t.from_address@));
            }
        }
        i = i + 1;
    }
    proof {
        assert(txns.take(txns.len() as int) =~= txns);
    }
    let ghost all_senders = spec_senders(txns);

    // Per sender, fill the six tag slots and assemble the candidate.
    let mut result: Vec<CandidateValidator> = Vec::new();
    let mut k: usize = 0;
    proof {
        assert(all_senders.take(0) =~= Seq::<Seq<char>>::empty());
    }
    while k < senders.len()
        invariant
            k <= senders@.len(),
            txns == transactions@,
            all_senders == spec_senders(txns),
            senders@.len() == all_senders.len(),
            forall|m: int| 0 <= m < senders@.len() ==> senders@[m]@ == all_senders[m],
            result@.map_values(|c: CandidateValidator| c@) == spec_decode_senders(txns, all_senders.take(k as int)),
        decreases senders@.len() - k,
    {
        proof {
            assert(all_senders.take(k + 1).drop_last() =~= all_senders.take(k as int));
            assert(all_senders.take(k + 1).last() == all_senders[k as int]);
        }
        let sender = &senders[k];
        let ghost s = sender@;
        let mut slot1: Option<Vec<u8>> = None;
        let mut slot2: Option<Vec<u8>> = None;
        let mut slot3: Option<Vec<u8>> = None;
        let mut slot4: Option<Vec<u8>> = None;
        let mut slot5: Option<Vec<u8>> = None;
        let mut slot6: Option<Vec<u8>> = None;
        let mut i: usize = 0;
        proof {
            assert(txns.take(0) =~= Seq::<PoWTransaction>::empty());
        }
        while i < transactions.len()
            invariant
                i <= txns.len(),
                txns == transactions@,
                s == sender@,
                opt_bytes_view(slot1) == spec_slot(txns.take(i as int), s, 1),
                opt_bytes_view(slot2) == spec_slot(txns.take(i as int), s, 2),
                opt_bytes_view(slot3) == spec_slot(txns.take(i as int), s, 3),
                opt_bytes_view(slot4) == spec_slot(txns.take(i as int), s, 4),
                opt_bytes_view(slot5) == spec_slot(txns.take(i as int), s, 5),
                opt_bytes_view(slot6) == spec_slot(txns.take(i as int), s, 6),
            decreases txns.len() - i,
        {
            proof {
                assert(txns.take(i + 1).drop_last() =~= txns.take(i as int));
                assert(txns.take(i + 1).last() == txns[i as int]);
            }
            let t = &transactions[i];
            if t.from_address == *sender {
                if let Some(data_hex) = &t.data {
                    match hex_decode(data_hex.as_str()) {
                        Some(d) => {
                            if d.len() >= 64 {
                                let tag = d[0];
                                if tag == 1 {
                                    slot1 = Some(d);
                                } else if tag == 2 {
                                    slot2 = Some(d);
                                } else if tag == 3 {
                                    slot3 = Some(d);
                                } else if tag == 4 {
                                    slot4 = Some(d);
                                } else if tag == 5 {
                                    slot5 = Some(d);
                                }  else if tag == 6 {
                                    slot6 = Some(d);
                                }
                            }
                        },
                        None => {},
                    }
                }
            }
            i = i + 1;
        }
        proof {
            assert(txns.take(txns.len() as int) =~= txns);
        }
        match (slot1, slot2, slot3, slot4, slot5, slot6) {
            (Some(d1), Some(d2), Some(d3), Some(d4), Some(d5), Some(d6)) => {
                proof {
                    assert forall|tag: u8| 1 <= tag <= 6 implies spec_slot(txns, s, tag) is Some by {
                        assert(tag == 1 || tag == 2 || tag == 3 || tag == 4 || tag == 5 || tag == 6);
                    }
                    lemma_slot_len(txns, s, 1);
                    lemma_slot_len(txns, s, 2);
                    lemma_slot_len(txns, s, 3);
                    lemma_slot_len(txns, s, 4);
                    lemma_slot_len(txns, s, 5);
                    lemma_slot_len(txns, s, 6);
                }
                let signing_key = sub_bytes(&d1, 12, 44);
                let address = sub_bytes(&d1, 44, 64);
                let mut voting_key = sub_bytes(&d2, 7, d2.len());
                let shard3 = sub_bytes(&d3, 7, d3.len());
                push_all(&mut voting_key, &shard3);
                let shard4 = sub_bytes(&d4, 7, d4.len());
                push_all(&mut voting_key, &shard4);
                let shard5 = sub_bytes(&d5, 7, d5.len());
                push_all(&mut voting_key, &shard5);
                let shard6 = sub_bytes(&d6, 7, d6.len());
                push_all(&mut voting_key, &shard6);
                let candidate = CandidateValidator { address, signing_key, voting_key };
                proof {
                    assert(candidate@ =~= spec_candidate(txns, s));
                }
                remove_candidates_with_address(&mut result, &candidate.address);
                proof {
                    assert(result@.push(candidate).map_values(|c: CandidateValidator| c@) =~= result@.map_values(
                        |c: CandidateValidator| c@,
                    ).push(candidate@));
                }
                result.push(candidate);
            },
            _ => {
                proof {
                    // Some tag slot is empty, which refutes completeness
                    // at that tag.
                    assert(!spec_complete(txns, s)) by {
                        assert(spec_slot(txns, s, 1) is None || spec_slot(txns, s, 2) is None || spec_slot(
                            txns,
                            s,
                            3,
                        ) is None || spec_slot(txns, s, 4) is None || spec_slot(txns, s, 5) is None || spec_slot(
                            txns,
                            s,
                            6,
                        ) is None);
                    }
                }
            },
        }
        k = k + 1;
    }
    proof {
        assert(all_senders.take(all_senders.len() as int) =~= all_senders);
    }
    result
}

/// The address a commit transaction's payload references: the payload
/// decoded as hex, then as UTF-8 text, then parsed as an address.
pub open spec fn spec_commit_address(t: PoWTransaction) -> Option<Seq<u8>> {
    match spec_payload(t) {
        Option::None => None,
        Option::Some(b) => if vstd::utf8::valid_utf8(b) {
            address_from_any(vstd::utf8::decode_utf8(b))
        } else {
            None
        },
    }
}

/// Index of the first candidate with the given address, if any.
pub open spec fn spec_find_candidate(cands: Seq<CandidateValidatorV>, addr: Seq<u8>) -> Option<int>
    decreases cands.len(),
{
    if cands.len() == 0 {
        None
    } else if cands.first().address == addr {
        Some(0int)
    } else {
        match spec_find_candidate(cands.drop_first(), addr) {
            Option::Some(i) => Some(i + 1),
            Option::None => None,
        }
    }
}

/// What `spec_find_candidate` returns: the first index with the
/// address, or nothing when no candidate has it.
pub proof fn lemma_find_characterization(cands: Seq<CandidateValidatorV>, addr: Seq<u8>)
    ensures
        match spec_find_candidate(cands, addr) {
            Option::Some(i) => 0 <= i < cands.len() && cands[i].address == addr && forall|m: int|
                0 <= m < i ==> cands[m].address != addr,
            Option::None => forall|m: int| 0 <= m < cands.len() ==> cands[m].address != addr,
        },
    decreases cands.len(),
{
    if cands.len() != 0 && cands.first().address != addr {
        lemma_find_characterization(cands.drop_first(), addr);
        match spec_find_candidate(cands.drop_first(), addr) {
            Option::Some(i) => {
                assert(cands.drop_first()[i] == cands[i + 1]);
                assert forall|m: int| 0 <= m < i + 1 implies cands[m].address != addr by {
                    if m > 0 {
                        assert(cands.drop_first()[m - 1] == cands[m]);
                    }
                }
            },
            Option::None => {
                assert forall|m: int| 0 <= m < cands.len() implies cands[m].address != addr by {
                    if m > 0 {
                        assert(cands.drop_first()[m - 1] == cands[m]);
                    }
                }
            },
        }
    }
}

/// The genesis validator a committed candidate becomes: its key
/// material, the validator address doubling as reward address, and the
/// deposit as stake.
pub open spec fn spec_genesis_of(c: CandidateValidatorV, deposit: u64) -> GenesisValidatorV {
    GenesisValidatorV {
        validator_address: c.address,
        signing_key: c.signing_key,
        voting_key: c.voting_key,
        reward_address: c.address,
        balance: deposit,
    }
}

/// State of commit resolution: the candidates not yet committed, and
/// the finalized validators in commit order.
#[verifier::ext_equal]
pub struct FinalizeState {
    /// Candidates still awaiting a commit.
    pub remaining: Seq<CandidateValidatorV>,
    /// Validators finalized so far.
    pub finalized: Seq<GenesisValidatorV>,
}

/// One commit step: a transaction whose value meets the deposit
/// threshold and whose payload references a remaining candidate moves
/// that candidate to the finalized set with the deposit as its stake;
/// every other transaction changes nothing.
pub open spec fn spec_finalize_step(st: FinalizeState, t: PoWTransaction, deposit: u64) -> FinalizeState {
    if t.value >= deposit {
        match spec_commit_address(t) {
            Option::Some(addr) => match spec_find_candidate(st.remaining, addr) {
                Option::Some(i) => FinalizeState {
                    remaining: st.remaining.remove(i),
                    finalized: st.finalized.push(spec_genesis_of(st.remaining[i], deposit)),
                },
                Option::None => st,
            },
            Option::None => st,
        }
    } else {
        st
    }
}

/// Commit resolution folded over the transactions in order.
pub open spec fn spec_finalize_rec(
    cands: Seq<CandidateValidatorV>,
    commits: Seq<PoWTransaction>,
    deposit: u64,
) -> FinalizeState
    decreases commits.len(),
{
    if commits.len() == 0 {
        FinalizeState { remaining: cands, finalized: Seq::empty() }
    } else {
        spec_finalize_step(spec_finalize_rec(cands, commits.drop_last(), deposit), commits.last(), deposit)
    }
}

/// The validators that commit resolution finalizes.
pub open spec fn spec_finalize(
    cands: Seq<CandidateValidatorV>,
    commits: Seq<PoWTransaction>,
    deposit: u64,
) -> Seq<GenesisValidatorV> {
    spec_finalize_rec(cands, commits, deposit).finalized
}

/// Find the first remaining candidate with the given address bytes.
fn find_candidate_index(remaining: &Vec<CandidateValidator>, addr: &Vec<u8>) -> (r: Option<usize>)
    ensures
        ({
            let f = spec_find_candidate(remaining@.map_values(|c: CandidateValidator| c@), addr@);
            match r {
                Some(ix) => f == Some(ix as int),
                None => f is None,
            }
        }),
{
    let ghost cands = remaining@.map_values(|c: CandidateValidator| c@);
    let mut m: usize = 0;
    while m < remaining.len()
        invariant
            m <= remaining@.len(),
            cands == remaining@.map_values(|c: CandidateValidator| c@),
            forall|q: int| 0 <= q < m ==> cands[q].address != addr@,
        decreases remaining@.len() - m,
    {
        if bytes_eq(&remaining[m].address, addr) {
            proof {
                assert(cands[m as int] == remaining@[m as int]@);
                lemma_find_characterization(cands, addr@);
                match spec_find_candidate(cands, addr@) {
                    Option::Some(i) => {
                        if i < m {
                            assert(cands[i].address != addr@);
                        }
                        if i > m {
                            assert(cands[m as int].address != addr@);
                        }
                    },
                    Option::None => {
                        assert(cands[m as int].address != addr@);
                    },
                }
            }
            return Some(m);
        }
        m = m + 1;
    }
    proof {
        lemma_find_characterization(cands, addr@);
    }
    None
}

/// Resolve commit transactions against the candidates: each qualifying
/// commit (value at or above the deposit threshold, payload decoding to
/// a remaining candidate's address) finalizes that candidate with the
/// deposit as stake. Unmatched commits and uncommitted candidates are
/// both silently dropped, never errors.
pub fn finalize_commits(
    candidates: Vec<CandidateValidator>,
    transactions: &Vec<PoWTransaction>,
    deposit: u64,
) -> (r: Vec<GenesisValidator>)
    ensures
        r@.map_values(|v: GenesisValidator| v@) == spec_finalize(
            candidates@.map_values(|c: CandidateValidator| c@),
            transactions@,
            deposit,
        ),
{
    let ghost txns = transactions@;
    let ghost cands0 = candidates@.map_values(|c: CandidateValidator| c@);
    let mut remaining = candidates;
    let mut out: Vec<GenesisValidator> = Vec::new();
    let mut i: usize = 0;
    proof {
        assert(txns.take(0) =~= Seq::<PoWTransaction>::empty());
        assert(spec_finalize_rec(cands0, txns.take(0), deposit) =~= FinalizeState {
            remaining: remaining@.map_values(|c: CandidateValidator| c@),
            finalized: out@.map_values(|v: GenesisValidator| v@),
        });
    }
    while i < transactions.len()
        invariant
            i <= txns.len(),
            txns == transactions@,
            spec_finalize_rec(cands0, txns.take(i as int), deposit) == (FinalizeState {
                remaining: remaining@.map_values(|c: CandidateValidator| c@),
                finalized: out@.map_values(|v: GenesisValidator| v@),
            }),
        decreases txns.len() - i,
    {
        proof {
            assert(txns.take(i + 1).drop_last() =~= txns.take(i as int));
            assert(txns.take(i + 1).last() == txns[i as int]);
        }
        let ghost st_pre = spec_finalize_rec(cands0, txns.take(i as int), deposit);
        let t = &transactions[i];
        if t.value >= deposit {
            if let Some(data_hex) = &t.data {
                match hex_decode(data_hex.as_str()) {
                    Some(payload) => match utf8_decode(&payload) {
                        Some(text) => match parse_any_address(text.as_str()) {
                            Some(addr) => {
                                match find_candidate_index(&remaining, &addr) {
                                    Some(ix) => {
                                        proof {
                                            lemma_find_characterization(
                                                remaining@.map_values(|c: CandidateValidator| c@),
                                                addr@,
                                            );
                                        }
                                        let c = remaining.remove(ix);
                                        let mut reward: Vec<u8> = Vec::new();
                                        push_all(&mut reward, &c.address);
                                        let v = GenesisValidator {
                                            validator_address: c.address,
                                            signing_key: c.signing_key,
                                            voting_key: c.voting_key,
                                            reward_address: reward,
                                            balance: deposit,
                                        };
                                        proof {
                                            assert(remaining@.map_values(|c: CandidateValidator| c@)
                                                =~= st_pre.remaining.remove(ix as int));
                                            assert(out@.push(v).map_values(|x: GenesisValidator| x@)
                                                =~= out@.map_values(|x: GenesisValidator| x@).push(v@));
                                            assert(v@ =~= spec_genesis_of(st_pre.remaining[ix as int], deposit));
                                        }
                                        out.push(v);
                                    },
                                    None => {},
                                }
                            },
                            None => {},
                        },
                        None => {},
                    },
                    None => {},
                }
            }
        }
        i = i + 1;
    }
    proof {
        assert(txns.take(txns.len() as int) =~= txns);
    }
    out
}

/// The transactions at or before the cutting height, in order.
pub open spec fn spec_window_txns(txns: Seq<PoWTransaction>, cutting_number: u32) -> Seq<PoWTransaction> {
    txns.filter(|t: PoWTransaction| t.block_number <= cutting_number)
}

/// The registered genesis validators: among the transactions at or
/// before the cutting height, decode the registration envelopes and
/// resolve the commit transactions against them.
pub fn get_validators(transactions: Vec<PoWTransaction>, cutting_number: u32, validator_deposit: u64) -> (r: Vec<
    GenesisValidator,
>)
    ensures
        ({
            let kept = spec_window_txns(transactions@, cutting_number);
            r@.map_values(|v: GenesisValidator| v@) == spec_finalize(spec_decode(kept), kept, validator_deposit)
        }),
{
    let ghost orig = transactions@;
    let mut rest = transactions;
    let mut kept: Vec<PoWTransaction> = Vec::new();
    proof {
        reveal(Seq::filter);
        assert(orig.take(0) =~= Seq::<PoWTransaction>::empty());
        assert(orig.skip(0) =~= orig);
        assert(kept@ =~= spec_window_txns(orig.take(0), cutting_number));
    }
    while rest.len() > 0
        invariant
            rest@.len() <= orig.len(),
            rest@ == orig.skip(orig.len() - rest@.len()),
            kept@ == spec_window_txns(orig.take(orig.len() - rest@.len()), cutting_number),
        decreases rest@.len(),
    {
        let ghost n = orig.len() - rest@.len();
        proof {
            assert(orig.take(n + 1).drop_last() =~= orig.take(n as int));
            assert(orig.take(n + 1).last() == orig[n as int]);
            assert(rest@[0] == orig[n as int]);
        }
        let t = rest.remove(0);
        proof {
            assert(rest@ =~= orig.skip(n + 1));
        }
        if t.block_number <= cutting_number {
            kept.push(t);
        }
        proof {
            reveal(Seq::filter);
            assert(kept@ =~= spec_window_txns(orig.take(n + 1), cutting_number));
        }
    }
    proof {
        assert(orig.take(orig.len() as int) =~= orig);
    }
    let candidates = decode_validators(&kept);
    finalize_commits(candidates, &kept, validator_deposit)
}

/// For every complete registration envelope, the decoded voting key is
/// bit-identical to the concatenation of the five shard payloads (the
/// tag 2 to 6 payloads from byte offset 7) in tag order.
pub proof fn lemma_voting_key_concatenation(txns: Seq<PoWTransaction>, sender: Seq<char>)
    requires
        spec_complete(txns, sender),
    ensures
        spec_candidate(txns, sender).voting_key == spec_shard(txns, sender, 2) + spec_shard(txns, sender, 3)
            + spec_shard(txns, sender, 4) + spec_shard(txns, sender, 5) + spec_shard(txns, sender, 6),
{
}

/// Number of transactions from `sender` that carry the given tag.
pub open spec fn count_matches(txns: Seq<PoWTransaction>, sender: Seq<char>, tag: u8) -> nat
    decreases txns.len(),
{
    if txns.len() == 0 {
        0
    } else {
        (if tag_matches(txns.last(), sender, tag) {
            1nat
        } else {
            0nat
        }) + count_matches(txns.drop_last(), sender, tag)
    }
}

/// A zero match count means no position matches.
pub proof fn lemma_count_zero(txns: Seq<PoWTransaction>, sender: Seq<char>, tag: u8)
    requires
        count_matches(txns, sender, tag) == 0,
    ensures
        forall|i: int| 0 <= i < txns.len() ==> !tag_matches(txns[i], sender, tag),
    decreases txns.len(),
{
    if txns.len() != 0 {
        lemma_count_zero(txns.drop_last(), sender, tag);
        assert forall|i: int| 0 <= i < txns.len() implies !tag_matches(txns[i], sender, tag) by {
            if i < txns.len() - 1 {
                assert(txns.drop_last()[i] == txns[i]);
            }
        }
    }
}

/// A filled slot points at some matching transaction.
pub proof fn lemma_slot_some_has_match(txns: Seq<PoWTransaction>, sender: Seq<char>, tag: u8)
    requires
        spec_slot(txns, sender, tag) is Some,
    ensures
        exists|i: int| 0 <= i < txns.len() && tag_matches(#[trigger] txns[i], sender, tag),
    decreases txns.len(),
{
    if txns.len() != 0 {
        if tag_matches(txns.last(), sender, tag) {
            assert(tag_matches(txns[txns.len() - 1], sender, tag));
        } else {
            lemma_slot_some_has_match(txns.drop_last(), sender, tag);
            let i = choose|i: int| 0 <= i < txns.drop_last().len() && tag_matches(#[trigger] txns.drop_last()[i], sender, tag);
            assert(txns.drop_last()[i] == txns[i]);
            assert(tag_matches(txns[i], sender, tag));
        }
    }
}

/// When exactly one transaction from `sender` carries a tag, that slot
/// holds exactly that transaction's payload, wherever the transaction
/// stands in the sequence.
pub proof fn lemma_slot_of_unique_match(txns: Seq<PoWTransaction>, sender: Seq<char>, tag: u8)
    requires
        count_matches(txns, sender, tag) == 1,
    ensures
        spec_slot(txns, sender, tag) is Some,
        forall|i: int|
            0 <= i < txns.len() && tag_matches(#[trigger] txns[i], sender, tag) ==> spec_slot(txns, sender, tag)
                == spec_payload(txns[i]),
    decreases txns.len(),
{
    if txns.len() != 0 {
        if tag_matches(txns.last(), sender, tag) {
            lemma_count_zero(txns.drop_last(), sender, tag);
            assert forall|i: int|
                0 <= i < txns.len() && tag_matches(#[trigger] txns[i], sender, tag) implies spec_slot(
                txns,
                sender,
                tag,
            ) == spec_payload(txns[i]) by {
                if i < txns.len() - 1 {
                    assert(txns.drop_last()[i] == txns[i]);
                    assert(!tag_matches(txns[i], sender, tag));
                }
            }
        } else {
            lemma_slot_of_unique_match(txns.drop_last(), sender, tag);
            assert forall|i: int|
                0 <= i < txns.len() && tag_matches(#[trigger] txns[i], sender, tag) implies spec_slot(
                txns,
                sender,
                tag,
            ) == spec_payload(txns[i]) by {
                assert(i < txns.len() - 1);
                assert(txns.drop_last()[i] == txns[i]);
            }
        }
    }
}

/// Decoding a registration envelope is order-independent: two listings
/// that hold the same transactions (one transaction per tag from the
/// sender in each) define the same complete candidate.
pub proof fn lemma_envelope_order_independent(t1: Seq<PoWTransaction>, t2: Seq<PoWTransaction>, sender: Seq<char>)
    requires
        t1.to_multiset() == t2.to_multiset(),
        forall|tag: u8| 1 <= tag <= 6 ==> count_matches(t1, sender, tag) == 1,
        forall|tag: u8| 1 <= tag <= 6 ==> count_matches(t2, sender, tag) == 1,
    ensures
        spec_complete(t1, sender),
        spec_complete(t2, sender),
        spec_candidate(t1, sender) == spec_candidate(t2, sender),
{
    broadcast use vstd::seq_lib::group_to_multiset_ensures;

    assert forall|tag: u8| 1 <= tag <= 6 implies spec_slot(t1, sender, tag) == spec_slot(t2, sender, tag)
        && spec_slot(t1, sender, tag) is Some by {
        lemma_slot_of_unique_match(t1, sender, tag);
        lemma_slot_of_unique_match(t2, sender, tag);
        lemma_slot_some_has_match(t1, sender, tag);
        let i = choose|i: int| 0 <= i < t1.len() && tag_matches(#[trigger] t1[i], sender, tag);
        assert(t1.contains(t1[i]));
        assert(t1.to_multiset().count(t1[i]) > 0);
        assert(t2.to_multiset().count(t1[i]) > 0);
        assert(t2.contains(t1[i]));
        let j = choose|j: int| 0 <= j < t2.len() && t2[j] == t1[i];
        assert(tag_matches(t2[j], sender, tag));
        assert(spec_slot(t1, sender, tag) == spec_payload(t1[i]));
        assert(spec_slot(t2, sender, tag) == spec_payload(t2[j]));
    }
    assert(spec_candidate(t1, sender) =~= spec_candidate(t2, sender));
}

/// Whether a finalized validator is some candidate of the list turned
/// genesis validator with the deposit as stake.
pub open spec fn finalized_from_candidates(
    cands: Seq<CandidateValidatorV>,
    v: GenesisValidatorV,
    deposit: u64,
) -> bool {
    exists|c: CandidateValidatorV| #[trigger] cands.contains(c) && v == spec_genesis_of(c, deposit)
}

/// Finalization only draws from the candidate list: every remaining
/// candidate was a candidate, and every finalized validator is a
/// candidate turned genesis validator with the deposit as stake.
pub proof fn lemma_finalize_sound(cands: Seq<CandidateValidatorV>, commits: Seq<PoWTransaction>, deposit: u64)
    ensures
        forall|x: CandidateValidatorV|
            spec_finalize_rec(cands, commits, deposit).remaining.contains(x) ==> cands.contains(x),
        forall|k: int|
            0 <= k < spec_finalize_rec(cands, commits, deposit).finalized.len() ==> finalized_from_candidates(
                cands,
                #[trigger] spec_finalize_rec(cands, commits, deposit).finalized[k],
                deposit,
            ),
    decreases commits.len(),
{
    if commits.len() != 0 {
        lemma_finalize_sound(cands, commits.drop_last(), deposit);
        let st = spec_finalize_rec(cands, commits.drop_last(), deposit);
        let st2 = spec_finalize_rec(cands, commits, deposit);
        let t = commits.last();
        if st2 != st {
            let addr = spec_commit_address(t).unwrap();
            let i = spec_find_candidate(st.remaining, addr).unwrap();
            lemma_find_characterization(st.remaining, addr);
            assert forall|x: CandidateValidatorV| st2.remaining.contains(x) implies cands.contains(x) by {
                let m = choose|m: int| 0 <= m < st2.remaining.len() && st2.remaining[m] == x;
                if m < i {
                    assert(st.remaining[m] == x);
                } else {
                    assert(st.remaining[m + 1] == x);
                }
                assert(st.remaining.contains(x));
            }
            assert forall|k: int| 0 <= k < st2.finalized.len() implies finalized_from_candidates(
                cands,
                st2.finalized[k],
                deposit,
            ) by {
                if k < st.finalized.len() {
                    assert(st2.finalized[k] == st.finalized[k]);
                } else {
                    assert(st.remaining.contains(st.remaining[i]));
                    assert(cands.contains(st.remaining[i]));
                    assert(st2.finalized[k] == spec_genesis_of(st.remaining[i], deposit));
                }
            }
        }
    }
}

/// A registration missing any one of the six tags never appears in the
/// finalized validator set, however many commits reference it: every
/// finalized validator is the committed candidate of a sender whose
/// envelope shows all six tags.
pub proof fn lemma_finalized_only_from_complete_envelopes(
    txns: Seq<PoWTransaction>,
    commits: Seq<PoWTransaction>,
    deposit: u64,
)
    ensures
        forall|k: int|
            0 <= k < spec_finalize(spec_decode(txns), commits, deposit).len() ==> from_complete_envelope(
                txns,
                #[trigger] spec_finalize(spec_decode(txns), commits, deposit)[k],
                deposit,
            ),
{
    lemma_finalize_sound(spec_decode(txns), commits, deposit);
    assert forall|k: int| 0 <= k < spec_finalize(spec_decode(txns), commits, deposit).len() implies
        from_complete_envelope(txns, spec_finalize(spec_decode(txns), commits, deposit)[k], deposit) by {
        let c = choose|c: CandidateValidatorV|
            #[trigger] spec_decode(txns).contains(c) && spec_finalize(spec_decode(txns), commits, deposit)[k]
                == spec_genesis_of(c, deposit);
        let m = choose|m: int| 0 <= m < spec_decode(txns).len() && spec_decode(txns)[m] == c;
        lemma_decode_elements(txns, spec_senders(txns), m);
        let s = choose|s: Seq<char>|
            #[trigger] spec_complete(txns, s) && spec_decode_senders(txns, spec_senders(txns))[m]
                == spec_candidate(txns, s);
        assert(spec_finalize(spec_decode(txns), commits, deposit)[k] == spec_genesis_of(
            spec_candidate(txns, s),
            deposit,
        ));
    }
}

/// Whether a finalized validator is the committed candidate of a sender
/// with a complete envelope.
pub open spec fn from_complete_envelope(txns: Seq<PoWTransaction>, v: GenesisValidatorV, deposit: u64) -> bool {
    exists|s: Seq<char>|
        #[trigger] spec_complete(txns, s) && v == spec_genesis_of(spec_candidate(txns, s), deposit)
}

/// Every decoded candidate is the candidate of some sender with a
/// complete envelope.
pub proof fn lemma_decode_elements(txns: Seq<PoWTransaction>, senders: Seq<Seq<char>>, k: int)
    requires
        0 <= k < spec_decode_senders(txns, senders).len(),
    ensures
        exists|s: Seq<char>|
            #[trigger] spec_complete(txns, s) && spec_decode_senders(txns, senders)[k] == spec_candidate(txns, s),
    decreases senders.len(),
{
    if senders.len() != 0 {
        let rest = spec_decode_senders(txns, senders.drop_last());
        if spec_complete(txns, senders.last()) {
            let c = spec_candidate(txns, senders.last());
            let kept = remove_address(rest, c.address);
            if k == kept.len() {
                let s = senders.last();
                assert(spec_complete(txns, s) && spec_decode_senders(txns, senders)[k] == spec_candidate(txns, s));
            } else {
                // The element survives the address filter, so it stands
                // somewhere in the previous decode.
                assert(kept.contains(kept[k]));
                rest.lemma_filter_contains_rev(|x: CandidateValidatorV| x.address != c.address, kept[k]);
                let m = choose|m: int| 0 <= m < rest.len() && rest[m] == kept[k];
                lemma_decode_elements(txns, senders.drop_last(), m);
                let s = choose|s: Seq<char>| #[trigger] spec_complete(txns, s) && rest[m] == spec_candidate(txns, s);
                assert(spec_decode_senders(txns, senders)[k] == kept[k]);
            }
        } else {
            lemma_decode_elements(txns, senders.drop_last(), k);
            let s = choose|s: Seq<char>| #[trigger] spec_complete(txns, s) && rest[k] == spec_candidate(txns, s);
            assert(spec_decode_senders(txns, senders)[k] == rest[k]);
        }
    }
}

/// Removing an address yields candidates of the original list, none
/// bearing that address, and keeps pairwise distinct addresses
/// distinct.
proof fn lemma_remove_address_props(cands: Seq<CandidateValidatorV>, addr: Seq<u8>)
    ensures
        forall|i: int|
            0 <= i < remove_address(cands, addr).len() ==> (#[trigger] remove_address(cands, addr)[i]).address
                != addr,
        forall|i: int|
            0 <= i < remove_address(cands, addr).len() ==> cands.contains(
                #[trigger] remove_address(cands, addr)[i],
            ),
        distinct_addresses(cands) ==> distinct_addresses(remove_address(cands, addr)),
    decreases cands.len(),
{
    reveal(Seq::filter);
    if cands.len() != 0 {
        let dl = cands.drop_last();
        lemma_remove_address_props(dl, addr);
        let f = remove_address(cands, addr);
        let fd = remove_address(dl, addr);
        assert forall|i: int| 0 <= i < f.len() implies (#[trigger] f[i]).address != addr by {
            if i < fd.len() {
                assert(f[i] == fd[i]);
            }
        }
        assert forall|i: int| 0 <= i < f.len() implies cands.contains(#[trigger] f[i]) by {
            if i < fd.len() {
                assert(f[i] == fd[i]);
                assert(dl.contains(fd[i]));
                let m = choose|m: int| 0 <= m < dl.len() && dl[m] == fd[i];
                assert(cands[m] == fd[i]);
            } else {
                assert(f[i] == cands.last());
                assert(cands[cands.len() - 1] == cands.last());
            }
        }
        if distinct_addresses(cands) {
            assert forall|i: int, j: int|
                0 <= i < j < dl.len() implies (#[trigger] dl[i]).address != (#[trigger] dl[j]).address by {
                assert(dl[i] == cands[i]);
                assert(dl[j] == cands[j]);
            }
            assert(distinct_addresses(dl));
            assert forall|i: int, j: int|
                0 <= i < j < f.len() implies (#[trigger] f[i]).address != (#[trigger] f[j]).address by {
                if j < fd.len() {
                    assert(f[i] == fd[i] && f[j] == fd[j]);
                } else {
                    // The last element of `cands` survived the filter;
                    // the earlier one stems from the prefix.
                    assert(f[j] == cands.last());
                    assert(f[i] == fd[i]);
                    assert(dl.contains(fd[i]));
                    let m = choose|m: int| 0 <= m < dl.len() && dl[m] == fd[i];
                    assert(cands[m] == fd[i]);
                    assert(cands[m].address != cands[cands.len() - 1].address);
                }
            }
        }
    }
}

proof fn lemma_decode_senders_distinct(txns: Seq<PoWTransaction>, senders: Seq<Seq<char>>)
    ensures
        distinct_addresses(spec_decode_senders(txns, senders)),
    decreases senders.len(),
{
    if senders.len() != 0 {
        lemma_decode_senders_distinct(txns, senders.drop_last());
        let rest = spec_decode_senders(txns, senders.drop_last());
        if spec_complete(txns, senders.last()) {
            let c = spec_candidate(txns, senders.last());
            lemma_remove_address_props(rest, c.address);
            let f = remove_address(rest, c.address);
            assert forall|i: int, j: int|
                0 <= i < j < f.push(c).len() implies (#[trigger] f.push(c)[i]).address != (#[trigger] f.push(
                c,
            )[j]).address by {
                assert(f.push(c)[i] == f[i]);
                if j < f.len() {
                    assert(f.push(c)[j] == f[j]);
                } else {
                    assert(f.push(c)[j] == c);
                    assert(f[i].address != c.address);
                }
            }
        }
    }
}

/// The decoded candidates bear pairwise distinct validator addresses:
/// at most one candidate exists per address.
pub proof fn lemma_decode_addresses_distinct(txns: Seq<PoWTransaction>)
    ensures
        distinct_addresses(spec_decode(txns)),
{
    lemma_decode_senders_distinct(txns, spec_senders(txns));
}

/// Whether the finalized validators bear pairwise distinct addresses.
pub open spec fn distinct_finalized(fin: Seq<GenesisValidatorV>) -> bool {
    forall|i: int, j: int|
        0 <= i < j < fin.len() ==> (#[trigger] fin[i]).validator_address != (#[trigger] fin[j]).validator_address
}

proof fn lemma_finalize_distinct(cands: Seq<CandidateValidatorV>, commits: Seq<PoWTransaction>, deposit: u64)
    requires
        distinct_addresses(cands),
    ensures
        ({
            let st = spec_finalize_rec(cands, commits, deposit);
            &&& distinct_addresses(st.remaining)
            &&& distinct_finalized(st.finalized)
            &&& forall|i: int, j: int|
                0 <= i < st.remaining.len() && 0 <= j < st.finalized.len() ==> (#[trigger] st.remaining[i]).address
                    != (#[trigger] st.finalized[j]).validator_address
        }),
    decreases commits.len(),
{
    if commits.len() != 0 {
        lemma_finalize_distinct(cands, commits.drop_last(), deposit);
        let st = spec_finalize_rec(cands, commits.drop_last(), deposit);
        let st2 = spec_finalize_rec(cands, commits, deposit);
        let t = commits.last();
        if st2 != st {
            let addr = spec_commit_address(t).unwrap();
            let i = spec_find_candidate(st.remaining, addr).unwrap();
            lemma_find_characterization(st.remaining, addr);
            let rem = st.remaining.remove(i);
            let fin = st.finalized.push(spec_genesis_of(st.remaining[i], deposit));
            assert forall|m: int, n: int|
                0 <= m < n < rem.len() implies (#[trigger] rem[m]).address != (#[trigger] rem[n]).address by {
                if m < i {
                    assert(rem[m] == st.remaining[m]);
                } else {
                    assert(rem[m] == st.remaining[m + 1]);
                }
                if n < i {
                    assert(rem[n] == st.remaining[n]);
                } else {
                    assert(rem[n] == st.remaining[n + 1]);
                }
            }
            assert forall|m: int, n: int|
                0 <= m < n < fin.len() implies (#[trigger] fin[m]).validator_address != (#[trigger] fin[n]).validator_address by {
                if n < st.finalized.len() {
                    assert(fin[m] == st.finalized[m] && fin[n] == st.finalized[n]);
                } else {
                    assert(fin[m] == st.finalized[m]);
                    assert(fin[n] == spec_genesis_of(st.remaining[i], deposit));
                    assert(st.remaining[i].address != st.finalized[m].validator_address);
                }
            }
            assert forall|m: int, n: int|
                0 <= m < rem.len() && 0 <= n < fin.len() implies (#[trigger] rem[m]).address != (#[trigger] fin[n]).validator_address by {
                let m0: int = if m < i {
                    m
                } else {
                    m + 1
                };
                assert(rem[m] == st.remaining[m0]);
                if n < st.finalized.len() {
                    assert(fin[n] == st.finalized[n]);
                    assert(st.remaining[m0].address != st.finalized[n].validator_address);
                } else {
                    assert(fin[n] == spec_genesis_of(st.remaining[i], deposit));
                    // The consumed candidate's address cannot recur among
                    // the rest, since the candidates are pairwise distinct.
                    if m0 < i {
                        assert(st.remaining[m0].address != st.remaining[i].address);
                    } else {
                        assert(st.remaining[m0].address != st.remaining[i].address);
                    }
                }
            }
        }
    }
}

/// The finalized validator set holds at most one validator per address:
/// a candidate is finalized at most once, and later commits for an
/// already finalized address find no candidate left.
pub proof fn lemma_validator_addresses_distinct(txns: Seq<PoWTransaction>, commits: Seq<PoWTransaction>, deposit: u64)
    ensures
        distinct_finalized(spec_finalize(spec_decode(txns), commits, deposit)),
{
    lemma_decode_addresses_distinct(txns);
    lemma_finalize_distinct(spec_decode(txns), commits, deposit);
}

/// Every sender of a transaction stands in the sender list.
proof fn lemma_sender_listed(txns: Seq<PoWTransaction>, i: int)
    requires
        0 <= i < txns.len(),
    ensures
        spec_senders(txns).contains(txns[i].from_address@),
    decreases txns.len(),
{
    let rest = spec_senders(txns.drop_last());
    if i == txns.len() - 1 {
        if !rest.contains(txns.last().from_address@) {
            assert(spec_senders(txns)[rest.len() as int] == txns.last().from_address@);
        }
    } else {
        assert(txns.drop_last()[i] == txns[i]);
        lemma_sender_listed(txns.drop_last(), i);
        let w = choose|w: int| 0 <= w < rest.len() && rest[w] == txns[i].from_address@;
        assert(spec_senders(txns)[w] == txns[i].from_address@);
    }
}

/// A complete envelope of a listed sender leaves its address among the
/// decoded candidates, whichever later envelope may have replaced the
/// candidate itself.
proof fn lemma_registered_address_present(txns: Seq<PoWTransaction>, senders: Seq<Seq<char>>, s: Seq<char>)
    requires
        senders.contains(s),
        spec_complete(txns, s),
    ensures
        has_candidate_address(spec_decode_senders(txns, senders), spec_candidate(txns, s).address),
    decreases senders.len(),
{
    let a = spec_candidate(txns, s).address;
    let rest = spec_decode_senders(txns, senders.drop_last());
    if senders.last() == s {
        let cur = spec_decode_senders(txns, senders);
        assert(cur[cur.len() - 1] == spec_candidate(txns, s));
    } else {
        let w = choose|w: int| 0 <= w < senders.len() && senders[w] == s;
        assert(w < senders.len() - 1);
        assert(senders.drop_last()[w] == s);
        assert(senders.drop_last().contains(s));
        lemma_registered_address_present(txns, senders.drop_last(), s);
        let m = choose|m: int| 0 <= m < rest.len() && rest[m].address == a;
        if spec_complete(txns, senders.last()) {
            let c = spec_candidate(txns, senders.last());
            let cur = spec_decode_senders(txns, senders);
            if c.address == a {
                assert(cur[cur.len() - 1] == c);
            } else {
                rest.lemma_filter_contains(|x: CandidateValidatorV| x.address != c.address, m);
                let f = remove_address(rest, c.address);
                assert(f.contains(rest[m]));
                let q = choose|q: int| 0 <= q < f.len() && f[q] == rest[m];
                assert(cur[q] == rest[m]);
            }
        }
    }
}

/// A registered and committed validator is finalized: when a sender's
/// envelope is complete and some commit meets the deposit threshold
/// with a payload decoding to the envelope's validator address, the
/// finalized set holds a validator with that address.
pub proof fn lemma_registered_and_committed_is_finalized(
    txns: Seq<PoWTransaction>,
    commits: Seq<PoWTransaction>,
    deposit: u64,
    s: Seq<char>,
    k: int,
)
    requires
        spec_complete(txns, s),
        0 <= k < commits.len(),
        commits[k].value >= deposit,
        spec_commit_address(commits[k]) == Some(spec_candidate(txns, s).address),
    ensures
        has_finalized_address(
            spec_finalize(spec_decode(txns), commits, deposit),
            spec_candidate(txns, s).address,
        ),
{
    lemma_slot_some_has_match(txns, s, 1);
    let i = choose|i: int| 0 <= i < txns.len() && tag_matches(#[trigger] txns[i], s, 1);
    lemma_sender_listed(txns, i);
    lemma_registered_address_present(txns, spec_senders(txns), s);
    lemma_qualifying_commit_finalizes(spec_decode(txns), commits, deposit, k);
}

/// Whether one of the candidates bears the address.
pub open spec fn has_candidate_address(cands: Seq<CandidateValidatorV>, addr: Seq<u8>) -> bool {
    exists|i: int| 0 <= i < cands.len() && (#[trigger] cands[i]).address == addr
}

/// Whether one of the finalized validators bears the address.
pub open spec fn has_finalized_address(fin: Seq<GenesisValidatorV>, addr: Seq<u8>) -> bool {
    exists|i: int| 0 <= i < fin.len() && (#[trigger] fin[i]).validator_address == addr
}

/// An address borne by a candidate stays in play: after any prefix of
/// the commits it is borne by a remaining candidate or by a finalized
/// validator.
proof fn lemma_address_stays_in_play(
    cands: Seq<CandidateValidatorV>,
    commits: Seq<PoWTransaction>,
    deposit: u64,
    addr: Seq<u8>,
    n: int,
)
    requires
        0 <= n <= commits.len(),
        has_candidate_address(cands, addr),
    ensures
        has_candidate_address(spec_finalize_rec(cands, commits.take(n), deposit).remaining, addr)
            || has_finalized_address(spec_finalize_rec(cands, commits.take(n), deposit).finalized, addr),
    decreases n,
{
    if n == 0 {
        assert(commits.take(0) =~= Seq::<PoWTransaction>::empty());
    } else {
        lemma_address_stays_in_play(cands, commits, deposit, addr, n - 1);
        assert(commits.take(n).drop_last() =~= commits.take(n - 1));
        assert(commits.take(n).last() == commits[n - 1]);
        let st = spec_finalize_rec(cands, commits.take(n - 1), deposit);
        let st2 = spec_finalize_rec(cands, commits.take(n), deposit);
        if st2 != st {
            let caddr = spec_commit_address(commits[n - 1]).unwrap();
            let i = spec_find_candidate(st.remaining, caddr).unwrap();
            lemma_find_characterization(st.remaining, caddr);
            if has_finalized_address(st.finalized, addr) {
                let w = choose|w: int| 0 <= w < st.finalized.len() && st.finalized[w].validator_address == addr;
                assert(st2.finalized[w].validator_address == addr);
            } else {
                let m = choose|m: int| 0 <= m < st.remaining.len() && st.remaining[m].address == addr;
                if st.remaining[i].address == addr {
                    assert(st2.finalized[st2.finalized.len() - 1].validator_address == addr);
                } else if m < i {
                    assert(st2.remaining[m] == st.remaining[m]);
                } else {
                    assert(m != i);
                    assert(st2.remaining[m - 1] == st.remaining[m]);
                }
            }
        }
    }
}

/// A finalized address stays finalized through the remaining commits.
proof fn lemma_finalized_address_stays(
    cands: Seq<CandidateValidatorV>,
    commits: Seq<PoWTransaction>,
    deposit: u64,
    addr: Seq<u8>,
    n: int,
)
    requires
        0 <= n <= commits.len(),
        has_finalized_address(spec_finalize_rec(cands, commits.take(n), deposit).finalized, addr),
    ensures
        has_finalized_address(spec_finalize_rec(cands, commits, deposit).finalized, addr),
    decreases commits.len() - n,
{
    if n == commits.len() {
        assert(commits.take(n) =~= commits);
    } else {
        assert(commits.take(n + 1).drop_last() =~= commits.take(n));
        assert(commits.take(n + 1).last() == commits[n]);
        let st = spec_finalize_rec(cands, commits.take(n), deposit);
        let st2 = spec_finalize_rec(cands, commits.take(n + 1), deposit);
        let w = choose|w: int| 0 <= w < st.finalized.len() && st.finalized[w].validator_address == addr;
        assert(st2.finalized[w].validator_address == addr);
        lemma_finalized_address_stays(cands, commits, deposit, addr, n + 1);
    }
}

/// A qualifying commit does finalize: when some commit meets the
/// deposit threshold and its payload decodes to an address borne by a
/// candidate, a finalized validator bears that address.
pub proof fn lemma_qualifying_commit_finalizes(
    cands: Seq<CandidateValidatorV>,
    commits: Seq<PoWTransaction>,
    deposit: u64,
    k: int,
)
    requires
        0 <= k < commits.len(),
        commits[k].value >= deposit,
        spec_commit_address(commits[k]) is Some,
        has_candidate_address(cands, spec_commit_address(commits[k]).unwrap()),
    ensures
        has_finalized_address(
            spec_finalize(cands, commits, deposit),
            spec_commit_address(commits[k]).unwrap(),
        ),
{
    let addr = spec_commit_address(commits[k]).unwrap();
    lemma_address_stays_in_play(cands, commits, deposit, addr, k);
    assert(commits.take(k + 1).drop_last() =~= commits.take(k));
    assert(commits.take(k + 1).last() == commits[k]);
    let st = spec_finalize_rec(cands, commits.take(k), deposit);
    let st2 = spec_finalize_rec(cands, commits.take(k + 1), deposit);
    lemma_find_characterization(st.remaining, addr);
    if has_finalized_address(st.finalized, addr) {
        let w = choose|w: int| 0 <= w < st.finalized.len() && st.finalized[w].validator_address == addr;
        match spec_find_candidate(st.remaining, addr) {
            Option::Some(_) => {
                assert(st2.finalized[w].validator_address == addr);
            },
            Option::None => {
                assert(st2.finalized[w].validator_address == addr);
            },
        }
    } else {
        let m = choose|m: int| 0 <= m < st.remaining.len() && st.remaining[m].address == addr;
        match spec_find_candidate(st.remaining, addr) {
            Option::Some(i) => {
                assert(st.remaining[i].address == addr);
                assert(st2.finalized[st2.finalized.len() - 1].validator_address == addr);
            },
            Option::None => {
                assert(st.remaining[m].address != addr);
            },
        }
    }
    assert(has_finalized_address(st2.finalized, addr));
    lemma_finalized_address_stays(cands, commits, deposit, addr, k + 1);
}

/// The qualifying commits: those whose value meets the deposit.
pub open spec fn spec_qualifying(commits: Seq<PoWTransaction>, deposit: u64) -> Seq<PoWTransaction> {
    commits.filter(|t: PoWTransaction| t.value >= deposit)
}

/// A commit transaction with value below the deposit threshold never
/// finalizes a candidate: dropping every such transaction leaves the
/// outcome of finalization unchanged.
pub proof fn lemma_low_commits_never_finalize(
    cands: Seq<CandidateValidatorV>,
    commits: Seq<PoWTransaction>,
    deposit: u64,
)
    ensures
        spec_finalize_rec(cands, spec_qualifying(commits, deposit), deposit) == spec_finalize_rec(
            cands,
            commits,
            deposit,
        ),
    decreases commits.len(),
{
    reveal(Seq::filter);
    if commits.len() != 0 {
        lemma_low_commits_never_finalize(cands, commits.drop_last(), deposit);
        let t = commits.last();
        if t.value >= deposit {
            assert(spec_qualifying(commits, deposit) == spec_qualifying(commits.drop_last(), deposit).push(t));
            assert(spec_qualifying(commits.drop_last(), deposit).push(t).drop_last() =~= spec_qualifying(
                commits.drop_last(),
                deposit,
            ));
        } else {
            assert(spec_qualifying(commits, deposit) == spec_qualifying(commits.drop_last(), deposit));
        }
    }
}

} // verus!
