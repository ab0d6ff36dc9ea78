//! The readiness-quorum controller.
//!
//! Every validator operator runs this protocol independently: report
//! readiness on chain once per epoch window, tally the stake whose
//! validators have reported ready since the activation height, and
//! declare the migration ready once that stake reaches the configured
//! percentage of the total. The controller converges only through
//! chain-observable state; the caller performs the polling and hands
//! each observation to [`monitor_step`].

use vstd::prelude::*;

use crate::keys::{burn_address_friendly, burn_address_str};
use crate::policy::{election_block_after, spec_election_block_after, MigrationPolicy};
use crate::types::{OutgoingTransaction, PoWTransaction};
use crate::validators::GenesisValidator;

verus! {

/// Outcome of one readiness tally: the stake reported ready, and
/// whether it meets the quorum.
#[derive(Clone, Copy, Debug, PartialEq, Eq, Structural)]
pub enum ValidatorsReadiness {
    /// Quorum not reached; the stake reported ready so far.
    NotReady(u64),
    /// Quorum reached with this ready stake.
    Ready(u64),
}

/// The readiness report: one smallest currency unit from the validator
/// to the burn address, with no fee.
pub fn generate_ready_tx(validator: String) -> (r: OutgoingTransaction)
    ensures
        r.from@ == validator@,
        r.to@ == burn_address_str(),
        r.value == 1,
        r.fee == 0,
{
    OutgoingTransaction { from: validator, to: burn_address_friendly(), value: 1, fee: 0 }
}

/// Whether a transaction is a readiness report strictly inside the
/// given block window.
pub open spec fn spec_in_window_report(t: PoWTransaction, window_start: u32, window_end: u32) -> bool {
    &&& t.block_number > window_start
    &&& t.block_number < window_end
    &&& t.to_address@ == burn_address_str()
    &&& t.value == 1
}

/// The readiness reports inside the window, in order.
pub open spec fn spec_ready_txns(txns: Seq<PoWTransaction>, window_start: u32, window_end: u32) -> Seq<
    PoWTransaction,
> {
    txns.filter(|t: PoWTransaction| spec_in_window_report(t, window_start, window_end))
}

/// Keep the transactions that are readiness reports strictly inside
/// the block window: sent to the burn address with value one.
pub fn get_ready_txns(transactions: Vec<PoWTransaction>, window_start: u32, window_end: u32) -> (r: Vec<
    PoWTransaction,
>)
    ensures
        r@ == spec_ready_txns(transactions@, window_start, window_end),
{
    let ghost orig = transactions@;
    let burn = burn_address_friendly();
    let mut rest = transactions;
    let mut kept: Vec<PoWTransaction> = Vec::new();
    proof {
        reveal(Seq::filter);
        assert(orig.take(0) =~= Seq::<PoWTransaction>::empty());
        assert(orig.skip(0) =~= orig);
        assert(kept@ =~= spec_ready_txns(orig.take(0), window_start, window_end));
    }
    while rest.len() > 0
        invariant
            rest@.len() <= orig.len(),
            burn@ == burn_address_str(),
            rest@ == orig.skip(orig.len() - rest@.len()),
            kept@ == spec_ready_txns(orig.take(orig.len() - rest@.len()), window_start, window_end),
        decreases rest@.len(),
    {
        let ghost n = orig.len() - rest@.len();
        proof {
            assert(orig.take(n + 1).drop_last() =~= orig.take(n as int));
            assert(orig.take(n + 1).last() == orig[n as int]);
            assert(rest@[0] == orig[n as int]);
        }
        let t = rest.remove(0);
        proof {
            assert(rest@ =~= orig.skip(n + 1));
        }
        if t.block_number > window_start && t.block_number < window_end && t.to_address == burn && t.value == 1 {
            kept.push(t);
        }
        proof {
            reveal(Seq::filter);
            assert(kept@ =~= spec_ready_txns(orig.take(n + 1), window_start, window_end));
        }
    }
    proof {
        assert(orig.take(orig.len() as int) =~= orig);
    }
    kept
}

/// Whether a transaction is a qualifying readiness report for the
/// activation window: past the activation height, to the burn address,
/// with value one.
pub open spec fn spec_activation_report(t: PoWTransaction, activation_height: u32) -> bool {
    &&& t.block_number > activation_height
    &&& t.to_address@ == burn_address_str()
    &&& t.value == 1
}

/// Whether a validator with these transactions has reported readiness
/// in the activation window.
pub open spec fn spec_validator_ready(txns: Seq<PoWTransaction>, activation_height: u32) -> bool {
    exists|i: int| 0 <= i < txns.len() && spec_activation_report(#[trigger] txns[i], activation_height)
}

/// Total stake of the validators.
pub open spec fn spec_total_stake(validators: Seq<GenesisValidator>) -> int
    decreases validators.len(),
{
    if validators.len() == 0 {
        0
    } else {
        spec_total_stake(validators.drop_last()) + validators.last().balance
    }
}

/// Stake of the validators that have reported readiness, pairing each
/// validator with its fetched transactions.
pub open spec fn spec_ready_stake(
    validators: Seq<GenesisValidator>,
    reports: Seq<Vec<PoWTransaction>>,
    activation_height: u32,
) -> int
    recommends
        validators.len() == reports.len(),
    decreases validators.len(),
{
    if validators.len() == 0 {
        0
    } else {
        spec_ready_stake(validators.drop_last(), reports.drop_last(), activation_height) + (
        if spec_validator_ready(reports.last()@, activation_height) {
            validators.last().balance as int
        } else {
            0
        })
    }
}

/// Whether a ready stake meets the quorum: at least the configured
/// percentage of the total, compared exactly, so that exactly the
/// threshold counts as reached and nothing below it ever does.
pub open spec fn spec_quorum(ready: int, total: int, ready_percentage: u8) -> bool {
    100 * ready >= ready_percentage * total
}

/// The readiness outcome: quorum is reached exactly when the ready
/// stake is at least the configured percentage of the total stake.
pub open spec fn spec_readiness(
    validators: Seq<GenesisValidator>,
    reports: Seq<Vec<PoWTransaction>>,
    policy: MigrationPolicy,
) -> ValidatorsReadiness {
    let ready = spec_ready_stake(validators, reports, policy.activation_height);
    if spec_quorum(ready, spec_total_stake(validators), policy.ready_percentage) {
        ValidatorsReadiness::Ready(ready as u64)
    } else {
        ValidatorsReadiness::NotReady(ready as u64)
    }
}

/// Stake sums over a prefix stay between zero and the whole sum.
proof fn lemma_total_stake_prefix(validators: Seq<GenesisValidator>, k: int)
    requires
        0 <= k <= validators.len(),
    ensures
        0 <= spec_total_stake(validators.take(k)) <= spec_total_stake(validators),
    decreases validators.len() - k,
{
    if k == validators.len() {
        assert(validators.take(k) =~= validators);
        lemma_total_stake_nonneg(validators);
    } else {
        lemma_total_stake_prefix(validators, k + 1);
        assert(validators.take(k + 1).drop_last() =~= validators.take(k));
        lemma_total_stake_nonneg(validators.take(k));
    }
}

/// A stake sum is never negative.
proof fn lemma_total_stake_nonneg(validators: Seq<GenesisValidator>)
    ensures
        0 <= spec_total_stake(validators),
    decreases validators.len(),
{
    if validators.len() != 0 {
        lemma_total_stake_nonneg(validators.drop_last());
    }
}

/// The ready stake never exceeds the total stake.
proof fn lemma_ready_stake_bounds(
    validators: Seq<GenesisValidator>,
    reports: Seq<Vec<PoWTransaction>>,
    activation_height: u32,
)
    requires
        validators.len() == reports.len(),
    ensures
        0 <= spec_ready_stake(validators, reports, activation_height) <= spec_total_stake(validators),
    decreases validators.len(),
{
    if validators.len() != 0 {
        lemma_ready_stake_bounds(validators.drop_last(), reports.drop_last(), activation_height);
    }
}

/// Scan one validator's transactions for a qualifying readiness report.
fn validator_ready(txns: &Vec<PoWTransaction>, activation_height: u32, burn: &String) -> (r: bool)
    requires
        burn@ == burn_address_str(),
    ensures
        r == spec_validator_ready(txns@, activation_height),
{
    let mut i: usize = 0;
    while i < txns.len()
        invariant
            i <= txns@.len(),
            burn@ == burn_address_str(),
            forall|m: int| 0 <= m < i ==> !spec_activation_report(#[trigger] txns@[m], activation_height),
        decreases txns@.len() - i,
    {
        let t = &txns[i];
        if t.block_number > activation_height && t.to_address == *burn && t.value == 1 {
            return true;
        }
        i = i + 1;
    }
    false
}

/// Tally the validators' readiness: sum the stake of every validator
/// with at least one qualifying readiness report in the activation
/// window, and compare it against the configured percentage of the
/// total registered stake. Exactly the threshold counts as reached.
pub fn check_validators_ready(
    validators: &Vec<GenesisValidator>,
    reports: &Vec<Vec<PoWTransaction>>,
    policy: &MigrationPolicy,
) -> (r: ValidatorsReadiness)
    requires
        validators@.len() == reports@.len(),
        policy.well_formed(),
        spec_total_stake(validators@) <= u64::MAX,
    ensures
        r == spec_readiness(validators@, reports@, *policy),
{
    let ghost vs = validators@;
    let ghost rs = reports@;
    let burn = burn_address_friendly();

    let mut total: u64 = 0;
    let mut k: usize = 0;
    proof {
        assert(vs.take(0) =~= Seq::<GenesisValidator>::empty());
    }
    while k < validators.len()
        invariant
            k <= vs.len(),
            vs == validators@,
            total == spec_total_stake(vs.take(k as int)),
            spec_total_stake(vs) <= u64::MAX,
        decreases vs.len() - k,
    {
        proof {
            assert(vs.take(k + 1).drop_last() =~= vs.take(k as int));
            assert(vs.take(k + 1).last() == vs[k as int]);
            lemma_total_stake_prefix(vs, k + 1);
        }
        total = total + validators[k].balance;
        k = k + 1;
    }
    proof {
        assert(vs.take(vs.len() as int) =~= vs);
    }

    let mut ready: u64 = 0;
    let mut k: usize = 0;
    proof {
        assert(vs.take(0) =~= Seq::<GenesisValidator>::empty());
        assert(rs.take(0) =~= Seq::<Vec<PoWTransaction>>::empty());
    }
    while k < validators.len()
        invariant
            k <= vs.len(),
            vs == validators@,
            rs == reports@,
            vs.len() == rs.len(),
            burn@ == burn_address_str(),
            ready == spec_ready_stake(vs.take(k as int), rs.take(k as int), policy.activation_height),
            total == spec_total_stake(vs),
            spec_total_stake(vs) <= u64::MAX,
        decreases vs.len() - k,
    {
        proof {
            assert(vs.take(k + 1).drop_last() =~= vs.take(k as int));
            assert(vs.take(k + 1).last() == vs[k as int]);
            assert(rs.take(k + 1).drop_last() =~= rs.take(k as int));
            assert(rs.take(k + 1).last() == rs[k as int]);
            lemma_ready_stake_bounds(vs.take(k + 1), rs.take(k + 1), policy.activation_height);
            lemma_total_stake_prefix(vs, k + 1);
        }
        if validator_ready(&reports[k], policy.activation_height, &burn) {
            ready = ready + validators[k].balance;
        }
        k = k + 1;
    }
    proof {
        assert(vs.take(vs.len() as int) =~= vs);
        assert(rs.take(rs.len() as int) =~= rs);
        lemma_ready_stake_bounds(vs, rs, policy.activation_height);
    }

    // The threshold comparison is exact: widened arithmetic, no
    // rounding, so exactly the configured percentage counts as reached.
    proof {
        assert((policy.ready_percentage as int) * (total as int) <= 255 * (u64::MAX as int)) by (nonlinear_arith)
            requires
                0 <= policy.ready_percentage <= 255,
                0 <= total <= u64::MAX,
        ;
    }
    if (ready as u128) * 100 >= (policy.ready_percentage as u128) * (total as u128) {
        ValidatorsReadiness::Ready(ready)
    } else {
        ValidatorsReadiness::NotReady(ready)
    }
}

/// Readiness quorum: with stakes summing to `S` and a threshold of `P`
/// percent, quorum is declared if and only if `100` times the summed
/// stake of the validators with at least one qualifying readiness
/// report is at least `P` times `S` — the exact threshold comparison,
/// under which exactly `P` percent of `S` counts as reached and
/// anything below it never does.
pub proof fn lemma_quorum_iff(
    validators: Seq<GenesisValidator>,
    reports: Seq<Vec<PoWTransaction>>,
    policy: MigrationPolicy,
)
    requires
        validators.len() == reports.len(),
    ensures
        spec_readiness(validators, reports, policy) is Ready <==> 100 * spec_ready_stake(
            validators,
            reports,
            policy.activation_height,
        ) >= policy.ready_percentage * spec_total_stake(validators),
        100 * spec_ready_stake(validators, reports, policy.activation_height) == policy.ready_percentage
            * spec_total_stake(validators) ==> spec_readiness(validators, reports, policy) is Ready,
{
}

/// The stages of the readiness protocol, from waiting for the reader's
/// consensus to a confirmed migration candidate.
#[derive(Clone, Copy, Debug, PartialEq, Eq, Structural)]
pub enum MonitorState {
    /// Waiting for the chain reader to report an established consensus.
    AwaitingConsensus,
    /// Reporting readiness every epoch window and polling the tally.
    PollingReadiness {
        /// Whether this operator has reported in the current window.
        reported_ready: bool,
        /// The epoch boundary the last tick observed; a change of it
        /// resets the reported flag.
        next_election_block: u32,
    },
    /// Quorum observed; the candidate is chosen on the next height poll.
    QuorumReached,
    /// A migration candidate block is chosen; waiting for confirmations.
    CandidateSelected {
        /// The chosen epoch-boundary block.
        candidate: u32,
    },
    /// The candidate has enough confirmations; migration may start.
    CandidateConfirmed {
        /// The confirmed epoch-boundary block.
        candidate: u32,
    },
}

/// One observation handed to the controller.
#[derive(Clone, Copy, Debug, PartialEq, Eq, Structural)]
pub enum MonitorEvent {
    /// The reader's consensus status.
    SyncStatus {
        /// Whether consensus is established.
        established: bool,
    },
    /// One readiness poll.
    ReadinessTick {
        /// Current chain height.
        height: u32,
        /// Whether an own readiness report stands in the current epoch
        /// window.
        own_report_seen: bool,
        /// The stake tally of this tick.
        readiness: ValidatorsReadiness,
    },
    /// One height poll.
    HeightTick {
        /// Current chain height.
        height: u32,
    },
}

/// What the caller must do after a step.
#[derive(Clone, Copy, Debug, PartialEq, Eq, Structural)]
pub enum MonitorAction {
    /// Sleep and poll again.
    Wait,
    /// Broadcast this operator's readiness report.
    SendReadyTx,
    /// Start the migration.
    Proceed,
}

/// Whether an event's height leaves room for the next epoch boundary.
pub open spec fn event_in_range(ev: MonitorEvent, policy: MigrationPolicy) -> bool {
    match ev {
        MonitorEvent::SyncStatus { .. } => true,
        MonitorEvent::ReadinessTick { height, .. } => height + policy.epoch_length <= u32::MAX,
        MonitorEvent::HeightTick { height } => height + policy.epoch_length <= u32::MAX,
    }
}

/// One step of the controller. Consensus must be established before
/// polling starts. Each readiness tick re-derives the epoch window; a
/// window change resets the reported flag, so readiness is re-asserted
/// every epoch. A report is sent only when none of this operator's
/// reports stands in the window. On quorum the controller picks the
/// next epoch boundary strictly after the then-current height as the
/// migration candidate and waits until the chain is a confirmation
/// depth past it.
pub open spec fn spec_monitor_step(
    st: MonitorState,
    ev: MonitorEvent,
    policy: MigrationPolicy,
    confirmations: u32,
) -> (MonitorState, MonitorAction)
    recommends
        policy.well_formed(),
{
    match (st, ev) {
        (MonitorState::AwaitingConsensus, MonitorEvent::SyncStatus { established }) => {
            if established {
                (MonitorState::PollingReadiness { reported_ready: false, next_election_block: 0 }, MonitorAction::Wait)
            } else {
                (st, MonitorAction::Wait)
            }
        },
        (
            MonitorState::PollingReadiness { reported_ready, next_election_block },
            MonitorEvent::ReadinessTick { height, own_report_seen, readiness },
        ) => {
            let neb = spec_election_block_after(height, policy.epoch_length) as u32;
            let reported = if next_election_block != neb {
                false
            } else {
                reported_ready
            };
            let action = if !reported && !own_report_seen {
                MonitorAction::SendReadyTx
            } else {
                MonitorAction::Wait
            };
            match readiness {
                ValidatorsReadiness::Ready(_) => (MonitorState::QuorumReached, action),
                ValidatorsReadiness::NotReady(_) => (
                    MonitorState::PollingReadiness { reported_ready: true, next_election_block: neb },
                    action,
                ),
            }
        },
        (MonitorState::QuorumReached, MonitorEvent::HeightTick { height }) => {
            (
                MonitorState::CandidateSelected {
                    candidate: spec_election_block_after(height, policy.epoch_length) as u32,
                },
                MonitorAction::Wait,
            )
        },
        (MonitorState::CandidateSelected { candidate }, MonitorEvent::HeightTick { height }) => {
            if height >= candidate + confirmations {
                (MonitorState::CandidateConfirmed { candidate }, MonitorAction::Proceed)
            } else {
                (st, MonitorAction::Wait)
            }
        },
        _ => (st, MonitorAction::Wait),
    }
}

/// Advance the readiness controller by one observation.
pub fn monitor_step(st: MonitorState, ev: MonitorEvent, policy: &MigrationPolicy, confirmations: u32) -> (r: (
    MonitorState,
    MonitorAction,
))
    requires
        policy.well_formed(),
        event_in_range(ev, *policy),
    ensures
        r == spec_monitor_step(st, ev, *policy, confirmations),
{
    match (st, ev) {
        (MonitorState::AwaitingConsensus, MonitorEvent::SyncStatus { established }) => {
            if established {
                (
                    MonitorState::PollingReadiness { reported_ready: false, next_election_block: 0 },
                    MonitorAction::Wait,
                )
            } else {
                (st, MonitorAction::Wait)
            }
        },
        (
            MonitorState::PollingReadiness { reported_ready, next_election_block },
            MonitorEvent::ReadinessTick { height, own_report_seen, readiness },
        ) => {
            let neb = election_block_after(height, policy.epoch_length);
            let reported = if next_election_block != neb {
                false
            } else {
                reported_ready
            };
            let action = if !reported && !own_report_seen {
                MonitorAction::SendReadyTx
            } else {
                MonitorAction::Wait
            };
            match readiness {
                ValidatorsReadiness::Ready(_) => (MonitorState::QuorumReached, action),
                ValidatorsReadiness::NotReady(_) => (
                    MonitorState::PollingReadiness { reported_ready: true, next_election_block: neb },
                    action,
                ),
            }
        },
        (MonitorState::QuorumReached, MonitorEvent::HeightTick { height }) => {
            (
                MonitorState::CandidateSelected { candidate: election_block_after(height, policy.epoch_length) },
                MonitorAction::Wait,
            )
        },
        (MonitorState::CandidateSelected { candidate }, MonitorEvent::HeightTick { height }) => {
            if (height as u64) >= (candidate as u64) + (confirmations as u64) {
                (MonitorState::CandidateConfirmed { candidate }, MonitorAction::Proceed)
            } else {
                (st, MonitorAction::Wait)
            }
        },
        _ => (st, MonitorAction::Wait),
    }
}

} // verus!
