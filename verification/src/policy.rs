//! The migration policy: the network constants the engine is
//! parameterized over, and the epoch-boundary schedule of the successor
//! chain.

use vstd::prelude::*;

verus! {

/// Network constants of one migration run. Passing them explicitly keeps
/// the engine usable across network variants.
pub struct MigrationPolicy {
    /// Estimated legacy block time in milliseconds.
    pub pow_block_time_ms: u64,
    /// Deposit a commit transaction must carry to finalize a validator.
    pub validator_deposit: u64,
    /// Stake percentage that counts as a readiness quorum.
    pub ready_percentage: u8,
    /// Block height from which readiness reports count.
    pub activation_height: u32,
    /// Blocks between consecutive epoch-boundary (election) blocks of
    /// the successor chain's schedule.
    pub epoch_length: u32,
}

impl MigrationPolicy {
    /// Whether the constants are usable: a positive epoch length and a
    /// percentage.
    pub open spec fn well_formed(&self) -> bool {
        &&& 0 < self.epoch_length
        &&& self.ready_percentage <= 100
    }
}

/// The next epoch-boundary block strictly after `height`: boundaries are
/// the multiples of `epoch_length`.
pub open spec fn spec_election_block_after(height: u32, epoch_length: u32) -> int
    recommends
        epoch_length > 0,
{
    (height / epoch_length + 1) * epoch_length
}

/// The last epoch-boundary block at or before `height`.
pub open spec fn spec_election_block_before(height: u32, epoch_length: u32) -> int
    recommends
        epoch_length > 0,
{
    (height / epoch_length) * epoch_length
}

/// Next epoch-boundary block strictly after `height`.
pub fn election_block_after(height: u32, epoch_length: u32) -> (r: u32)
    requires
        0 < epoch_length,
        height + epoch_length <= u32::MAX,
    ensures
        r == spec_election_block_after(height, epoch_length),
        r % epoch_length == 0,
        height < r,
{
    proof {
        let h = height as int;
        let e = epoch_length as int;
        vstd::arithmetic::div_mod::lemma_fundamental_div_mod(h, e);
        vstd::arithmetic::div_mod::lemma_mod_bound(h, e);
        assert((h / e + 1) * e == e * (h / e) + e) by (nonlinear_arith);
        assert(0 <= h / e && h / e <= e * (h / e)) by (nonlinear_arith)
            requires
                0 <= h,
                1 <= e,
        ;
        vstd::arithmetic::div_mod::lemma_mod_multiples_basic(h / e + 1, e);
    }
    (height / epoch_length + 1) * epoch_length
}

/// Last epoch-boundary block at or before `height`.
pub fn election_block_before(height: u32, epoch_length: u32) -> (r: u32)
    requires
        0 < epoch_length,
    ensures
        r == spec_election_block_before(height, epoch_length),
        r % epoch_length == 0,
        r <= height,
{
    proof {
        let h = height as int;
        let e = epoch_length as int;
        vstd::arithmetic::div_mod::lemma_fundamental_div_mod(h, e);
        vstd::arithmetic::div_mod::lemma_mod_bound(h, e);
        assert((h / e) * e == e * (h / e)) by (nonlinear_arith);
        assert(0 <= h / e && h / e <= e * (h / e)) by (nonlinear_arith)
            requires
                0 <= h,
                1 <= e,
        ;
        vstd::arithmetic::div_mod::lemma_mod_multiples_basic(h / e, e);
    }
    (height / epoch_length) * epoch_length
}

} // verus!
