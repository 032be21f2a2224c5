//! Time decay of a stale volatility accumulator.
use vstd::prelude::*;

use crate::dynamic_fee::FeeState;

verus! {

/// Upper bound on the decay periods applied in one call.
pub const MAX_DECAY_PERIODS: u64 = 64;

/// `vol` divided by `d`, `n` times over.
pub open spec fn divided(vol: int, d: int, n: nat) -> int
    decreases n,
{
    if n == 0 {
        vol
    } else {
        divided(vol, d, (n - 1) as nat) / d
    }
}

proof fn lemma_divided_bounds(vol: int, d: int, n: nat)
    requires
        vol >= 0,
        d >= 2,
    ensures
        0 <= divided(vol, d, n) <= vol,
    decreases n,
{
    if n > 0 {
        lemma_divided_bounds(vol, d, (n - 1) as nat);
    }
}

/// The divisor applied per period: `cooldown_divisor`, raised to at least 2.
pub open spec fn effective_divisor(fs: FeeState) -> int {
    if fs.cooldown_divisor < 2 { 2 } else { fs.cooldown_divisor as int }
}

/// Number of decay periods between the last update and `current`, capped.
pub open spec fn decay_periods(fs: FeeState, current: u64) -> nat {
    let elapsed = if current > fs.last_fee_update { current - fs.last_fee_update } else { 0 };
    let threshold = if fs.decay_threshold_blocks < 1 { 1 } else { fs.decay_threshold_blocks as int };
    let p = elapsed / threshold;
    if p > MAX_DECAY_PERIODS { MAX_DECAY_PERIODS as nat } else { p as nat }
}

/// State after `apply_time_decay`: nothing changes when no time passed;
/// otherwise the update time becomes `current`, a non-positive accumulator is
/// floored at zero, and a positive one is divided once per period.
pub open spec fn time_decay_spec(fs: FeeState, current: u64) -> FeeState {
    if current <= fs.last_fee_update {
        fs
    } else if fs.vol_accumulator <= 0 {
        FeeState { vol_accumulator: 0, last_fee_update: current, ..fs }
    } else {
        FeeState {
            vol_accumulator: divided(
                fs.vol_accumulator as int,
                effective_divisor(fs),
                decay_periods(fs, current),
            ) as i128,
            last_fee_update: current,
            ..fs
        }
    }
}

/// State after `decay_stale_ema`: decay applies only once more than
/// `decay_threshold_blocks` sequence numbers have passed.
pub open spec fn decay_spec(fs: FeeState, current: u64) -> FeeState {
    if current > fs.last_fee_update && current - fs.last_fee_update > fs.decay_threshold_blocks {
        time_decay_spec(fs, current)
    } else {
        fs
    }
}

/// Divides the accumulator by the cooldown divisor once per elapsed idle
/// period (at most `MAX_DECAY_PERIODS` times) and records `current_ledger`.
pub fn apply_time_decay(fee_state: &mut FeeState, current_ledger: u64)
    ensures
        *final(fee_state) == time_decay_spec(*old(fee_state), current_ledger),
{
    if current_ledger <= fee_state.last_fee_update {
        return;
    }
    if fee_state.vol_accumulator <= 0 {
        fee_state.vol_accumulator = 0;
        fee_state.last_fee_update = current_ledger;
        return;
    }
    let elapsed = current_ledger - fee_state.last_fee_update;
    let divisor: i128 = if fee_state.cooldown_divisor < 2 { 2 } else { fee_state.cooldown_divisor as i128 };
    let threshold: u64 = if fee_state.decay_threshold_blocks < 1 { 1 } else { fee_state.decay_threshold_blocks };
    let p = elapsed / threshold;
    let periods: u64 = if p > MAX_DECAY_PERIODS { MAX_DECAY_PERIODS } else { p };
    assert(periods == decay_periods(*old(fee_state), current_ledger));
    let start = fee_state.vol_accumulator;
    let mut vol: i128 = start;
    let mut i: u64 = 0;
    while i < periods
        invariant
            i <= periods,
            start > 0,
            divisor >= 2,
            vol as int == divided(start as int, divisor as int, i as nat),
        decreases periods - i,
    {
        proof {
            lemma_divided_bounds(start as int, divisor as int, i as nat);
        }
        vol = vol / divisor;
        i = i + 1;
    }
    proof {
        lemma_divided_bounds(start as int, divisor as int, periods as nat);
    }
    fee_state.vol_accumulator = vol;
    fee_state.last_fee_update = current_ledger;
}

/// A second decay at the same sequence number changes nothing.
pub proof fn lemma_decay_idempotent(fs: FeeState, current_sequence: u64)
    ensures
        decay_spec(decay_spec(fs, current_sequence), current_sequence) == decay_spec(fs, current_sequence),
{
}

} // verus!
