//! Flash-loan pricing and repayment checks.
use vstd::prelude::*;

use crate::errors::PairError;
use crate::math::{div_trunc, fits_i128};
use crate::settlement::{elapsed_since, flash_settle_spec};
use crate::oracle::{price_update_fits, prices_advance};
use crate::storage::PairStorage;

verus! {

/// Lowest fee rate a flash loan is charged, in basis points.
pub const FLASH_FEE_FLOOR_BPS: u32 = 5;

/// Largest payload, in bytes, handed to a flash-loan receiver.
pub const MAX_PAYLOAD_SIZE: usize = 256;

/// Fee for a loan of `amount`: `amount * max(fee_bps, floor) / 10000`,
/// saturating to `i128::MAX` when the product overflows, and at least one unit.
pub open spec fn flash_fee_spec(amount: int, current_fee_bps: int) -> int {
    let effective = if current_fee_bps < FLASH_FEE_FLOOR_BPS { FLASH_FEE_FLOOR_BPS as int } else { current_fee_bps };
    let p = amount * effective;
    let fee = if fits_i128(p) { div_trunc(p, 10000) } else { i128::MAX as int };
    if fee < 1 { 1 } else { fee }
}

/// Computes the fee charged on a flash loan of `amount`.
pub fn compute_flash_fee(amount: i128, current_fee_bps: u32) -> (r: i128)
    ensures
        r == flash_fee_spec(amount as int, current_fee_bps as int),
        r >= 1,
{
    let effective: i128 = if current_fee_bps < FLASH_FEE_FLOOR_BPS {
        FLASH_FEE_FLOOR_BPS as i128
    } else {
        current_fee_bps as i128
    };
    let fee = match amount.checked_mul(effective) {
        Some(v) => v / 10_000,
        None => i128::MAX,
    };
    if fee < 1 { 1 } else { fee }
}

/// Outcome of the post-callback checks of a flash loan: each borrowed token's
/// balance must reach its reserve plus fee, and the product of the balances
/// must not fall below the product of the reserves.
pub open spec fn flash_repay_spec(
    st: PairStorage,
    amount_a: int,
    amount_b: int,
    fee_a: int,
    fee_b: int,
    balance_a: int,
    balance_b: int,
) -> Result<(), PairError> {
    if amount_a > 0 && !fits_i128(st.reserve_a + fee_a) {
        Err(PairError::Overflow)
    } else if amount_a > 0 && balance_a < st.reserve_a + fee_a {
        Err(PairError::FlashLoanNotRepaid)
    } else if amount_b > 0 && !fits_i128(st.reserve_b + fee_b) {
        Err(PairError::Overflow)
    } else if amount_b > 0 && balance_b < st.reserve_b + fee_b {
        Err(PairError::FlashLoanNotRepaid)
    } else if !fits_i128(balance_a * balance_b) {
        Err(PairError::Overflow)
    } else if balance_a * balance_b < st.reserve_a * st.reserve_b {
        Err(PairError::InvalidK)
    } else {
        Ok(())
    }
}

/// Checks the balances a flash loan left behind; see `flash_repay_spec`.
pub fn check_flash_repayment(
    state: &PairStorage,
    amount_a: i128,
    amount_b: i128,
    fee_a: i128,
    fee_b: i128,
    balance_a: i128,
    balance_b: i128,
) -> (r: Result<(), PairError>)
    requires
        fits_i128(state.reserve_a * state.reserve_b),
    ensures
        r == flash_repay_spec(*state, amount_a as int, amount_b as int, fee_a as int, fee_b as int, balance_a as int, balance_b as int),
{
    if amount_a > 0 {
        let required_a = match state.reserve_a.checked_add(fee_a) {
            Some(v) => v,
            None => return Err(PairError::Overflow),
        };
        if balance_a < required_a {
            return Err(PairError::FlashLoanNotRepaid);
        }
    }
    if amount_b > 0 {
        let required_b = match state.reserve_b.checked_add(fee_b) {
            Some(v) => v,
            None => return Err(PairError::Overflow),
        };
        if balance_b < required_b {
            return Err(PairError::FlashLoanNotRepaid);
        }
    }
    let pre_k = state.reserve_a * state.reserve_b;
    let post_k = match balance_a.checked_mul(balance_b) {
        Some(v) => v,
        None => return Err(PairError::Overflow),
    };
    if post_k < pre_k {
        return Err(PairError::InvalidK);
    }
    Ok(())
}

/// The fee charged on one side of a loan: nothing when that side borrows nothing.
pub open spec fn side_fee(amount: int, fee_bps: int) -> int {
    if amount > 0 { flash_fee_spec(amount, fee_bps) } else { 0 }
}

/// Round trip of a flash loan on a sound pair: when each borrowed side comes
/// back as principal plus fee, the checks pass and the new reserves exceed the
/// old ones by exactly the fees (provided the new state is representable);
/// when a borrowed side comes back short, the loan fails with `FlashLoanNotRepaid`.
pub proof fn lemma_flash_round_trip(
    st: PairStorage,
    amount_a: int,
    amount_b: int,
    fee_bps: int,
    now: u64,
    short_balance_a: int,
)
    requires
        st.wf(),
        fits_i128(st.reserve_a * st.reserve_b),
        0 <= amount_a <= st.reserve_a,
        0 <= amount_b <= st.reserve_b,
        amount_a > 0 || amount_b > 0,
        fits_i128(st.reserve_a + side_fee(amount_a, fee_bps)),
        fits_i128(st.reserve_b + side_fee(amount_b, fee_bps)),
        fits_i128((st.reserve_a + side_fee(amount_a, fee_bps)) * (st.reserve_b + side_fee(amount_b, fee_bps))),
        prices_advance(st.reserve_a as int, st.reserve_b as int, elapsed_since(st.block_timestamp_last, now))
            ==> price_update_fits(
            st.reserve_a as int,
            st.reserve_b as int,
            elapsed_since(st.block_timestamp_last, now),
            st.price_a_cumulative as int,
            st.price_b_cumulative as int,
        ),
    ensures
        ({
            let fa = side_fee(amount_a, fee_bps);
            let fb = side_fee(amount_b, fee_bps);
            let ba = st.reserve_a + fa;
            let bb = st.reserve_b + fb;
            &&& flash_settle_spec(st, amount_a, amount_b, fa, fb, ba, bb, now) is Ok
            &&& flash_settle_spec(st, amount_a, amount_b, fa, fb, ba, bb, now)->Ok_0.reserve_a == st.reserve_a + fa
            &&& flash_settle_spec(st, amount_a, amount_b, fa, fb, ba, bb, now)->Ok_0.reserve_b == st.reserve_b + fb
        }),
        amount_a > 0 && short_balance_a < st.reserve_a + side_fee(amount_a, fee_bps) ==> flash_settle_spec(
            st,
            amount_a,
            amount_b,
            side_fee(amount_a, fee_bps),
            side_fee(amount_b, fee_bps),
            short_balance_a,
            st.reserve_b + side_fee(amount_b, fee_bps),
            now,
        ) == Err::<PairStorage, PairError>(PairError::FlashLoanNotRepaid),
{
    let fa = side_fee(amount_a, fee_bps);
    let fb = side_fee(amount_b, fee_bps);
    assert(fa >= 0 && fb >= 0);
    let ba = st.reserve_a + fa;
    let bb = st.reserve_b + fb;
    assert(ba * bb >= st.reserve_a * st.reserve_b) by (nonlinear_arith)
        requires ba >= st.reserve_a >= 0, bb >= st.reserve_b >= 0;
}

} // verus!
