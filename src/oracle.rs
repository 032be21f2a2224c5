//! Cumulative-price accumulators for time-weighted average prices.
use vstd::prelude::*;

use crate::errors::PairError;
use crate::math::fits_i128;

verus! {

/// Whether the accumulators advance: time has passed and both reserves are positive.
pub open spec fn prices_advance(reserve_a: int, reserve_b: int, time_elapsed: int) -> bool {
    time_elapsed > 0 && reserve_a > 0 && reserve_b > 0
}

/// The two increments `(reserve_b * t / reserve_a, reserve_a * t / reserve_b)`.
pub open spec fn price_deltas(reserve_a: int, reserve_b: int, time_elapsed: int) -> (int, int) {
    ((reserve_b * time_elapsed) / reserve_a, (reserve_a * time_elapsed) / reserve_b)
}

/// Whether every intermediate of an accumulator update fits in an `i128`.
pub open spec fn price_update_fits(reserve_a: int, reserve_b: int, time_elapsed: int, price_a: int, price_b: int) -> bool {
    &&& fits_i128(reserve_b * time_elapsed)
    &&& fits_i128(reserve_a * time_elapsed)
    &&& fits_i128(price_a + price_deltas(reserve_a, reserve_b, time_elapsed).0)
    &&& fits_i128(price_b + price_deltas(reserve_a, reserve_b, time_elapsed).1)
}

/// Adds `reserve_b * t / reserve_a` to `price_a_cumulative` and
/// `reserve_a * t / reserve_b` to `price_b_cumulative` when time has passed
/// and both reserves are positive; otherwise changes nothing. An overflow gives
/// `Overflow` and changes nothing.
pub fn update_cumulative_prices(
    reserve_a: i128,
    reserve_b: i128,
    time_elapsed: u64,
    price_a_cumulative: &mut i128,
    price_b_cumulative: &mut i128,
) -> (r: Result<(), PairError>)
    ensures
        !prices_advance(reserve_a as int, reserve_b as int, time_elapsed as int) ==> r is Ok
            && *final(price_a_cumulative) == *old(price_a_cumulative)
            && *final(price_b_cumulative) == *old(price_b_cumulative),
        prices_advance(reserve_a as int, reserve_b as int, time_elapsed as int) && !price_update_fits(
            reserve_a as int,
            reserve_b as int,
            time_elapsed as int,
            *old(price_a_cumulative) as int,
            *old(price_b_cumulative) as int,
        ) ==> r == Err::<(), PairError>(PairError::Overflow)
            && *final(price_a_cumulative) == *old(price_a_cumulative)
            && *final(price_b_cumulative) == *old(price_b_cumulative),
        prices_advance(reserve_a as int, reserve_b as int, time_elapsed as int) && price_update_fits(
            reserve_a as int,
            reserve_b as int,
            time_elapsed as int,
            *old(price_a_cumulative) as int,
            *old(price_b_cumulative) as int,
        ) ==> r is Ok
            && *final(price_a_cumulative) == *old(price_a_cumulative) + price_deltas(
                reserve_a as int,
                reserve_b as int,
                time_elapsed as int,
            ).0
            && *final(price_b_cumulative) == *old(price_b_cumulative) + price_deltas(
                reserve_a as int,
                reserve_b as int,
                time_elapsed as int,
            ).1,
{
    if time_elapsed == 0 || reserve_a <= 0 || reserve_b <= 0 {
        return Ok(());
    }
    let t = time_elapsed as i128;
    let na = match reserve_b.checked_mul(t) {
        Some(v) => v,
        None => return Err(PairError::Overflow),
    };
    let nb = match reserve_a.checked_mul(t) {
        Some(v) => v,
        None => return Err(PairError::Overflow),
    };
    let new_a = match price_a_cumulative.checked_add(na / reserve_a) {
        Some(v) => v,
        None => return Err(PairError::Overflow),
    };
    let new_b = match price_b_cumulative.checked_add(nb / reserve_b) {
        Some(v) => v,
        None => return Err(PairError::Overflow),
    };
    *price_a_cumulative = new_a;
    *price_b_cumulative = new_b;
    Ok(())
}

/// Time-weighted average price between two readings of a cumulative price
/// accumulator taken `time_elapsed` apart.
pub fn consult_twap(price_cumulative_start: i128, price_cumulative_end: i128, time_elapsed: u64) -> (r: i128)
    requires
        price_cumulative_start <= price_cumulative_end,
        fits_i128(price_cumulative_end - price_cumulative_start),
        time_elapsed > 0,
    ensures
        r == (price_cumulative_end - price_cumulative_start) / (time_elapsed as int),
        r >= 0,
{
    (price_cumulative_end - price_cumulative_start) / (time_elapsed as i128)
}


/// Over an interval of constant reserves, the time-weighted average of the
/// accumulator's growth is the spot price `reserve_b / reserve_a`.
pub proof fn lemma_twap_recovers_constant_price(reserve_a: int, reserve_b: int, time_elapsed: int)
    requires
        reserve_a > 0,
        reserve_b >= 0,
        time_elapsed > 0,
    ensures
        ((reserve_b * time_elapsed) / reserve_a) / time_elapsed == reserve_b / reserve_a,
{
    let q = reserve_b / reserve_a;
    let m = reserve_b % reserve_a;
    assert(reserve_b == q * reserve_a + m && 0 <= m < reserve_a) by (nonlinear_arith)
        requires q == reserve_b / reserve_a, m == reserve_b % reserve_a, reserve_a > 0;
    assert(reserve_b * time_elapsed == (q * time_elapsed) * reserve_a + m * time_elapsed) by (nonlinear_arith)
        requires reserve_b == q * reserve_a + m;
    let inner = (reserve_b * time_elapsed) / reserve_a;
    let k = (m * time_elapsed) / reserve_a;
    assert(0 <= m * time_elapsed) by (nonlinear_arith)
        requires m >= 0, time_elapsed > 0;
    assert(k < time_elapsed) by (nonlinear_arith)
        requires k == (m * time_elapsed) / reserve_a, 0 <= m < reserve_a, time_elapsed > 0, reserve_a > 0;
    assert(k >= 0) by (nonlinear_arith)
        requires k == (m * time_elapsed) / reserve_a, m * time_elapsed >= 0, reserve_a > 0;
    assert(inner == q * time_elapsed + k) by (nonlinear_arith)
        requires
            inner == (reserve_b * time_elapsed) / reserve_a,
            reserve_b * time_elapsed == (q * time_elapsed) * reserve_a + m * time_elapsed,
            k == (m * time_elapsed) / reserve_a,
            reserve_a > 0;
    assert(inner / time_elapsed == q) by (nonlinear_arith)
        requires inner == q * time_elapsed + k, 0 <= k < time_elapsed, time_elapsed > 0;
}

} // verus!
