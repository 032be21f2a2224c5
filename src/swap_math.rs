//! Constant-product quoting: the output of an exact-input swap and the
//! invariant before and after it.
use vstd::prelude::*;

use crate::errors::PairError;
use crate::math::{div_trunc, fits_i128};

verus! {

/// What `get_amount_out` returns:
/// `amount_in * (10000 - fee) * reserve_out / (reserve_in * 10000 + amount_in * (10000 - fee))`,
/// after the input checks, with `Overflow` for any step outside the `i128` range.
pub open spec fn amount_out_spec(amount_in: int, reserve_in: int, reserve_out: int, fee_bps: int) -> Result<int, PairError> {
    let with_fee = amount_in * (10000 - fee_bps);
    let numerator = with_fee * reserve_out;
    let scaled_in = reserve_in * 10000;
    let denominator = scaled_in + with_fee;
    if amount_in <= 0 {
        Err(PairError::InsufficientInputAmount)
    } else if reserve_in <= 0 || reserve_out <= 0 {
        Err(PairError::InsufficientLiquidity)
    } else if !fits_i128(with_fee) || !fits_i128(numerator) || !fits_i128(scaled_in) || !fits_i128(
        denominator,
    ) {
        Err(PairError::Overflow)
    } else if denominator == 0 {
        Err(PairError::InsufficientLiquidity)
    } else if !fits_i128(div_trunc(numerator, denominator)) {
        Err(PairError::Overflow)
    } else if div_trunc(numerator, denominator) <= 0 {
        Err(PairError::InsufficientOutputAmount)
    } else {
        Ok(div_trunc(numerator, denominator))
    }
}

/// Output of an exact-input swap against reserves `reserve_in`/`reserve_out`
/// charging `fee_bps` basis points on the input.
pub fn get_amount_out(amount_in: i128, reserve_in: i128, reserve_out: i128, fee_bps: u32) -> (r: Result<i128, PairError>)
    ensures
        match amount_out_spec(amount_in as int, reserve_in as int, reserve_out as int, fee_bps as int) {
            Ok(v) => r == Ok::<i128, PairError>(v as i128),
            Err(e) => r == Err::<i128, PairError>(e),
        },
{
    if amount_in <= 0 {
        return Err(PairError::InsufficientInputAmount);
    }
    if reserve_in <= 0 || reserve_out <= 0 {
        return Err(PairError::InsufficientLiquidity);
    }
    let fee_factor: i128 = 10000 - fee_bps as i128;
    let with_fee = match amount_in.checked_mul(fee_factor) {
        Some(v) => v,
        None => return Err(PairError::Overflow),
    };
    let numerator = match with_fee.checked_mul(reserve_out) {
        Some(v) => v,
        None => return Err(PairError::Overflow),
    };
    let scaled_in = match reserve_in.checked_mul(10000) {
        Some(v) => v,
        None => return Err(PairError::Overflow),
    };
    let denominator = match scaled_in.checked_add(with_fee) {
        Some(v) => v,
        None => return Err(PairError::Overflow),
    };
    if denominator == 0 {
        return Err(PairError::InsufficientLiquidity);
    }
    let amount_out = match numerator.checked_div(denominator) {
        Some(v) => v,
        None => return Err(PairError::Overflow),
    };
    if amount_out <= 0 {
        return Err(PairError::InsufficientOutputAmount);
    }
    Ok(amount_out)
}

/// The invariant before and after a swap: `(reserve_in * reserve_out,
/// (reserve_in + amount_in) * (reserve_out - amount_out))`.
pub fn k_after_swap(reserve_in: i128, reserve_out: i128, amount_in: i128, amount_out: i128) -> (r: (i128, i128))
    requires
        fits_i128(reserve_in * reserve_out),
        fits_i128(reserve_in + amount_in),
        fits_i128(reserve_out - amount_out),
        fits_i128((reserve_in + amount_in) * (reserve_out - amount_out)),
    ensures
        r.0 == reserve_in * reserve_out,
        r.1 == (reserve_in + amount_in) * (reserve_out - amount_out),
{
    let k_before = reserve_in * reserve_out;
    let k_after = (reserve_in + amount_in) * (reserve_out - amount_out);
    (k_before, k_after)
}

/// A quoted swap never lowers the invariant: with a fee between zero and the
/// whole input, the reserves after paying out the quoted amount keep a
/// product at least as large as before.
pub proof fn lemma_quote_keeps_k(amount_in: int, reserve_in: int, reserve_out: int, fee_bps: int)
    requires
        0 <= fee_bps <= 10000,
        amount_out_spec(amount_in, reserve_in, reserve_out, fee_bps) is Ok,
    ensures
        (reserve_in + amount_in) * (reserve_out - amount_out_spec(amount_in, reserve_in, reserve_out, fee_bps)->Ok_0)
            >= reserve_in * reserve_out,
{
    let out = amount_out_spec(amount_in, reserve_in, reserve_out, fee_bps)->Ok_0;
    let f = amount_in * (10000 - fee_bps);
    let num = f * reserve_out;
    let den = reserve_in * 10000 + f;
    assert(f >= 0) by (nonlinear_arith)
        requires amount_in > 0, 10000 - fee_bps >= 0, f == amount_in * (10000 - fee_bps);
    assert(num >= 0) by (nonlinear_arith)
        requires f >= 0, reserve_out > 0, num == f * reserve_out;
    assert(den > 0) by (nonlinear_arith)
        requires reserve_in > 0, f >= 0, den == reserve_in * 10000 + f;
    assert(out == num / den);
    assert(out * den <= num) by (nonlinear_arith)
        requires out == num / den, den > 0, num >= 0;
    assert(f <= amount_in * 10000) by (nonlinear_arith)
        requires amount_in > 0, fee_bps >= 0, f == amount_in * (10000 - fee_bps);
    // out * (reserve_in * 10000 + f) <= f * reserve_out
    // => (reserve_in + amount_in) * (reserve_out - out) * 10000 >= reserve_in * reserve_out * 10000
    assert((reserve_in + amount_in) * (reserve_out - out) >= reserve_in * reserve_out) by (nonlinear_arith)
        requires
            out * den <= num,
            den == reserve_in * 10000 + f,
            num == f * reserve_out,
            0 <= f <= amount_in * 10000,
            out > 0,
            reserve_in > 0,
            reserve_out > 0,
            amount_in > 0,
    ;
}

} // verus!
