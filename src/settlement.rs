//! Settlement of the pair's operations on the values the host reported:
//! reserve synchronisation, share issuance and redemption, the fee-adjusted
//! invariant check and volatility update of a swap, and the repayment checks
//! of a flash loan.
use vstd::prelude::*;

use crate::dynamic_fee::{
    compute_fee_bps, fee_bps_spec, update_volatility, volatility_inputs_valid, volatility_spec, FeeState,
};
use crate::errors::PairError;
use crate::flash_loan::{check_flash_repayment, flash_repay_spec};
use crate::math::{div_trunc, fits_i128, isqrt_spec, sqrt, MINIMUM_LIQUIDITY};
use crate::oracle::{price_deltas, price_update_fits, prices_advance, update_cumulative_prices};
use crate::storage::PairStorage;

verus! {

/// Seconds since the last update, zero if the clock did not advance.
pub open spec fn elapsed_since(last: u64, now: u64) -> int {
    if now > last { now - last } else { 0 }
}

/// The state after adopting balances `balance_a`/`balance_b` as reserves at
/// time `now`: the price accumulators advance over the old reserves, and
/// `k_last` becomes the new product. Negative balances are `InvalidInput`;
/// overflow is `Overflow`.
pub open spec fn synced_spec(st: PairStorage, balance_a: int, balance_b: int, now: u64) -> Result<PairStorage, PairError> {
    let elapsed = elapsed_since(st.block_timestamp_last, now);
    let advance = prices_advance(st.reserve_a as int, st.reserve_b as int, elapsed);
    let d = price_deltas(st.reserve_a as int, st.reserve_b as int, elapsed);
    if balance_a < 0 || balance_b < 0 {
        Err(PairError::InvalidInput)
    } else if advance && !price_update_fits(
        st.reserve_a as int,
        st.reserve_b as int,
        elapsed,
        st.price_a_cumulative as int,
        st.price_b_cumulative as int,
    ) {
        Err(PairError::Overflow)
    } else if !fits_i128(balance_a * balance_b) {
        Err(PairError::Overflow)
    } else {
        Ok(
            PairStorage {
                reserve_a: balance_a as i128,
                reserve_b: balance_b as i128,
                block_timestamp_last: now,
                price_a_cumulative: if advance {
                    (st.price_a_cumulative + d.0) as i128
                } else {
                    st.price_a_cumulative
                },
                price_b_cumulative: if advance {
                    (st.price_b_cumulative + d.1) as i128
                } else {
                    st.price_b_cumulative
                },
                k_last: (balance_a * balance_b) as i128,
                ..st
            },
        )
    }
}

proof fn lemma_price_deltas_nonneg(ra: int, rb: int, t: int)
    requires
        ra > 0,
        rb > 0,
        t > 0,
    ensures
        price_deltas(ra, rb, t).0 >= 0,
        price_deltas(ra, rb, t).1 >= 0,
{
    assert(rb * t >= 0 && ra * t >= 0) by (nonlinear_arith)
        requires ra > 0, rb > 0, t > 0;
    assert((rb * t) / ra >= 0 && (ra * t) / rb >= 0) by (nonlinear_arith)
        requires ra > 0, rb > 0, rb * t >= 0, ra * t >= 0;
}

/// Adopts the observed balances as reserves at time `now`, advancing the
/// price oracle over the previous reserves.
pub fn sync_reserves(state: &PairStorage, balance_a: i128, balance_b: i128, now: u64) -> (r: Result<PairStorage, PairError>)
    ensures
        match synced_spec(*state, balance_a as int, balance_b as int, now) {
            Ok(s) => r == Ok::<PairStorage, PairError>(s),
            Err(e) => r == Err::<PairStorage, PairError>(e),
        },
        r is Ok && state.wf() ==> r->Ok_0.wf(),
{
    if balance_a < 0 || balance_b < 0 {
        return Err(PairError::InvalidInput);
    }
    let elapsed: u64 = if now > state.block_timestamp_last { now - state.block_timestamp_last } else { 0 };
    let mut pa = state.price_a_cumulative;
    let mut pb = state.price_b_cumulative;
    match update_cumulative_prices(state.reserve_a, state.reserve_b, elapsed, &mut pa, &mut pb) {
        Ok(()) => {},
        Err(e) => return Err(e),
    }
    let k = match balance_a.checked_mul(balance_b) {
        Some(k) => k,
        None => return Err(PairError::Overflow),
    };
    proof {
        if prices_advance(state.reserve_a as int, state.reserve_b as int, elapsed as int) {
            lemma_price_deltas_nonneg(state.reserve_a as int, state.reserve_b as int, elapsed as int);
        }
    }
    Ok(PairStorage {
        reserve_a: balance_a,
        reserve_b: balance_b,
        block_timestamp_last: now,
        price_a_cumulative: pa,
        price_b_cumulative: pb,
        k_last: k,
        ..*state
    })
}

/// Shares issued for the deposit `balance - reserve` on each side, together
/// with the two deposits. An empty share supply issues
/// `isqrt(deposit_a * deposit_b) - MINIMUM_LIQUIDITY`; otherwise the smaller
/// of the two pro-rata amounts `deposit * supply / reserve`.
pub open spec fn mint_spec(st: PairStorage, balance_a: int, balance_b: int, total_supply: int) -> Result<(int, int, int), PairError> {
    let amount_a = balance_a - st.reserve_a;
    let amount_b = balance_b - st.reserve_b;
    if !fits_i128(amount_a) || !fits_i128(amount_b) {
        Err(PairError::Overflow)
    } else if total_supply == 0 {
        if !fits_i128(amount_a * amount_b) {
            Err(PairError::Overflow)
        } else {
            let liquidity = isqrt_spec(amount_a * amount_b) - MINIMUM_LIQUIDITY;
            if liquidity <= 0 {
                Err(PairError::InsufficientLiquidityMinted)
            } else {
                Ok((liquidity, amount_a, amount_b))
            }
        }
    } else if st.reserve_a <= 0 || st.reserve_b <= 0 {
        Err(PairError::InsufficientLiquidity)
    } else if !fits_i128(amount_a * total_supply) || !fits_i128(amount_b * total_supply) {
        Err(PairError::Overflow)
    } else {
        let la = div_trunc(amount_a * total_supply, st.reserve_a as int);
        let lb = div_trunc(amount_b * total_supply, st.reserve_b as int);
        let liquidity = if la < lb { la } else { lb };
        if liquidity <= 0 {
            Err(PairError::InsufficientLiquidityMinted)
        } else {
            Ok((liquidity, amount_a, amount_b))
        }
    }
}

/// Computes the shares a deposit earns; see `mint_spec`.
pub fn mint_liquidity(state: &PairStorage, balance_a: i128, balance_b: i128, total_supply: i128) -> (r: Result<(i128, i128, i128), PairError>)
    ensures
        match mint_spec(*state, balance_a as int, balance_b as int, total_supply as int) {
            Ok(t) => r is Ok && r->Ok_0.0 == t.0 && r->Ok_0.1 == t.1 && r->Ok_0.2 == t.2,
            Err(e) => r == Err::<(i128, i128, i128), PairError>(e),
        },
        r is Ok ==> r->Ok_0.0 > 0,
{
    let amount_a = match balance_a.checked_sub(state.reserve_a) {
        Some(v) => v,
        None => return Err(PairError::Overflow),
    };
    let amount_b = match balance_b.checked_sub(state.reserve_b) {
        Some(v) => v,
        None => return Err(PairError::Overflow),
    };
    let liquidity: i128;
    if total_supply == 0 {
        let p = match amount_a.checked_mul(amount_b) {
            Some(v) => v,
            None => return Err(PairError::Overflow),
        };
        let root = sqrt(p);
        liquidity = root - MINIMUM_LIQUIDITY;
    } else {
        if state.reserve_a <= 0 || state.reserve_b <= 0 {
            return Err(PairError::InsufficientLiquidity);
        }
        let pa = match amount_a.checked_mul(total_supply) {
            Some(v) => v,
            None => return Err(PairError::Overflow),
        };
        let pb = match amount_b.checked_mul(total_supply) {
            Some(v) => v,
            None => return Err(PairError::Overflow),
        };
        let la = pa / state.reserve_a;
        let lb = pb / state.reserve_b;
        liquidity = if la < lb { la } else { lb };
    }
    if liquidity <= 0 {
        return Err(PairError::InsufficientLiquidityMinted);
    }
    Ok((liquidity, amount_a, amount_b))
}

/// Underlying amounts redeemed by `share_balance` shares out of
/// `total_supply`: `share_balance * reserve / total_supply` per side.
pub open spec fn burn_spec(st: PairStorage, share_balance: int, total_supply: int) -> Result<(int, int), PairError> {
    if total_supply <= 0 {
        Err(PairError::InsufficientLiquidityBurned)
    } else if !fits_i128(share_balance * st.reserve_a) || !fits_i128(share_balance * st.reserve_b) {
        Err(PairError::Overflow)
    } else {
        let amount_a = div_trunc(share_balance * st.reserve_a, total_supply);
        let amount_b = div_trunc(share_balance * st.reserve_b, total_supply);
        if amount_a <= 0 || amount_b <= 0 {
            Err(PairError::InsufficientLiquidityBurned)
        } else if amount_a > st.reserve_a || amount_b > st.reserve_b {
            Err(PairError::InsufficientLiquidity)
        } else {
            Ok((amount_a, amount_b))
        }
    }
}

/// Computes what redeeming the pair's share holdings pays out; see `burn_spec`.
pub fn burn_amounts(state: &PairStorage, share_balance: i128, total_supply: i128) -> (r: Result<(i128, i128), PairError>)
    ensures
        match burn_spec(*state, share_balance as int, total_supply as int) {
            Ok(t) => r is Ok && r->Ok_0.0 == t.0 && r->Ok_0.1 == t.1,
            Err(e) => r == Err::<(i128, i128), PairError>(e),
        },
        r is Ok ==> 0 < r->Ok_0.0 <= state.reserve_a && 0 < r->Ok_0.1 <= state.reserve_b,
{
    if total_supply <= 0 {
        return Err(PairError::InsufficientLiquidityBurned);
    }
    let pa = match share_balance.checked_mul(state.reserve_a) {
        Some(v) => v,
        None => return Err(PairError::Overflow),
    };
    let pb = match share_balance.checked_mul(state.reserve_b) {
        Some(v) => v,
        None => return Err(PairError::Overflow),
    };
    let amount_a = pa / total_supply;
    let amount_b = pb / total_supply;
    if amount_a <= 0 || amount_b <= 0 {
        return Err(PairError::InsufficientLiquidityBurned);
    }
    if amount_a > state.reserve_a || amount_b > state.reserve_b {
        return Err(PairError::InsufficientLiquidity);
    }
    Ok((amount_a, amount_b))
}

/// Input inferred on one side of a swap: how far the balance exceeds the
/// reserve left after paying `out`, floored at zero.
pub open spec fn amount_in_spec(reserve: int, out: int, balance: int) -> int {
    let d = balance - (reserve - out);
    if d > 0 { d } else { 0 }
}

/// Outcome of a swap's settlement check on the balances observed after the
/// optimistic transfers: the two inferred inputs, or the first failure.
/// Each fee-adjusted balance is `balance * 10000 - amount_in * fee_bps`, and
/// their product must reach `reserve_a * reserve_b * 10000^2`.
pub open spec fn swap_check_spec(
    st: PairStorage,
    fee_bps: int,
    amount_a_out: int,
    amount_b_out: int,
    balance_a: int,
    balance_b: int,
) -> Result<(int, int), PairError> {
    let base_a = st.reserve_a - amount_a_out;
    let base_b = st.reserve_b - amount_b_out;
    let da = balance_a - base_a;
    let db = balance_b - base_b;
    let ain = amount_in_spec(st.reserve_a as int, amount_a_out, balance_a);
    let bin = amount_in_spec(st.reserve_b as int, amount_b_out, balance_b);
    let adj_a = balance_a * 10000 - ain * fee_bps;
    let adj_b = balance_b * 10000 - bin * fee_bps;
    let k0 = st.reserve_a * st.reserve_b;
    if !fits_i128(base_a) || !fits_i128(base_b) || !fits_i128(da) || !fits_i128(db) {
        Err(PairError::Overflow)
    } else if ain <= 0 && bin <= 0 {
        Err(PairError::InsufficientInputAmount)
    } else if !fits_i128(balance_a * 10000) || !fits_i128(ain * fee_bps) || !fits_i128(adj_a)
        || !fits_i128(balance_b * 10000) || !fits_i128(bin * fee_bps) || !fits_i128(adj_b) {
        Err(PairError::Overflow)
    } else if adj_a <= 0 || adj_b <= 0 {
        Err(PairError::InsufficientOutputAmount)
    } else if !fits_i128(k0) || !fits_i128(k0 * 100_000_000) || !fits_i128(adj_a * adj_b) {
        Err(PairError::Overflow)
    } else if adj_a * adj_b < k0 * 100_000_000 {
        Err(PairError::InvalidK)
    } else {
        Ok((ain, bin))
    }
}

proof fn lemma_adjusted_product_bounds_k(ra: int, rb: int, ba: int, bb: int, adj_a: int, adj_b: int)
    requires
        0 < adj_a <= ba * 10000,
        0 < adj_b <= bb * 10000,
        adj_a * adj_b >= ra * rb * 100_000_000,
    ensures
        ba * bb >= ra * rb,
{
    assert(adj_a * adj_b <= (ba * 10000) * (bb * 10000)) by (nonlinear_arith)
        requires 0 < adj_a <= ba * 10000, 0 < adj_b <= bb * 10000;
    assert((ba * 10000) * (bb * 10000) == ba * bb * 100_000_000) by (nonlinear_arith);
    assert(ba * bb >= ra * rb) by (nonlinear_arith)
        requires ba * bb * 100_000_000 >= ra * rb * 100_000_000;
}

/// Checks a swap's observed balances against the fee-adjusted invariant and
/// returns the inferred inputs; see `swap_check_spec`. A passing check never
/// lets the plain product of the balances fall below that of the reserves.
pub fn swap_amounts_in(
    state: &PairStorage,
    fee_bps: u32,
    amount_a_out: i128,
    amount_b_out: i128,
    balance_a: i128,
    balance_b: i128,
) -> (r: Result<(i128, i128), PairError>)
    ensures
        match swap_check_spec(*state, fee_bps as int, amount_a_out as int, amount_b_out as int, balance_a as int, balance_b as int) {
            Ok(t) => r is Ok && r->Ok_0.0 == t.0 && r->Ok_0.1 == t.1,
            Err(e) => r == Err::<(i128, i128), PairError>(e),
        },
        r is Ok ==> balance_a * balance_b >= state.reserve_a * state.reserve_b,
        r is Ok ==> r->Ok_0.0 > 0 || r->Ok_0.1 > 0,
        r is Ok ==> r->Ok_0.0 >= 0 && r->Ok_0.1 >= 0,
{
    let base_a = match state.reserve_a.checked_sub(amount_a_out) {
        Some(v) => v,
        None => return Err(PairError::Overflow),
    };
    let base_b = match state.reserve_b.checked_sub(amount_b_out) {
        Some(v) => v,
        None => return Err(PairError::Overflow),
    };
    let da = match balance_a.checked_sub(base_a) {
        Some(v) => v,
        None => return Err(PairError::Overflow),
    };
    let db = match balance_b.checked_sub(base_b) {
        Some(v) => v,
        None => return Err(PairError::Overflow),
    };
    let amount_a_in: i128 = if da > 0 { da } else { 0 };
    let amount_b_in: i128 = if db > 0 { db } else { 0 };
    if amount_a_in <= 0 && amount_b_in <= 0 {
        return Err(PairError::InsufficientInputAmount);
    }
    let fee = fee_bps as i128;
    let sa = match balance_a.checked_mul(10000) {
        Some(v) => v,
        None => return Err(PairError::Overflow),
    };
    let fa = match amount_a_in.checked_mul(fee) {
        Some(v) => v,
        None => return Err(PairError::Overflow),
    };
    let adj_a = match sa.checked_sub(fa) {
        Some(v) => v,
        None => return Err(PairError::Overflow),
    };
    let sb = match balance_b.checked_mul(10000) {
        Some(v) => v,
        None => return Err(PairError::Overflow),
    };
    let fb = match amount_b_in.checked_mul(fee) {
        Some(v) => v,
        None => return Err(PairError::Overflow),
    };
    let adj_b = match sb.checked_sub(fb) {
        Some(v) => v,
        None => return Err(PairError::Overflow),
    };
    if adj_a <= 0 || adj_b <= 0 {
        return Err(PairError::InsufficientOutputAmount);
    }
    let k0 = match state.reserve_a.checked_mul(state.reserve_b) {
        Some(v) => v,
        None => return Err(PairError::Overflow),
    };
    let k_before = match k0.checked_mul(100_000_000) {
        Some(v) => v,
        None => return Err(PairError::Overflow),
    };
    let k_after = match adj_a.checked_mul(adj_b) {
        Some(v) => v,
        None => return Err(PairError::Overflow),
    };
    if k_after < k_before {
        return Err(PairError::InvalidK);
    }
    proof {
        assert(fa >= 0) by (nonlinear_arith)
            requires fa == amount_a_in * fee, amount_a_in >= 0, fee >= 0;
        assert(fb >= 0) by (nonlinear_arith)
            requires fb == amount_b_in * fee, amount_b_in >= 0, fee >= 0;
        lemma_adjusted_product_bounds_k(
            state.reserve_a as int,
            state.reserve_b as int,
            balance_a as int,
            balance_b as int,
            adj_a as int,
            adj_b as int,
        );
    }
    Ok((amount_a_in, amount_b_in))
}

/// Price of token a in units of b, times 10000, for the given reserves;
/// zero when the a-side is empty; nothing on overflow.
pub open spec fn scaled_price_spec(reserve_a: int, reserve_b: int) -> Option<int> {
    if reserve_a <= 0 {
        Some(0)
    } else if !fits_i128(reserve_b * 10000) {
        None
    } else {
        Some(div_trunc(reserve_b * 10000, reserve_a))
    }
}

/// `x + y` saturated to the `i128` range.
pub open spec fn saturating_add_spec(x: int, y: int) -> int {
    if x + y > i128::MAX {
        i128::MAX as int
    } else if x + y < i128::MIN {
        i128::MIN as int
    } else {
        x + y
    }
}

/// The observation a swap feeds to the volatility EMA: the absolute change of
/// the scaled price between the reserves and the new balances, and the pool
/// size (saturated sum of the reserves).
pub open spec fn price_shift_spec(st: PairStorage, balance_a: int, balance_b: int) -> Result<(int, int), PairError> {
    match (scaled_price_spec(st.reserve_a as int, st.reserve_b as int), scaled_price_spec(balance_a, balance_b)) {
        (Some(old_price), Some(new_price)) => {
            let d = new_price - old_price;
            let delta = if d >= 0 { d } else { -d };
            if !fits_i128(d) || !fits_i128(delta) {
                Err(PairError::Overflow)
            } else {
                Ok((delta, saturating_add_spec(st.reserve_a as int, st.reserve_b as int)))
            }
        },
        _ => Err(PairError::Overflow),
    }
}

fn scaled_price(reserve_a: i128, reserve_b: i128) -> (r: Option<i128>)
    ensures
        match scaled_price_spec(reserve_a as int, reserve_b as int) {
            Some(p) => r == Some(p as i128),
            None => r is None,
        },
{
    if reserve_a <= 0 {
        return Some(0);
    }
    match reserve_b.checked_mul(10000) {
        Some(v) => v.checked_div(reserve_a),
        None => None,
    }
}

/// Computes the swap's price observation; see `price_shift_spec`.
pub fn price_shift(state: &PairStorage, balance_a: i128, balance_b: i128) -> (r: Result<(i128, i128), PairError>)
    ensures
        match price_shift_spec(*state, balance_a as int, balance_b as int) {
            Ok(t) => r is Ok && r->Ok_0.0 == t.0 && r->Ok_0.1 == t.1,
            Err(e) => r == Err::<(i128, i128), PairError>(e),
        },
        r is Ok ==> r->Ok_0.0 >= 0,
{
    let old_price = match scaled_price(state.reserve_a, state.reserve_b) {
        Some(p) => p,
        None => return Err(PairError::Overflow),
    };
    let new_price = match scaled_price(balance_a, balance_b) {
        Some(p) => p,
        None => return Err(PairError::Overflow),
    };
    let d = match new_price.checked_sub(old_price) {
        Some(v) => v,
        None => return Err(PairError::Overflow),
    };
    let delta = if d >= 0 {
        d
    } else {
        match 0i128.checked_sub(d) {
            Some(v) => v,
            None => return Err(PairError::Overflow),
        }
    };
    let total = match state.reserve_a.checked_add(state.reserve_b) {
        Some(t) => t,
        None => if state.reserve_a > 0 { i128::MAX } else { i128::MIN },
    };
    Ok((delta, total))
}

/// Outcome of settling a swap on the balances observed after the optimistic
/// transfers: the new pair state, the fee state after the volatility update,
/// and the two inferred inputs. `fee_state` is the already decayed fee state,
/// which prices the swap at `fee_bps_spec(fee_state)`.
pub open spec fn swap_settle_spec(
    st: PairStorage,
    fee_state: FeeState,
    amount_a_out: int,
    amount_b_out: int,
    balance_a: int,
    balance_b: int,
    current_sequence: u64,
    now: u64,
) -> Result<(PairStorage, FeeState, int, int), PairError> {
    match swap_check_spec(st, fee_bps_spec(fee_state), amount_a_out, amount_b_out, balance_a, balance_b) {
        Err(e) => Err(e),
        Ok(inputs) => match price_shift_spec(st, balance_a, balance_b) {
            Err(e) => Err(e),
            Ok(shift) => {
                let trade_size = if inputs.0 > inputs.1 { inputs.0 } else { inputs.1 };
                if !volatility_inputs_valid(shift.0, trade_size, shift.1) {
                    Err(PairError::InvalidInput)
                } else {
                    match volatility_spec(fee_state, shift.0, trade_size, shift.1) {
                        None => Err(PairError::Overflow),
                        Some(v) => match synced_spec(st, balance_a, balance_b, now) {
                            Err(e) => Err(e),
                            Ok(next) => Ok(
                                (
                                    next,
                                    FeeState {
                                        vol_accumulator: v as i128,
                                        last_fee_update: current_sequence,
                                        ..fee_state
                                    },
                                    inputs.0,
                                    inputs.1,
                                ),
                            ),
                        },
                    }
                }
            },
        },
    }
}

/// Settles a swap on the observed balances; see `swap_settle_spec`. Also
/// returns the fee charged, `fee_bps_spec(fee_state)`.
pub fn settle_swap(
    state: &PairStorage,
    fee_state: &FeeState,
    amount_a_out: i128,
    amount_b_out: i128,
    balance_a: i128,
    balance_b: i128,
    current_sequence: u64,
    now: u64,
) -> (r: Result<(PairStorage, FeeState, i128, i128, u32), PairError>)
    ensures
        match swap_settle_spec(*state, *fee_state, amount_a_out as int, amount_b_out as int, balance_a as int, balance_b as int, current_sequence, now) {
            Ok(t) => r is Ok && r->Ok_0.0 == t.0 && r->Ok_0.1 == t.1 && r->Ok_0.2 == t.2 && r->Ok_0.3 == t.3
                && r->Ok_0.4 == fee_bps_spec(*fee_state),
            Err(e) => r == Err::<(PairStorage, FeeState, i128, i128, u32), PairError>(e),
        },
        r is Ok ==> r->Ok_0.0.reserve_a * r->Ok_0.0.reserve_b >= state.reserve_a * state.reserve_b,
        r is Ok && state.wf() ==> r->Ok_0.0.wf(),
{
    let fee_bps = compute_fee_bps(fee_state);
    let (amount_a_in, amount_b_in) = match swap_amounts_in(state, fee_bps, amount_a_out, amount_b_out, balance_a, balance_b) {
        Ok(t) => t,
        Err(e) => return Err(e),
    };
    let (price_delta, total_reserve) = match price_shift(state, balance_a, balance_b) {
        Ok(t) => t,
        Err(e) => return Err(e),
    };
    let trade_size = if amount_a_in > amount_b_in { amount_a_in } else { amount_b_in };
    let mut fs = *fee_state;
    match update_volatility(&mut fs, price_delta, trade_size, total_reserve, current_sequence) {
        Ok(()) => {},
        Err(e) => return Err(e),
    }
    let next = match sync_reserves(state, balance_a, balance_b, now) {
        Ok(s) => s,
        Err(e) => return Err(e),
    };
    Ok((next, fs, amount_a_in, amount_b_in, fee_bps))
}

/// Outcome of settling a flash loan on the balances left after the callback:
/// the repayment checks, then the synchronised state.
pub open spec fn flash_settle_spec(
    st: PairStorage,
    amount_a: int,
    amount_b: int,
    fee_a: int,
    fee_b: int,
    balance_a: int,
    balance_b: int,
    now: u64,
) -> Result<PairStorage, PairError> {
    match flash_repay_spec(st, amount_a, amount_b, fee_a, fee_b, balance_a, balance_b) {
        Err(e) => Err(e),
        Ok(()) => synced_spec(st, balance_a, balance_b, now),
    }
}

/// Settles a flash loan on the post-callback balances; see `flash_settle_spec`.
pub fn settle_flash_loan(
    state: &PairStorage,
    amount_a: i128,
    amount_b: i128,
    fee_a: i128,
    fee_b: i128,
    balance_a: i128,
    balance_b: i128,
    now: u64,
) -> (r: Result<PairStorage, PairError>)
    requires
        fits_i128(state.reserve_a * state.reserve_b),
    ensures
        match flash_settle_spec(*state, amount_a as int, amount_b as int, fee_a as int, fee_b as int, balance_a as int, balance_b as int, now) {
            Ok(s) => r == Ok::<PairStorage, PairError>(s),
            Err(e) => r == Err::<PairStorage, PairError>(e),
        },
        r is Ok && state.wf() ==> r->Ok_0.wf(),
{
    match check_flash_repayment(state, amount_a, amount_b, fee_a, fee_b, balance_a, balance_b) {
        Ok(()) => {},
        Err(e) => return Err(e),
    }
    sync_reserves(state, balance_a, balance_b, now)
}

/// Outcome of settling a deposit: the shares issued (with the two deposits)
/// and the state synchronised to the new balances.
pub open spec fn mint_settle_spec(st: PairStorage, balance_a: int, balance_b: int, total_supply: int, now: u64) -> Result<(PairStorage, int, int, int), PairError> {
    match mint_spec(st, balance_a, balance_b, total_supply) {
        Err(e) => Err(e),
        Ok(t) => match synced_spec(st, balance_a, balance_b, now) {
            Err(e) => Err(e),
            Ok(next) => Ok((next, t.0, t.1, t.2)),
        },
    }
}

/// Settles a deposit on the observed balances and share supply; see `mint_settle_spec`.
pub fn settle_mint(state: &PairStorage, balance_a: i128, balance_b: i128, total_supply: i128, now: u64) -> (r: Result<(PairStorage, i128, i128, i128), PairError>)
    ensures
        match mint_settle_spec(*state, balance_a as int, balance_b as int, total_supply as int, now) {
            Ok(t) => r is Ok && r->Ok_0.0 == t.0 && r->Ok_0.1 == t.1 && r->Ok_0.2 == t.2 && r->Ok_0.3 == t.3,
            Err(e) => r == Err::<(PairStorage, i128, i128, i128), PairError>(e),
        },
        r is Ok ==> r->Ok_0.1 > 0,
        r is Ok && state.wf() ==> r->Ok_0.0.wf(),
{
    let (liquidity, amount_a, amount_b) = match mint_liquidity(state, balance_a, balance_b, total_supply) {
        Ok(t) => t,
        Err(e) => return Err(e),
    };
    let next = match sync_reserves(state, balance_a, balance_b, now) {
        Ok(s) => s,
        Err(e) => return Err(e),
    };
    Ok((next, liquidity, amount_a, amount_b))
}

/// Outcome of settling a redemption: the amounts paid out and the state with
/// the reserves reduced by them.
pub open spec fn burn_settle_spec(st: PairStorage, share_balance: int, total_supply: int, now: u64) -> Result<(PairStorage, int, int), PairError> {
    match burn_spec(st, share_balance, total_supply) {
        Err(e) => Err(e),
        Ok(t) => match synced_spec(st, st.reserve_a - t.0, st.reserve_b - t.1, now) {
            Err(e) => Err(e),
            Ok(next) => Ok((next, t.0, t.1)),
        },
    }
}

/// Settles a redemption of `share_balance` shares; see `burn_settle_spec`.
pub fn settle_burn(state: &PairStorage, share_balance: i128, total_supply: i128, now: u64) -> (r: Result<(PairStorage, i128, i128), PairError>)
    ensures
        match burn_settle_spec(*state, share_balance as int, total_supply as int, now) {
            Ok(t) => r is Ok && r->Ok_0.0 == t.0 && r->Ok_0.1 == t.1 && r->Ok_0.2 == t.2,
            Err(e) => r == Err::<(PairStorage, i128, i128), PairError>(e),
        },
        r is Ok ==> 0 < r->Ok_0.1 <= state.reserve_a && 0 < r->Ok_0.2 <= state.reserve_b,
        r is Ok ==> r->Ok_0.0.reserve_a == state.reserve_a - r->Ok_0.1 && r->Ok_0.0.reserve_b == state.reserve_b - r->Ok_0.2,
        r is Ok && state.wf() ==> r->Ok_0.0.wf(),
{
    let (amount_a, amount_b) = match burn_amounts(state, share_balance, total_supply) {
        Ok(t) => t,
        Err(e) => return Err(e),
    };
    let next = match sync_reserves(state, state.reserve_a - amount_a, state.reserve_b - amount_b, now) {
        Ok(s) => s,
        Err(e) => return Err(e),
    };
    Ok((next, amount_a, amount_b))
}

} // verus!
