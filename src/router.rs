//! Router-side quoting and the checks of a liquidity withdrawal.
use vstd::prelude::*;

use crate::errors::RouterError;
use crate::math::{div_trunc, fits_i128};
use crate::storage::Address;

verus! {

/// What the router's `get_amount_out` returns:
/// `amount_in * (10000 - fee) * reserve_out / (reserve_in * 10000 + amount_in * (10000 - fee))`,
/// with `ExcessiveInputAmount` for a step outside the `i128` range.
pub open spec fn router_amount_out_spec(amount_in: int, reserve_in: int, reserve_out: int, fee_bps: int) -> Result<int, RouterError> {
    let with_fee = amount_in * (10000 - fee_bps);
    let numerator = with_fee * reserve_out;
    let scaled_in = reserve_in * 10000;
    let denominator = scaled_in + with_fee;
    if !fits_i128(with_fee) || !fits_i128(numerator) || !fits_i128(scaled_in) || !fits_i128(denominator) {
        Err(RouterError::ExcessiveInputAmount)
    } else if denominator == 0 {
        Err(RouterError::InsufficientLiquidity)
    } else if !fits_i128(div_trunc(numerator, denominator)) {
        Err(RouterError::ExcessiveInputAmount)
    } else if div_trunc(numerator, denominator) <= 0 {
        Err(RouterError::InsufficientOutputAmount)
    } else {
        Ok(div_trunc(numerator, denominator))
    }
}

/// Output of an exact-input swap, as quoted by the router.
pub fn get_amount_out(amount_in: i128, reserve_in: i128, reserve_out: i128, fee_bps: u32) -> (r: Result<i128, RouterError>)
    ensures
        match router_amount_out_spec(amount_in as int, reserve_in as int, reserve_out as int, fee_bps as int) {
            Ok(v) => r == Ok::<i128, RouterError>(v as i128),
            Err(e) => r == Err::<i128, RouterError>(e),
        },
{
    let fee_factor: i128 = 10000 - fee_bps as i128;
    let with_fee = match amount_in.checked_mul(fee_factor) {
        Some(v) => v,
        None => return Err(RouterError::ExcessiveInputAmount),
    };
    let numerator = match with_fee.checked_mul(reserve_out) {
        Some(v) => v,
        None => return Err(RouterError::ExcessiveInputAmount),
    };
    let scaled_in = match reserve_in.checked_mul(10000) {
        Some(v) => v,
        None => return Err(RouterError::ExcessiveInputAmount),
    };
    let denominator = match scaled_in.checked_add(with_fee) {
        Some(v) => v,
        None => return Err(RouterError::ExcessiveInputAmount),
    };
    if denominator == 0 {
        return Err(RouterError::InsufficientLiquidity);
    }
    let amount_out = match numerator.checked_div(denominator) {
        Some(v) => v,
        None => return Err(RouterError::ExcessiveInputAmount),
    };
    if amount_out <= 0 {
        return Err(RouterError::InsufficientOutputAmount);
    }
    Ok(amount_out)
}

/// What `get_amount_in` returns:
/// `reserve_in * amount_out * 10000 / ((reserve_out - amount_out) * (10000 - fee)) + 1`,
/// with `ExcessiveInputAmount` for a step outside the `i128` range.
pub open spec fn amount_in_quote_spec(amount_out: int, reserve_in: int, reserve_out: int, fee_bps: int) -> Result<int, RouterError> {
    let p = reserve_in * amount_out;
    let numerator = p * 10000;
    let remaining = reserve_out - amount_out;
    let denominator = remaining * (10000 - fee_bps);
    if !fits_i128(p) || !fits_i128(numerator) || !fits_i128(remaining) || !fits_i128(denominator) {
        Err(RouterError::ExcessiveInputAmount)
    } else if denominator == 0 {
        Err(RouterError::InsufficientLiquidity)
    } else if !fits_i128(div_trunc(numerator, denominator)) || !fits_i128(div_trunc(numerator, denominator) + 1) {
        Err(RouterError::ExcessiveInputAmount)
    } else {
        Ok(div_trunc(numerator, denominator) + 1)
    }
}

/// Input needed for an exact-output swap, rounded up.
pub fn get_amount_in(amount_out: i128, reserve_in: i128, reserve_out: i128, fee_bps: u32) -> (r: Result<i128, RouterError>)
    ensures
        match amount_in_quote_spec(amount_out as int, reserve_in as int, reserve_out as int, fee_bps as int) {
            Ok(v) => r == Ok::<i128, RouterError>(v as i128),
            Err(e) => r == Err::<i128, RouterError>(e),
        },
{
    let p = match reserve_in.checked_mul(amount_out) {
        Some(v) => v,
        None => return Err(RouterError::ExcessiveInputAmount),
    };
    let numerator = match p.checked_mul(10000) {
        Some(v) => v,
        None => return Err(RouterError::ExcessiveInputAmount),
    };
    let remaining = match reserve_out.checked_sub(amount_out) {
        Some(v) => v,
        None => return Err(RouterError::ExcessiveInputAmount),
    };
    let fee_factor: i128 = 10000 - fee_bps as i128;
    let denominator = match remaining.checked_mul(fee_factor) {
        Some(v) => v,
        None => return Err(RouterError::ExcessiveInputAmount),
    };
    if denominator == 0 {
        return Err(RouterError::InsufficientLiquidity);
    }
    let q = match numerator.checked_div(denominator) {
        Some(v) => v,
        None => return Err(RouterError::ExcessiveInputAmount),
    };
    match q.checked_add(1) {
        Some(v) => Ok(v),
        None => Err(RouterError::ExcessiveInputAmount),
    }
}

/// What the router needs from its environment; calls may return anything.
pub trait RouterHost {
    /// Ledger time, in seconds.
    fn timestamp(&self) -> u64;

    /// The pair the factory registered for the two tokens, if any.
    fn factory_get_pair(&self, factory: Address, token_a: Address, token_b: Address) -> Option<Address>;

    /// The share token of `pair`.
    fn pair_lp_token(&self, pair: Address) -> Address;

    /// Moves `amount` of `token` from `from` to `to`.
    fn token_transfer(&mut self, token: Address, from: Address, to: Address, amount: i128);

    /// Redeems the shares `pair` holds, paying `to`; returns the two amounts.
    fn pair_burn(&mut self, pair: Address, to: Address) -> (i128, i128);
}

/// The first failure among the request checks of a withdrawal, if any.
pub open spec fn withdrawal_check_spec(
    now: u64,
    deadline: u64,
    liquidity: i128,
    token_a: Address,
    token_b: Address,
) -> Option<RouterError> {
    if now > deadline {
        Some(RouterError::Expired)
    } else if liquidity <= 0 {
        Some(RouterError::ZeroAmount)
    } else if token_a == token_b {
        Some(RouterError::IdenticalTokens)
    } else {
        None
    }
}

/// Rejects an expired, empty or self-paired withdrawal request.
pub fn check_withdrawal_request(
    now: u64,
    deadline: u64,
    liquidity: i128,
    token_a: Address,
    token_b: Address,
) -> (r: Result<(), RouterError>)
    ensures
        match withdrawal_check_spec(now, deadline, liquidity, token_a, token_b) {
            Some(e) => r == Err::<(), RouterError>(e),
            None => r is Ok,
        },
{
    if now > deadline {
        return Err(RouterError::Expired);
    }
    if liquidity <= 0 {
        return Err(RouterError::ZeroAmount);
    }
    if token_a == token_b {
        return Err(RouterError::IdenticalTokens);
    }
    Ok(())
}

/// Accepts the redeemed amounts only if each reaches its minimum.
pub fn check_min_amounts(amount_a: i128, amount_b: i128, amount_a_min: i128, amount_b_min: i128) -> (r: Result<
    (i128, i128),
    RouterError,
>)
    ensures
        amount_a < amount_a_min || amount_b < amount_b_min ==> r == Err::<(i128, i128), RouterError>(
            RouterError::InsufficientOutputAmount,
        ),
        amount_a >= amount_a_min && amount_b >= amount_b_min ==> r == Ok::<(i128, i128), RouterError>(
            (amount_a, amount_b),
        ),
{
    if amount_a < amount_a_min || amount_b < amount_b_min {
        return Err(RouterError::InsufficientOutputAmount);
    }
    Ok((amount_a, amount_b))
}

/// The router's configuration: the factory it resolves pairs through.
#[derive(Clone, Copy, Debug, PartialEq, Eq, Structural)]
pub struct Router {
    pub factory: Option<Address>,
}

impl Router {
    /// A router with no factory configured.
    pub fn new() -> (r: Router)
        ensures
            r.factory is None,
    {
        Router { factory: None }
    }

    /// Sets the factory used to resolve pairs.
    pub fn initialize(&mut self, factory: Address)
        ensures
            final(self).factory == Some(factory),
    {
        self.factory = Some(factory);
    }

    /// Withdraws liquidity: moves `liquidity` shares from `to` to the pair,
    /// redeems them there, and requires each redeemed amount to reach its
    /// minimum.
    pub fn remove_liquidity<H: RouterHost>(
        &self,
        host: &mut H,
        token_a: Address,
        token_b: Address,
        liquidity: i128,
        amount_a_min: i128,
        amount_b_min: i128,
        to: Address,
        deadline: u64,
    ) -> (r: Result<(i128, i128), RouterError>)
        ensures
            liquidity <= 0 ==> r == Err::<(i128, i128), RouterError>(RouterError::Expired) || r == Err::<
                (i128, i128),
                RouterError,
            >(RouterError::ZeroAmount),
            liquidity > 0 && token_a == token_b ==> r == Err::<(i128, i128), RouterError>(RouterError::Expired)
                || r == Err::<(i128, i128), RouterError>(RouterError::IdenticalTokens),
            liquidity > 0 && token_a != token_b && self.factory is None ==> r == Err::<(i128, i128), RouterError>(
                RouterError::Expired,
            ) || r == Err::<(i128, i128), RouterError>(RouterError::PairNotFound),
            r is Ok ==> r->Ok_0.0 >= amount_a_min && r->Ok_0.1 >= amount_b_min,
    {
        let now = host.timestamp();
        match check_withdrawal_request(now, deadline, liquidity, token_a, token_b) {
            Ok(()) => {},
            Err(e) => return Err(e),
        }
        let factory = match self.factory {
            Some(f) => f,
            None => return Err(RouterError::PairNotFound),
        };
        let pair = match host.factory_get_pair(factory, token_a, token_b) {
            Some(p) => p,
            None => return Err(RouterError::PairNotFound),
        };
        let lp_token = host.pair_lp_token(pair);
        host.token_transfer(lp_token, to, pair, liquidity);
        let (amount_a, amount_b) = host.pair_burn(pair, to);
        check_min_amounts(amount_a, amount_b, amount_a_min, amount_b_min)
    }
}

} // verus!
