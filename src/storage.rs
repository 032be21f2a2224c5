//! The pair's record store: three singleton slots holding the pair state,
//! the fee state and the reentrancy guard.
use vstd::prelude::*;

use crate::dynamic_fee::FeeState;
use crate::reentrancy::ReentrancyGuard;

verus! {

/// Identity of an account or contract, as issued by the hosting ledger.
#[derive(Clone, Copy, Debug, PartialEq, Eq, Structural)]
pub struct Address {
    pub id: u64,
}

/// Map key of the ordered pair of addresses `(first, second)`.
pub open spec fn address_pair_key_spec(first: Address, second: Address) -> u128 {
    (first.id * 0x1_0000_0000_0000_0000 + second.id) as u128
}

/// Computes the map key of the ordered pair `(first, second)`.
pub fn address_pair_key(first: Address, second: Address) -> (r: u128)
    ensures
        r == address_pair_key_spec(first, second),
{
    assert(first.id * 0x1_0000_0000_0000_0000 + second.id <= u128::MAX) by (nonlinear_arith)
        requires first.id <= u64::MAX, second.id <= u64::MAX;
    first.id as u128 * 0x1_0000_0000_0000_0000 + second.id as u128
}

/// Configuration, reserves and oracle accumulators of one trading pair.
#[derive(Clone, Copy, Debug, PartialEq, Eq, Structural)]
pub struct PairStorage {
    pub factory: Address,
    pub token_a: Address,
    pub token_b: Address,
    pub lp_token: Address,
    pub reserve_a: i128,
    pub reserve_b: i128,
    pub block_timestamp_last: u64,
    pub price_a_cumulative: i128,
    pub price_b_cumulative: i128,
    pub k_last: i128,
}

impl PairStorage {
    /// Non-negative reserves and accumulators, with `k_last` the product of the reserves.
    pub open spec fn wf(self) -> bool {
        &&& self.reserve_a >= 0
        &&& self.reserve_b >= 0
        &&& self.price_a_cumulative >= 0
        &&& self.price_b_cumulative >= 0
        &&& self.k_last == self.reserve_a * self.reserve_b
    }
}

/// The pair engine's store. `state` is written once by `initialize`,
/// `fee_state` is created by the first swap, and `guard` is held only while
/// a swap or flash loan runs.
#[derive(Clone, Copy, Debug, PartialEq, Eq, Structural)]
pub struct Pair {
    pub state: Option<PairStorage>,
    pub fee_state: Option<FeeState>,
    pub guard: ReentrancyGuard,
}

impl Pair {
    /// An empty store: not initialized, no fee state, unlocked.
    pub fn new() -> (r: Pair)
        ensures
            r.state is None,
            r.fee_state is None,
            !r.guard.locked,
    {
        Pair { state: None, fee_state: None, guard: ReentrancyGuard { locked: false } }
    }

    pub fn get_pair_state(&self) -> (r: Option<PairStorage>)
        ensures
            r == self.state,
    {
        self.state
    }

    pub fn set_pair_state(&mut self, state: PairStorage)
        ensures
            *final(self) == (Pair { state: Some(state), ..*old(self) }),
    {
        self.state = Some(state);
    }

    pub fn get_fee_state(&self) -> (r: Option<FeeState>)
        ensures
            r == self.fee_state,
    {
        self.fee_state
    }

    pub fn set_fee_state(&mut self, fee_state: FeeState)
        ensures
            *final(self) == (Pair { fee_state: Some(fee_state), ..*old(self) }),
    {
        self.fee_state = Some(fee_state);
    }

    pub fn get_reentrancy_guard(&self) -> (r: ReentrancyGuard)
        ensures
            r == self.guard,
    {
        self.guard
    }

    pub fn set_reentrancy_guard(&mut self, guard: ReentrancyGuard)
        ensures
            *final(self) == (Pair { guard, ..*old(self) }),
    {
        self.guard = guard;
    }
}

} // verus!
