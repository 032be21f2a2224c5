//! Notifications the pair hands to its host after each successful operation.
use vstd::prelude::*;

use crate::storage::Address;

verus! {

/// One notification, with the amounts of the operation it reports.
#[derive(Clone, Copy, Debug, PartialEq, Eq, Structural)]
pub enum PairEvents {
    Swap {
        sender: Address,
        amount_a_in: i128,
        amount_b_in: i128,
        amount_a_out: i128,
        amount_b_out: i128,
        fee_bps: u32,
        to: Address,
    },
    Mint { sender: Address, amount_a: i128, amount_b: i128 },
    Burn { sender: Address, amount_a: i128, amount_b: i128, to: Address },
    Sync { reserve_a: i128, reserve_b: i128 },
    FlashLoan { receiver: Address, amount_a: i128, amount_b: i128, fee_a: i128, fee_b: i128 },
}

} // verus!
