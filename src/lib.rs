//! Settlement engine of a constant-product trading pair: dynamic fees,
//! swaps, liquidity provisioning, flash loans, a reentrancy guard and a
//! cumulative-price oracle, all over checked 128-bit integer arithmetic.
pub mod errors;
pub mod math;
pub mod dynamic_fee;
pub mod fee_decay;
pub mod oracle;
pub mod reentrancy;
pub mod swap_math;
pub mod storage;
pub mod settlement;
pub mod flash_loan;
pub mod events;
pub mod pair;
pub mod router;
pub mod lp_token;
pub mod factory;
