//! An automated market maker that trades a chain's native coin against one
//! cw20 token, in the manner of Uniswap v1: the pool holds a reserve of each
//! side, prices trades by the constant-product rule with a 0.3% fee, and
//! issues liquidity shares to the accounts that fund the reserves.
//!
//! The crate decides: every message is turned into the pool's next state and
//! the list of transfers that the host chain must carry out.
pub mod chain;
pub mod contract;
pub mod error;
pub mod laws;
pub mod math;
pub mod msg;
pub mod state;
