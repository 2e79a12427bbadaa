//! Staged-execution swap library for a Uniswap-V2-style exchange.
//!
//! The crate holds the decision core of an interactive trading bot: how a
//! total swap amount is split into timed steps, how a quoted output is turned
//! into a minimum acceptable output, how gas limits and gas prices are chosen
//! for every on-chain write, how an allowance deficiency is repaired with a
//! single approval, and how failed reads degrade to zero. All of it works on
//! plain integer amounts in the token's smallest unit; the surrounding
//! process performs the actual RPC calls and feeds their outcomes in.

use vstd::prelude::*;

pub mod allowance;
pub mod config;
pub mod env_vars;
pub mod erc20;
pub mod gas;
pub mod tswap;
pub mod weth;

verus! {

/// Denominator for every basis-point scaling in the system.
pub const BASIS_POINT: u64 = 10000;

} // verus!
