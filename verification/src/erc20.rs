//! Token query adapter: read-only lookups with the fail-to-zero policy.
//!
//! The process performs the actual contract calls and hands their outcomes
//! in as `Some(value)` or, for any failure (network error, revert), `None`.
//! A failed read never propagates: it degrades to zero, preferring "assume
//! no permission, no funds" over crashing.

use vstd::prelude::*;

verus! {

/// The amount a read yields under the fail-to-zero policy.
pub open spec fn read_or_zero_spec(outcome: Option<u128>) -> u128 {
    match outcome {
        Some(v) => v,
        None => 0,
    }
}

/// The allowance a token owner has granted a spender, zero when the
/// underlying call failed.
pub fn allowance(outcome: Option<u128>) -> (r: u128)
    ensures
        r == read_or_zero_spec(outcome),
{
    match outcome {
        Some(v) => v,
        None => 0,
    }
}

/// The token balance of an account, zero when the underlying call failed.
pub fn balance_of(outcome: Option<u128>) -> (r: u128)
    ensures
        r == read_or_zero_spec(outcome),
{
    match outcome {
        Some(v) => v,
        None => 0,
    }
}

} // verus!
