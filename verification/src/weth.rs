//! Wrapped-asset adapter: balance reads and the wrap/unwrap write calls.
//!
//! Reads follow the same fail-to-zero policy as the token queries. The two
//! state-changing operations, deposit (wrap) and withdraw (unwrap), choose
//! their gas parameters here: the gas limit is the estimate, or a fixed
//! fallback when estimation failed, with no extra margin; the gas price is
//! the network reading, or its fallback, scaled by the configured
//! basis-point multiplier. The process submits the returned call; a failed
//! submission is fatal there, never retried.

use vstd::prelude::*;

verus! {

use crate::config::Config;
use crate::erc20::read_or_zero_spec;
use crate::gas::{or_default, or_default_spec, scale_bps, scale_bps_spec};

/// Gas limit used when estimating a deposit or withdraw call failed.
pub const DEFAULT_DEPOSIT_CALL_GAS: u64 = 50000;

/// Gas price used when the network reading failed (50 gwei).
pub const DEFAULT_GAS_PRICE: u64 = 50000000000;

/// One wrap or unwrap call, ready for submission.
#[derive(Debug, Clone, Copy, PartialEq, Eq, Structural)]
pub struct WethCall {
    /// Amount to wrap or unwrap, in the smallest unit.
    pub amount: u128,
    /// Gas limit of the submission.
    pub gas_limit: u128,
    /// Gas price of the submission.
    pub gas_price: u128,
}

/// The wrapped-token balance of an account, zero when the underlying call
/// failed.
pub fn balance_of(outcome: Option<u128>) -> (r: u128)
    ensures
        r == read_or_zero_spec(outcome),
{
    match outcome {
        Some(v) => v,
        None => 0,
    }
}

/// Build the wrap call for `amount`: the gas limit is the estimate or the
/// fixed fallback, without margin; the gas price is the network reading or
/// its fallback, scaled by the configured multiplier.
pub fn deposit(
    amount: u128,
    gas_estimate: Option<u128>,
    gas_price_reading: Option<u128>,
    config: &Config,
) -> (c: WethCall)
    requires
        or_default_spec(gas_price_reading, DEFAULT_GAS_PRICE as u128)
            * config.network.gas_price_multipler <= u128::MAX,
    ensures
        c.amount == amount,
        c.gas_limit == or_default_spec(gas_estimate, DEFAULT_DEPOSIT_CALL_GAS as u128),
        c.gas_price == scale_bps_spec(
            or_default_spec(gas_price_reading, DEFAULT_GAS_PRICE as u128),
            config.network.gas_price_multipler,
        ),
{
    let gas_limit = or_default(gas_estimate, DEFAULT_DEPOSIT_CALL_GAS as u128);
    let gas_price = scale_bps(
        or_default(gas_price_reading, DEFAULT_GAS_PRICE as u128),
        config.network.gas_price_multipler,
    );
    WethCall { amount, gas_limit, gas_price }
}

/// Build the unwrap call for `amount`; it mirrors `deposit` exactly.
pub fn withdraw(
    amount: u128,
    gas_estimate: Option<u128>,
    gas_price_reading: Option<u128>,
    config: &Config,
) -> (c: WethCall)
    requires
        or_default_spec(gas_price_reading, DEFAULT_GAS_PRICE as u128)
            * config.network.gas_price_multipler <= u128::MAX,
    ensures
        c.amount == amount,
        c.gas_limit == or_default_spec(gas_estimate, DEFAULT_DEPOSIT_CALL_GAS as u128),
        c.gas_price == scale_bps_spec(
            or_default_spec(gas_price_reading, DEFAULT_GAS_PRICE as u128),
            config.network.gas_price_multipler,
        ),
{
    let gas_limit = or_default(gas_estimate, DEFAULT_DEPOSIT_CALL_GAS as u128);
    let gas_price = scale_bps(
        or_default(gas_price_reading, DEFAULT_GAS_PRICE as u128),
        config.network.gas_price_multipler,
    );
    WethCall { amount, gas_limit, gas_price }
}

} // verus!
