//! Run configuration: pool addresses, trade parameters, network parameters.
//!
//! One configuration is loaded at startup and stays immutable for the whole
//! run. The process reads the configuration file and hands the plain values
//! here; `load_config` admits them only when they satisfy the documented
//! ranges, so every later component can rely on a well-formed configuration.

use vstd::prelude::*;

verus! {

use crate::BASIS_POINT;

/// Addresses, symbols and decimal precisions of the pool under trade.
#[derive(Debug, Clone)]
pub struct PoolConfig {
    pub router_address: String,
    pub weth_address: String,
    pub token_a_address: String,
    pub token_a_symbol: String,
    pub token_a_decimal: u32,
    pub token_b_address: String,
    pub token_b_symbol: String,
    pub token_b_decimal: u32,
}

/// Trade parameters: step counts per direction, step interval in seconds,
/// slippage tolerance in basis points.
#[derive(Debug, Clone)]
pub struct TradeConfig {
    pub tswap_buy: u64,
    pub tswap_sell: u64,
    pub tswap_step: u64,
    pub slippage: u64,
}

/// Network parameters: chain id, RPC endpoint, gas-price multiplier in
/// basis points.
#[derive(Debug, Clone)]
pub struct NetworkConfig {
    pub chain_id: u64,
    pub rpc: String,
    pub gas_price_multipler: u64,
}

/// The whole run configuration.
#[derive(Debug, Clone)]
pub struct Config {
    pub pool: PoolConfig,
    pub trade: TradeConfig,
    pub network: NetworkConfig,
}

/// Why a configuration was rejected at startup.
#[derive(Debug, PartialEq, Eq, Structural)]
pub enum ConfigError {
    /// The slippage tolerance exceeds 10000 basis points.
    SlippageOutOfRange,
    /// A direction has a step count of zero, which no schedule can run.
    StepCountZero,
    /// The step interval does not fit the signed timestamp arithmetic.
    StepIntervalTooLarge,
}

impl TradeConfig {
    /// The documented ranges of the trade parameters: at least one step in
    /// each direction, a slippage tolerance of 0 to 10000 basis points, and
    /// a step interval that fits the signed second arithmetic of the
    /// scheduler clock.
    pub open spec fn wf(&self) -> bool {
        &&& self.tswap_buy >= 1
        &&& self.tswap_sell >= 1
        &&& self.tswap_step <= i64::MAX
        &&& self.slippage <= BASIS_POINT
    }
}

impl Config {
    /// A configuration is well formed when its trade parameters are.
    pub open spec fn wf(&self) -> bool {
        self.trade.wf()
    }
}

/// Admit a configuration read at startup, rejecting any value outside the
/// documented ranges. Rules are checked in a fixed order, so exactly one
/// error names the first broken rule.
pub fn load_config(pool: PoolConfig, trade: TradeConfig, network: NetworkConfig) -> (r: Result<
    Config,
    ConfigError,
>)
    ensures
        r is Ok <==> ({
            &&& trade.slippage <= BASIS_POINT
            &&& trade.tswap_buy >= 1
            &&& trade.tswap_sell >= 1
            &&& trade.tswap_step <= i64::MAX
        }),
        r matches Ok(c) ==> c.pool == pool && c.trade == trade && c.network == network && c.wf(),
        r matches Err(e) ==> (e == ConfigError::SlippageOutOfRange <==> trade.slippage
            > BASIS_POINT),
        r matches Err(e) ==> (e == ConfigError::StepCountZero <==> trade.slippage <= BASIS_POINT
            && (trade.tswap_buy == 0 || trade.tswap_sell == 0)),
{
    if trade.slippage > BASIS_POINT {
        Err(ConfigError::SlippageOutOfRange)
    } else if trade.tswap_buy == 0 || trade.tswap_sell == 0 {
        Err(ConfigError::StepCountZero)
    } else if trade.tswap_step > i64::MAX as u64 {
        Err(ConfigError::StepIntervalTooLarge)
    } else {
        Ok(Config { pool, trade, network })
    }
}

} // verus!
