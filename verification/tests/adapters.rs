use tswap::config::{Config, NetworkConfig, PoolConfig, TradeConfig};
use tswap::{erc20, weth};

fn pool() -> PoolConfig {
    PoolConfig {
        router_address: "0x7a250d5630b4cf539739df2c5dacb4c659f2488d".to_string(),
        weth_address: "0xc02aaa39b223fe8d0a0e5c4f27ead9083c756cc2".to_string(),
        token_a_address: "0x6b175474e89094c44da98b954eedeac495271d0f".to_string(),
        token_a_symbol: "DAI".to_string(),
        token_a_decimal: 18,
        token_b_address: "0xa0b86991c6218b36c1d19d4a2e9eb0ce3606eb48".to_string(),
        token_b_symbol: "USDC".to_string(),
        token_b_decimal: 6,
    }
}

fn config(gas_price_multipler: u64) -> Config {
    Config {
        pool: pool(),
        trade: TradeConfig {
            tswap_buy: 3,
            tswap_sell: 3,
            tswap_step: 10,
            slippage: 9900,
        },
        network: NetworkConfig {
            chain_id: 1,
            rpc: "http://localhost:8545".to_string(),
            gas_price_multipler,
        },
    }
}

#[test]
fn failed_allowance_read_degrades_to_zero() {
    assert_eq!(erc20::allowance(None), 0);
    assert_eq!(erc20::allowance(Some(7)), 7);
}

#[test]
fn failed_balance_read_degrades_to_zero() {
    assert_eq!(erc20::balance_of(None), 0);
    assert_eq!(erc20::balance_of(Some(41)), 41);
    assert_eq!(weth::balance_of(None), 0);
    assert_eq!(weth::balance_of(Some(3)), 3);
}

#[test]
fn deposit_takes_the_estimate_without_margin() {
    let c = config(10000);
    let call = weth::deposit(5, Some(30000), Some(1000), &c);
    assert_eq!(call.amount, 5);
    assert_eq!(call.gas_limit, 30000);
    assert_eq!(call.gas_price, 1000);
}

#[test]
fn deposit_falls_back_when_estimation_fails() {
    let c = config(10000);
    let call = weth::deposit(5, None, None, &c);
    assert_eq!(call.gas_limit, 50000);
    assert_eq!(call.gas_price, 50_000_000_000);
}

#[test]
fn deposit_scales_the_gas_price_by_the_network_multiplier() {
    let c = config(20000);
    let call = weth::deposit(5, Some(30000), Some(1000), &c);
    assert_eq!(call.gas_price, 2000);
    let halved = weth::deposit(5, Some(30000), Some(1001), &config(5000));
    assert_eq!(halved.gas_price, 500);
}

#[test]
fn withdraw_mirrors_deposit() {
    let c = config(10000);
    let call = weth::withdraw(9, None, None, &c);
    assert_eq!(call.amount, 9);
    assert_eq!(call.gas_limit, 50000);
    assert_eq!(call.gas_price, 50_000_000_000);
    let estimated = weth::withdraw(9, Some(28000), Some(700), &c);
    assert_eq!(estimated.gas_limit, 28000);
    assert_eq!(estimated.gas_price, 700);
}
