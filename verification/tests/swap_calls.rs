use tswap::config::{Config, NetworkConfig, PoolConfig, TradeConfig};
use tswap::tswap::{get_valid_timestamp, minimum_output, quoted_output, Tswap};

fn pool() -> PoolConfig {
    PoolConfig {
        router_address: "0x7a250d5630b4cf539739df2c5dacb4c659f2488d".to_string(),
        weth_address: "0xc02aaa39b223fe8d0a0e5c4f27ead9083c756cc2".to_string(),
        token_a_address: "0x6b175474e89094c44da98b954eedeac495271d0f".to_string(),
        token_a_symbol: "DAI".to_string(),
        token_a_decimal: 18,
        token_b_address: "0xa0b86991c6218b36c1d19d4a2e9eb0ce3606eb48".to_string(),
        token_b_symbol: "USDC".to_string(),
        token_b_decimal: 6,
    }
}

fn config(slippage: u64, gas_price_multipler: u64) -> Config {
    Config {
        pool: pool(),
        trade: TradeConfig {
            tswap_buy: 3,
            tswap_sell: 3,
            tswap_step: 10,
            slippage,
        },
        network: NetworkConfig {
            chain_id: 1,
            rpc: "http://localhost:8545".to_string(),
            gas_price_multipler,
        },
    }
}

#[test]
fn minimum_output_is_the_literal_bare_multiplier_formula() {
    // quoted * slippage / 10000, truncating — not the inverted
    // "quoted * (10000 - slippage) / 10000" reading.
    assert_eq!(minimum_output(10000, 9900), 9900);
    assert_eq!(minimum_output(12345, 50), 61);
    assert_eq!(minimum_output(0, 9900), 0);
    assert_eq!(minimum_output(999, 10000), 999);
}

#[test]
fn quoted_output_is_the_last_amount_or_zero() {
    assert_eq!(quoted_output(&Some(vec![100, 250])), 250);
    assert_eq!(quoted_output(&Some(vec![])), 0);
    assert_eq!(quoted_output(&None), 0);
}

#[test]
fn swap_call_carries_quote_slippage_deadline_and_gas() {
    let t = Tswap::new("owner".to_string(), config(500, 10000));
    let quote = Some(vec![1000u128, 250]);
    let call = t.swap(1000, &quote, Some(120000), Some(2000), 1_700_000_000_000);
    assert_eq!(call.amount_in, 1000);
    assert_eq!(call.amount_out_min, 12); // 250 * 500 / 10000
    assert_eq!(call.deadline, 1_700_000_000_000 + 120000);
    assert_eq!(call.gas_limit, 156000); // 120000 * 13000 / 10000
    assert_eq!(call.gas_price, 2000);
}

#[test]
fn swap_call_falls_back_when_quote_and_estimates_fail() {
    let t = Tswap::new("owner".to_string(), config(9900, 10000));
    let call = t.swap(1000, &None, None, None, 0);
    assert_eq!(call.amount_out_min, 0);
    assert_eq!(call.gas_limit, 260000); // 200000 * 13000 / 10000
    assert_eq!(call.gas_price, 50_000_000_000);
    assert_eq!(call.deadline, 120000);
}

#[test]
fn approve_call_scales_gas_by_the_margin_and_never_below_fallback() {
    let t = Tswap::new("owner".to_string(), config(9900, 10000));
    let fallback = t.approve_token(77, None, None);
    assert_eq!(fallback.value, 77);
    assert_eq!(fallback.gas_limit, 52000); // 40000 * 13000 / 10000
    assert!(fallback.gas_limit >= 40000);
    assert_eq!(fallback.gas_price, 50_000_000_000);
    let estimated = t.approve_token(77, Some(30000), Some(4000));
    assert_eq!(estimated.gas_limit, 39000); // 30000 * 13000 / 10000
    assert_eq!(estimated.gas_price, 4000);
}

#[test]
fn deadline_lies_at_least_the_window_in_the_future() {
    let deadline = get_valid_timestamp(120000);
    assert!(deadline >= 120000);
}
