use hlp_toshogu::config::{validate_config, Config, ConfigError};
use hlp_toshogu::demo::{apply_test_modifications, create_test_metrics};
use hlp_toshogu::fixed::{Dec, SCALE};
use hlp_toshogu::metrics::{
    calculate_depth_at_bps, calculate_order_book_imbalance, calculate_performance_metrics,
    calculate_sharpe_ratio, calculate_sortino_ratio, calculate_spread_bps, isqrt_exec,
};
use hlp_toshogu::model::{AssetInfo, Fill, L2Snapshot, Meta, OrderBookLevel, Position, Side, UserState, VaultSummary};
use hlp_toshogu::provider::{
    dec_from_parts, get_default_monitored_assets, parse_decimal, select_monitored_assets, status_from,
    vault_summary_from_user_state, DataSourceStatus,
};

fn d(units: i64) -> Dec {
    Dec { units }
}

fn whole(n: i64) -> Dec {
    Dec { units: n * SCALE }
}

fn pnl_fill(pnl: i64) -> Fill {
    Fill {
        coin: "BTC".to_string(),
        px: whole(100),
        sz: whole(1),
        side: Side::Buy,
        time: 0,
        start_position: d(0),
        dir: String::new(),
        closed_pnl: whole(pnl),
        hash: String::new(),
        oid: 0,
        crossed: false,
        fee: d(5_000),
    }
}

#[test]
fn parse_decimal_texts() {
    assert_eq!(parse_decimal("123.45").units, 12_345_000_000);
    assert_eq!(parse_decimal("-0.5").units, -50_000_000);
    assert_eq!(parse_decimal("0.000000019").units, 1);
    assert_eq!(parse_decimal("abc").units, 0);
    assert_eq!(parse_decimal("").units, 0);
    assert_eq!(parse_decimal("99999999999999999").units, 0);
}

#[test]
fn decimal_parts_conversion() {
    assert_eq!(dec_from_parts(15, 1).map(|x| x.units), Some(150_000_000));
    assert_eq!(dec_from_parts(-123_456_789_123, 10).map(|x| x.units), Some(-1_234_567_891));
    assert_eq!(dec_from_parts(1, 28).map(|x| x.units), Some(0));
    assert_eq!(dec_from_parts(100_000_000_000_000_000_000, 0), None);
}

#[test]
fn isqrt_rounds_down() {
    assert_eq!(isqrt_exec(0), 0);
    assert_eq!(isqrt_exec(15), 3);
    assert_eq!(isqrt_exec(16), 4);
    assert_eq!(isqrt_exec(u128::MAX), u64::MAX as u128);
}

#[test]
fn sharpe_and_sortino() {
    // returns 1 and 3: mean 2, deviation 1
    let fills = vec![pnl_fill(1), pnl_fill(3)];
    assert_eq!(calculate_sharpe_ratio(&fills).units, 2 * SCALE);
    assert_eq!(calculate_sortino_ratio(&fills).units, 0);
    // returns -1 and 3: mean 1, downside sqrt(1 / 2)
    let mixed = vec![pnl_fill(-1), pnl_fill(3)];
    assert_eq!(calculate_sharpe_ratio(&mixed).units, 50_000_000);
    let s = calculate_sortino_ratio(&mixed).units;
    assert!((s - 141_421_356).abs() <= 1, "sortino {}", s);
    assert_eq!(calculate_sharpe_ratio(&vec![]).units, 0);
    assert_eq!(calculate_sharpe_ratio(&vec![pnl_fill(4), pnl_fill(4)]).units, 0);
}

#[test]
fn performance_figures() {
    let fills = vec![pnl_fill(-2), pnl_fill(3)];
    let v = VaultSummary {
        vault_address: String::new(),
        tvl: whole(100),
        equity: whole(90),
        apr: d(0),
        all_time_pnl: 0,
        max_drawdown: d(0),
        num_depositors: 1,
        portfolio_value: d(0),
        deployed_liquidity: d(0),
        idle_liquidity: 0,
    };
    let p = calculate_performance_metrics(&fills, &v);
    assert_eq!(p.daily_pnl, SCALE as i128);
    assert_eq!(p.unrealized_pnl, -10 * SCALE as i128);
    assert_eq!(p.total_volume, 200 * 10_000_000_000_000_000i128);
    // losses 2 over volume 200
    assert_eq!(p.adverse_selection_cost.units, 1_000_000);
    assert_eq!(p.realized_spread.len(), 1);
    assert_eq!(p.realized_spread[0].1.units, 50_000_000);
}

fn level(px: i64, sz: i64) -> OrderBookLevel {
    OrderBookLevel { px: whole(px), sz: whole(sz), n: 1 }
}

#[test]
fn book_figures() {
    assert_eq!(calculate_spread_bps(whole(99), whole(101)).units, 200 * SCALE);
    assert_eq!(calculate_spread_bps(whole(0), whole(101)).units, 0);
    let s = L2Snapshot {
        coin: "BTC".to_string(),
        time: 0,
        bids: vec![level(1000, 3), level(996, 2), level(994, 7)],
        asks: vec![level(1000, 1), level(1004, 4), level(1006, 9)],
    };
    // within 50 bps of mid 1000: bids down to 995, asks up to 1005
    assert_eq!(calculate_depth_at_bps(&s, 50), 10 * SCALE as i128);
    assert_eq!(calculate_order_book_imbalance(&s).units, 50_000_000);
}

#[test]
fn config_validation() {
    let ok = Config::default();
    assert_eq!(validate_config(&ok), Ok(()));
    let mut c = Config::default();
    c.user_address = "0x".to_string();
    assert_eq!(validate_config(&c), Err(ConfigError::PlaceholderAddress));
    let mut c = Config::default();
    c.update_interval_ms = 99;
    assert_eq!(validate_config(&c), Err(ConfigError::UpdateIntervalTooShort));
    let mut c = Config::default();
    c.ui_settings.refresh_rate_ms = 49;
    assert_eq!(validate_config(&c), Err(ConfigError::RefreshRateTooShort));
}

#[test]
fn status_decision() {
    assert!(matches!(status_from(true, true), DataSourceStatus::Connected));
    assert!(matches!(status_from(false, true), DataSourceStatus::Disconnected));
    match status_from(true, false) {
        DataSourceStatus::Error(m) => assert_eq!(m, "WebSocket disconnected, HTTP only"),
        _ => panic!("expected an error status"),
    }
}

fn position(pnl: i64) -> Position {
    Position {
        symbol: "BTC".to_string(),
        size: whole(1),
        entry_px: None,
        position_value: d(0),
        unrealized_pnl: whole(pnl),
        margin_used: d(0),
    }
}

#[test]
fn vault_summary_from_account() {
    let user = UserState {
        account_value: whole(1000),
        total_margin_used: whole(300),
        total_ntl_pos: d(0),
        total_raw_usd: whole(1200),
        positions: vec![position(-50), position(-50)],
    };
    let v = vault_summary_from_user_state(&"0xabc".to_string(), &user);
    assert_eq!(v.tvl.units, 1000 * SCALE);
    assert_eq!(v.all_time_pnl, -100 * SCALE as i128);
    assert_eq!(v.max_drawdown.units, 10_000_000);
    assert_eq!(v.apr.units, 576_000_000);
    assert_eq!(v.idle_liquidity, 900 * SCALE as i128);
    let gain = UserState { positions: vec![position(10)], ..user };
    // 10 / 1000 * 36,500
    assert_eq!(vault_summary_from_user_state(&"0xabc".to_string(), &gain).apr.units, 365 * SCALE);
}

#[test]
fn monitored_assets() {
    let defaults = get_default_monitored_assets();
    assert_eq!(defaults.len(), 50);
    assert_eq!(defaults[0], "BTC");
    assert_eq!(defaults[49], "STX");
    let mut universe = vec![AssetInfo { name: "TINY".to_string(), sz_decimals: 0, max_leverage: 3, only_isolated: false }];
    for i in 0..12 {
        universe.push(AssetInfo { name: format!("A{}", i), sz_decimals: 0, max_leverage: 20, only_isolated: false });
    }
    universe.insert(0, AssetInfo { name: "DOGE".to_string(), sz_decimals: 0, max_leverage: 3, only_isolated: false });
    let chosen = select_monitored_assets(&Meta { universe });
    assert_eq!(chosen.len(), 10);
    assert_eq!(chosen[0], "DOGE");
    assert_eq!(chosen[1], "A0");
    assert_eq!(chosen[9], "A8");
}

#[test]
fn simulated_snapshot() {
    let mut m = create_test_metrics(7);
    assert_eq!(m.vault_metrics.tvl.units, 10_953_000_000_000_000);
    assert_eq!(m.liquidity_metrics.bid_ask_spread_bps.len(), 3);
    assert_eq!(m.last_update, Some(7));
    apply_test_modifications(&mut m, 3, d(SCALE), 9);
    assert_eq!(m.risk_metrics.vpin_score.units, 70_000_000);
    assert_eq!(m.risk_metrics.phantom_liquidity_index.units, 45_000_000);
    assert_eq!(m.risk_metrics.liquidation_risk_score.units, 50_000_000);
    assert_eq!(m.vault_metrics.utilization_rate.units, 80_000_000);
    apply_test_modifications(&mut m, 50, d(-SCALE), 10);
    assert_eq!(m.risk_metrics.vpin_score.units, 80_000_000);
    assert_eq!(m.risk_metrics.phantom_liquidity_index.units, 5_000_000);
    assert_eq!(m.vault_metrics.utilization_rate.units, 20_000_000);
    assert_eq!(m.last_update, Some(10));
}

#[test]
fn adverse_selection_uses_notional_volume() {
    let mut sell = pnl_fill(-1);
    sell.px = whole(1);
    sell.sz = whole(-1);
    // loss 1 over notional 1 * |-1| = 1
    assert_eq!(hlp_toshogu::metrics::calculate_adverse_selection_cost(&vec![sell]).units, SCALE);
}
