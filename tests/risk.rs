use hlp_toshogu::fixed::{ratio, Dec, SCALE};
use hlp_toshogu::model::{AssetInfo, Fill, LiquidityMetrics, Meta, Side, VaultSummary};
use hlp_toshogu::risk::{
    calculate_asset_correlation, calculate_cascade_risk, calculate_liquidation_risk,
    calculate_phantom_liquidity_index, calculate_position_concentration, calculate_vpin,
    detect_cross_exchange_manipulation,
};

fn d(units: i64) -> Dec {
    Dec { units }
}

fn whole(n: i64) -> Dec {
    Dec { units: n * SCALE }
}

fn fill(coin: &str, px: i64, sz: i64, side: Side) -> Fill {
    Fill {
        coin: coin.to_string(),
        px: whole(px),
        sz: whole(sz),
        side,
        time: 0,
        start_position: d(0),
        dir: String::new(),
        closed_pnl: d(0),
        hash: String::new(),
        oid: 0,
        crossed: false,
        fee: d(0),
    }
}

fn asset(name: &str, lev: u32) -> AssetInfo {
    AssetInfo { name: name.to_string(), sz_decimals: 0, max_leverage: lev, only_isolated: false }
}

fn meta(assets: &[(&str, u32)]) -> Meta {
    Meta { universe: assets.iter().map(|(n, l)| asset(n, *l)).collect() }
}

fn summary(tvl: i64, equity: i64, drawdown: Dec) -> VaultSummary {
    VaultSummary {
        vault_address: String::new(),
        tvl: whole(tvl),
        equity: whole(equity),
        apr: d(0),
        all_time_pnl: 0,
        max_drawdown: drawdown,
        num_depositors: 1,
        portfolio_value: d(0),
        deployed_liquidity: d(0),
        idle_liquidity: 0,
    }
}

#[test]
fn ratio_rounds_toward_zero() {
    assert_eq!(ratio(1, 3).units, 33_333_333);
    assert_eq!(ratio(-1, 3).units, -33_333_333);
    assert_eq!(ratio(3, 4).units, 75_000_000);
    assert_eq!(ratio(i128::MAX, 1).units, i64::MAX);
}

#[test]
fn vpin_empty_is_zero() {
    let m = meta(&[("BTC", 50)]);
    assert_eq!(calculate_vpin(&vec![], &m).units, 0);
}

#[test]
fn vpin_balanced_bucket_is_zero() {
    let m = meta(&[("BTC", 50)]);
    let fills = vec![fill("BTC", 100, 50, Side::Buy), fill("BTC", 100, 50, Side::Sell)];
    assert_eq!(calculate_vpin(&fills, &m).units, 0);
}

#[test]
fn vpin_one_sided_bucket_is_one() {
    let m = meta(&[("BTC", 50)]);
    let fills = vec![fill("BTC", 20_000, 1, Side::Buy)];
    assert_eq!(calculate_vpin(&fills, &m).units, SCALE);
}

#[test]
fn vpin_open_bucket_counts_nothing() {
    let m = meta(&[("BTC", 50)]);
    let fills = vec![fill("BTC", 100, 99, Side::Buy)];
    assert_eq!(calculate_vpin(&fills, &m).units, 0);
}

#[test]
fn vpin_ignores_minor_assets() {
    let m = meta(&[("BTC", 50), ("XYZ", 3)]);
    let fills = vec![fill("XYZ", 20_000, 1, Side::Buy)];
    assert_eq!(calculate_vpin(&fills, &m).units, 0);
}

#[test]
fn vpin_averages_buckets_in_unit_range() {
    let m = meta(&[("ETH", 25)]);
    let fills = vec![
        fill("ETH", 1000, 10, Side::Buy),
        fill("ETH", 1000, 6, Side::Buy),
        fill("ETH", 1000, 4, Side::Sell),
    ];
    // buckets: 1.0, then |6000 - 4000| / 10000 = 0.2
    let v = calculate_vpin(&fills, &m);
    assert_eq!(v.units, 60_000_000);
    assert!(v.units >= 0 && v.units <= SCALE);
}

#[test]
fn vpin_keeps_last_fifty_buckets() {
    let m = meta(&[("BTC", 50)]);
    let mut fills = vec![];
    for _ in 0..10 {
        fills.push(fill("BTC", 100, 50, Side::Buy));
        fills.push(fill("BTC", 100, 50, Side::Sell));
    }
    for _ in 0..50 {
        fills.push(fill("BTC", 10_000, 1, Side::Sell));
    }
    assert_eq!(calculate_vpin(&fills, &m).units, SCALE);
}

fn liquidity(fleeting: i64, layering: i64, spoofing: i64, realization: i64) -> LiquidityMetrics {
    let mut lm = LiquidityMetrics::default();
    lm.fleeting_order_ratio = d(fleeting);
    lm.layering_detection_score = d(layering);
    lm.spoofing_detection_index = d(spoofing);
    lm.liquidity_realization_rate = d(realization);
    lm
}

#[test]
fn phantom_index_weights() {
    let mut lm = liquidity(40_000_000, 35_000_000, 9_000_000, 51_200_000);
    lm.fill_probability_by_distance = vec![("1bps".to_string(), d(90_000_000)), ("5bps".to_string(), d(70_000_000))];
    // 0.25*0.4 + 0.2*0.2 + 0.2*0.35 + 0.2*0.09 + 0.15*0.488 = 0.3012
    assert_eq!(calculate_phantom_liquidity_index(&lm).units, 30_120_000);
}

#[test]
fn phantom_index_clamped_high() {
    let lm = liquidity(10 * SCALE, 10 * SCALE, 10 * SCALE, -10 * SCALE);
    assert_eq!(calculate_phantom_liquidity_index(&lm).units, SCALE);
}

#[test]
fn phantom_index_clamped_low() {
    let mut lm = liquidity(-10 * SCALE, -10 * SCALE, -10 * SCALE, 10 * SCALE);
    lm.fill_probability_by_distance = vec![("1bps".to_string(), d(5 * SCALE))];
    assert_eq!(calculate_phantom_liquidity_index(&lm).units, 0);
}

#[test]
fn liquidation_risk_zero_tvl_is_one() {
    assert_eq!(calculate_liquidation_risk(&summary(0, 500, d(0))).units, SCALE);
    assert_eq!(calculate_liquidation_risk(&summary(0, -7, d(90_000_000))).units, SCALE);
}

#[test]
fn liquidation_risk_formula() {
    // 1 - 80/100 + 0.5 * 0.1 = 0.25
    assert_eq!(calculate_liquidation_risk(&summary(100, 80, d(10_000_000))).units, 25_000_000);
    // drawdown above 1 counts as 1; result clamps to 1
    assert_eq!(calculate_liquidation_risk(&summary(100, 10, whole(5))).units, SCALE);
    // equity above tvl clamps to 0
    assert_eq!(calculate_liquidation_risk(&summary(100, 300, d(0))).units, 0);
}

#[test]
fn correlation_of_known_pairs() {
    let m = meta(&[("BTC", 50), ("ETH", 50), ("SOL", 20)]);
    // (0.7 + 0.6 + 0.5) / 3
    assert_eq!(calculate_asset_correlation(&m).units, 60_000_000);
    let none = meta(&[("XYZ", 50)]);
    assert_eq!(calculate_asset_correlation(&none).units, 50_000_000);
}

#[test]
fn cascade_risk_single_position() {
    let m = meta(&[("BTC", 50), ("ETH", 50)]);
    let fills = vec![fill("BTC", 100, 2, Side::Buy)];
    // HHI 1 * correlation 0.7 * 0.8
    assert_eq!(calculate_cascade_risk(&fills, &m).units, 56_000_000);
}

#[test]
fn cascade_risk_flat_book_is_zero() {
    let m = meta(&[("BTC", 50)]);
    let fills = vec![fill("BTC", 100, 2, Side::Buy), fill("BTC", 100, 2, Side::Sell)];
    assert_eq!(calculate_cascade_risk(&fills, &m).units, 0);
    assert_eq!(calculate_cascade_risk(&vec![], &m).units, 0);
}

#[test]
fn position_concentration_shares() {
    let m = meta(&[("BTC", 50), ("ETH", 50)]);
    let fills = vec![
        fill("BTC", 100, 3, Side::Buy),
        fill("ETH", 100, 1, Side::Sell),
        fill("XYZ", 100, 9, Side::Sell),
    ];
    let c = calculate_position_concentration(&fills, &m);
    assert_eq!(c.len(), 2);
    assert_eq!(c[0].0, "BTC");
    assert_eq!(c[0].1.units, 75_000_000);
    assert_eq!(c[1].0, "ETH");
    assert_eq!(c[1].1.units, 25_000_000);
    assert!(calculate_position_concentration(&vec![], &m).is_empty());
}

#[test]
fn cross_exchange_placeholder() {
    let few = meta(&[("BTC", 50)]);
    let names: Vec<(String, u32)> = (0..11).map(|i| (format!("A{}", i), 20)).collect();
    let many = Meta { universe: names.iter().map(|(n, l)| asset(n, *l)).collect() };
    let fills = vec![fill("BTC", 1, 1, Side::Buy)];
    assert_eq!(detect_cross_exchange_manipulation(&vec![], &few).units, 0);
    assert_eq!(detect_cross_exchange_manipulation(&fills, &few).units, 8_000_000);
    assert_eq!(detect_cross_exchange_manipulation(&fills, &many).units, 15_000_000);
}

#[test]
fn vpin_replays_in_time_order() {
    let m = meta(&[("BTC", 50)]);
    let mut late_sell = fill("BTC", 100, 50, Side::Sell);
    late_sell.time = 2;
    let mut early_buy = fill("BTC", 10_000, 1, Side::Buy);
    early_buy.time = 1;
    // in time order the buy closes a one-sided bucket; the sell stays open
    assert_eq!(calculate_vpin(&vec![late_sell, early_buy], &m).units, SCALE);
}
