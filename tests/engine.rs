use hlp_toshogu::fixed::{Dec, SCALE};
use hlp_toshogu::merge::{live_phantom_liquidity_index, merge_streaming, read_streaming_view, tanh_over_50, update_metrics};
use hlp_toshogu::model::{
    AssetInfo, Fill, GlobalMetrics, L2Snapshot, Meta, OrderAction, OrderBookLevel, OrderEvent, Side,
    UserState, VaultSummary,
};
use hlp_toshogu::streaming::{
    calculate_total_depth, count_same_price_orders, detect_layering_patterns, PhantomLiquidityMetrics,
    StreamingMetricsEngine,
};

fn d(units: i64) -> Dec {
    Dec { units }
}

fn whole(n: i64) -> Dec {
    Dec { units: n * SCALE }
}

fn fill(coin: &str, px: i64, sz: i64, side: Side) -> Fill {
    Fill {
        coin: coin.to_string(),
        px: whole(px),
        sz: whole(sz),
        side,
        time: 0,
        start_position: d(0),
        dir: String::new(),
        closed_pnl: d(0),
        hash: String::new(),
        oid: 0,
        crossed: false,
        fee: d(0),
    }
}

fn level(px: i64, sz: i64, n: u32) -> OrderBookLevel {
    OrderBookLevel { px: whole(px), sz: whole(sz), n }
}

fn book(coin: &str, bids: Vec<OrderBookLevel>, asks: Vec<OrderBookLevel>) -> L2Snapshot {
    L2Snapshot { coin: coin.to_string(), time: 0, bids, asks }
}

fn summary() -> VaultSummary {
    VaultSummary {
        vault_address: String::new(),
        tvl: whole(1000),
        equity: whole(900),
        apr: d(0),
        all_time_pnl: 0,
        max_drawdown: d(0),
        num_depositors: 1,
        portfolio_value: d(0),
        deployed_liquidity: whole(400),
        idle_liquidity: 600 * SCALE as i128,
    }
}

#[test]
fn order_cancelled_after_fifty_ms() {
    let mut e = StreamingMetricsEngine::new();
    e.on_new_order(1, 1_000);
    e.on_cancel_or_fill(1, true, 1_050);
    let p = e.get_phantom_liquidity_metrics();
    assert_eq!(p.fleeting_order_ratio.units, SCALE);
    assert_eq!(p.cancellation_rate.units, SCALE);
    assert_eq!(p.avg_order_lifetime_ms.units, 50 * SCALE);
}

#[test]
fn unknown_order_is_ignored() {
    let mut e = StreamingMetricsEngine::new();
    e.on_cancel_or_fill(7, true, 10);
    let p = e.get_phantom_liquidity_metrics();
    assert_eq!(e.order_flow_analyzer.total_orders, 0);
    assert_eq!(p.cancellation_rate.units, 0);
}

#[test]
fn slow_fill_is_not_fleeting() {
    let mut e = StreamingMetricsEngine::new();
    let open = OrderEvent { id: 3, action: OrderAction::New, coin: "BTC".to_string(), side: Side::Buy, px: d(0), sz: d(0), timestamp: 0 };
    let done = OrderEvent { action: OrderAction::Filled, ..open.clone() };
    e.process_order_event(&open, 0);
    e.process_order_event(&done, 250);
    let p = e.get_phantom_liquidity_metrics();
    assert_eq!(p.fleeting_order_ratio.units, 0);
    assert_eq!(p.cancellation_rate.units, 0);
    assert_eq!(p.avg_order_lifetime_ms.units, 250 * SCALE);
}

#[test]
fn trades_fill_buckets_and_volume() {
    let mut e = StreamingMetricsEngine::new();
    e.process_trade(fill("BTC", 100, 50, Side::Buy));
    assert_eq!(e.get_current_vpin().units, 0);
    e.process_trade(fill("BTC", 100, 50, Side::Sell));
    assert_eq!(e.vpin_buckets.len(), 1);
    assert_eq!(e.get_current_vpin().units, 0);
    e.process_trade(fill("ETH", 10_000, 1, Side::Buy));
    assert_eq!(e.get_current_vpin().units, SCALE / 2);
    let (total, by_coin) = e.get_volume_metrics();
    assert_eq!(total, 20_000 * 10_000_000_000_000_000i128);
    assert_eq!(by_coin.len(), 2);
    assert_eq!(by_coin[0].0, "BTC");
    assert_eq!(by_coin[0].1, 10_000 * 10_000_000_000_000_000i128);
    assert_eq!(e.trade_buffer.len(), 3);
}

#[test]
fn ring_holds_fifty_buckets() {
    let mut e = StreamingMetricsEngine::new();
    for _ in 0..60 {
        e.process_trade(fill("BTC", 10_000, 1, Side::Buy));
    }
    assert_eq!(e.vpin_buckets.len(), 50);
    assert_eq!(e.get_current_vpin().units, SCALE);
}

#[test]
fn trade_buffer_is_bounded() {
    let mut e = StreamingMetricsEngine::new();
    for i in 0..5001u64 {
        let mut f = fill("BTC", 1, 1, Side::Buy);
        f.oid = i;
        e.process_trade(f);
    }
    assert_eq!(e.trade_buffer.len(), 5000);
    assert_eq!(e.trade_buffer[0].oid, 1);
}

#[test]
fn book_updates_feed_depth_and_spreads() {
    let mut e = StreamingMetricsEngine::new();
    e.process_l2_update(book("BTC", vec![level(99, 10, 1)], vec![level(101, 10, 1)]));
    assert_eq!(e.get_depth_realisation_ratio().units, 0);
    e.process_l2_update(book("BTC", vec![level(99, 20, 1)], vec![level(101, 10, 1)]));
    assert_eq!(e.get_depth_realisation_ratio().units, 80_000_000);
    // depth grew by half: a spoof event, since no order closed yet
    assert_eq!(e.phantom_liquidity_tracker.spoofing_events.units, SCALE);
    let spreads = e.get_real_time_spreads();
    assert_eq!(spreads.len(), 1);
    // (101 - 99) / 100 * 10,000 = 200 bps
    assert_eq!(spreads[0].1.units, 200 * SCALE);
}

#[test]
fn layering_signals() {
    let prev = book("BTC", vec![level(99, 1, 1)], vec![level(101, 1, 1)]);
    let more_levels = book(
        "BTC",
        vec![level(99, 1, 1), level(98, 1, 1), level(97, 1, 1), level(96, 1, 1), level(95, 1, 1)],
        vec![level(101, 1, 1)],
    );
    assert_eq!(detect_layering_patterns(&prev, &more_levels).units, 20_000_000);
    let crowded = book("BTC", vec![level(99, 1, 4)], vec![level(99, 1, 3)]);
    assert_eq!(count_same_price_orders(&crowded), 7);
    assert_eq!(detect_layering_patterns(&prev, &crowded).units, 30_000_000);
    assert_eq!(calculate_total_depth(&more_levels), 6 * SCALE as i128);
}

#[test]
fn layering_score_is_smoothed() {
    let mut e = StreamingMetricsEngine::new();
    e.process_l2_update(book("BTC", vec![level(99, 1, 1)], vec![level(101, 1, 1)]));
    e.process_l2_update(book("BTC", vec![level(99, 1, 4)], vec![level(99, 1, 3)]));
    // 0.8 * 0 + 0.2 * 0.3
    assert_eq!(e.phantom_liquidity_tracker.layering_score.units, 6_000_000);
}

#[test]
fn tanh_values() {
    assert_eq!(tanh_over_50(d(0)).units, 0);
    let one = tanh_over_50(whole(50)).units;
    assert!((one - 76_159_415).abs() <= 2, "tanh(1) gave {}", one);
    let half = tanh_over_50(whole(25)).units;
    assert!((half - 46_211_715).abs() <= 2, "tanh(0.5) gave {}", half);
    let five = tanh_over_50(whole(250)).units;
    assert!((five - 99_990_920).abs() <= 2, "tanh(5) gave {}", five);
    assert_eq!(tanh_over_50(whole(5000)).units, SCALE);
    assert_eq!(tanh_over_50(whole(-50)).units, -one);
    let fractional = tanh_over_50(d(SCALE / 2)).units;
    assert!((fractional - 999_966).abs() <= 2, "tanh(0.01) gave {}", fractional);
}

#[test]
fn live_phantom_index_formula_and_clamp() {
    let p = PhantomLiquidityMetrics {
        fleeting_order_ratio: d(20_000_000),
        avg_order_lifetime_ms: d(0),
        layering_score: d(10_000_000),
        spoofing_events: d(0),
        cancellation_rate: d(40_000_000),
    };
    // (0.2 + 0 + 0.1 + 0.1 + 0.2) / 4 = 0.15
    assert_eq!(live_phantom_liquidity_index(d(80_000_000), &p).units, 15_000_000);
    let wild = PhantomLiquidityMetrics { layering_score: whole(9), fleeting_order_ratio: whole(9), ..p };
    assert_eq!(live_phantom_liquidity_index(whole(-9), &wild).units, SCALE);
    let low = PhantomLiquidityMetrics { layering_score: whole(-9), ..p };
    assert_eq!(live_phantom_liquidity_index(whole(9), &low).units, 0);
}

fn cycle_inputs() -> (UserState, Meta, Vec<Fill>, Vec<L2Snapshot>) {
    let user = UserState {
        account_value: whole(900),
        total_margin_used: whole(400),
        total_ntl_pos: d(0),
        total_raw_usd: whole(1000),
        positions: vec![],
    };
    let meta = Meta {
        universe: vec![AssetInfo { name: "BTC".to_string(), sz_decimals: 0, max_leverage: 50, only_isolated: false }],
    };
    let fills = vec![fill("BTC", 20_000, 1, Side::Buy)];
    let books = vec![book("BTC", vec![level(99, 10, 1)], vec![level(101, 10, 1)])];
    (user, meta, fills, books)
}

#[test]
fn batch_cycle_without_engine() {
    let (user, meta, fills, books) = cycle_inputs();
    let m = update_metrics(&summary(), &user, &meta, &fills, &books, None, 42);
    assert_eq!(m.risk_metrics.vpin_score.units, SCALE);
    assert_eq!(m.last_update, Some(42));
    assert_eq!(m.vault_metrics.utilization_rate.units, 40_000_000);
    assert_eq!(m.liquidity_metrics.bid_ask_spread_bps[0].1.units, 200 * SCALE);
}

#[test]
fn live_vpin_takes_precedence() {
    let (user, meta, fills, books) = cycle_inputs();
    let mut e = StreamingMetricsEngine::new();
    e.process_trade(fill("BTC", 100, 50, Side::Buy));
    e.process_trade(fill("BTC", 100, 50, Side::Sell));
    let m = update_metrics(&summary(), &user, &meta, &fills, &books, Some(&e), 42);
    assert_eq!(m.risk_metrics.vpin_score.units, 0);
    // utilization from the vault summary: 1 - 600 / 1000
    assert_eq!(m.vault_metrics.utilization_rate.units, 40_000_000);
    // live volume added to the batch volume
    assert_eq!(m.performance_metrics.total_volume, 30_000 * 10_000_000_000_000_000i128);
}

#[test]
fn merge_overlays_spreads_and_counts() {
    let mut e = StreamingMetricsEngine::new();
    e.process_l2_update(book("ETH", vec![level(198, 1, 1)], vec![level(202, 1, 1)]));
    let view = read_streaming_view(&e);
    let mut batch = GlobalMetrics::default();
    batch.liquidity_metrics.bid_ask_spread_bps = vec![("BTC".to_string(), d(5)), ("ETH".to_string(), d(6))];
    batch.risk_metrics.vpin_score = d(90_000_000);
    let m = merge_streaming(batch, &view, &summary());
    assert_eq!(m.risk_metrics.vpin_score.units, 0);
    assert_eq!(m.liquidity_metrics.bid_ask_spread_bps.len(), 2);
    assert_eq!(m.liquidity_metrics.bid_ask_spread_bps[0].1.units, 5);
    assert_eq!(m.liquidity_metrics.bid_ask_spread_bps[1].1.units, 200 * SCALE);
    // no promises yet: realization 0, so the depth penalty is 1 and the index 0.25
    assert_eq!(m.risk_metrics.phantom_liquidity_index.units, 25_000_000);
}

#[test]
fn spoof_increment_is_damped() {
    let mut e = StreamingMetricsEngine::new();
    for id in 1..=2u64 {
        e.on_new_order(id, 0);
        e.on_cancel_or_fill(id, true, 500);
    }
    e.process_l2_update(book("BTC", vec![level(99, 10, 1)], vec![level(101, 10, 1)]));
    e.process_l2_update(book("BTC", vec![level(99, 20, 1)], vec![level(101, 10, 1)]));
    // two closed orders: the counter grows by min(1, 1/2)
    assert_eq!(e.phantom_liquidity_tracker.spoofing_events.units, SCALE / 2);
    e.process_l2_update(book("BTC", vec![level(99, 40, 1)], vec![level(101, 10, 1)]));
    assert_eq!(e.phantom_liquidity_tracker.spoofing_events.units, SCALE);
    // a small change is no spoof
    e.process_l2_update(book("BTC", vec![level(99, 41, 1)], vec![level(101, 10, 1)]));
    assert_eq!(e.phantom_liquidity_tracker.spoofing_events.units, SCALE);
    assert_eq!(e.get_depth_realisation_ratio().units, 80_000_000);
}

#[test]
fn order_events_leave_market_state_alone() {
    let mut e = StreamingMetricsEngine::new();
    e.process_trade(fill("BTC", 100, 3, Side::Buy));
    e.on_new_order(9, 0);
    e.on_cancel_or_fill(9, false, 10);
    e.on_cancel_or_fill(42, true, 20);
    assert_eq!(e.trade_buffer.len(), 1);
    assert_eq!(e.get_volume_metrics().0, 300 * 10_000_000_000_000_000i128);
    assert_eq!(e.order_flow_analyzer.total_orders, 1);
    assert_eq!(e.order_flow_analyzer.cancellation_events, 0);
}
