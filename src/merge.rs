//! One update cycle: batch metrics from a fetched snapshot, optionally
//! overlaid with the live view of the streaming engine.

use crate::coin_map::{table_view, unique_keys, upsert, upsert_spec};
use crate::fixed::{clamp_dec, clamp_int, DEC_MAX, sat, sat_add, Dec, SCALE, WIDE_MAX};
use crate::metrics::{
    calculate_liquidity_metrics, calculate_performance_metrics, calculate_risk_metrics,
    calculate_vault_metrics,
};
use crate::metrics::{liquidity_of, performance_of, risk_of, vault_metrics_of};
use crate::model::{fills_wf, AssetInfo, Fill, GlobalMetrics, L2Snapshot, Meta, UserState, VaultSummary};
use crate::streaming::{div_units_wide, div_wide, PhantomLiquidityMetrics, StreamingMetricsEngine};
use vstd::prelude::*;

verus! {

/// Fixed-point unit of the continued fraction: 10^15.
pub const CF_ONE: i128 = 1_000_000_000_000_000;

/// Depth of the continued fraction.
pub const CF_DEPTH: i128 = 64;

/// Tail `(2k+1) + x^2 / ((2k+3) + x^2 / ...)` of Lambert's continued fraction
/// for tanh, cut at `CF_DEPTH`, in units of `1 / CF_ONE`; `x2` is `x^2` in the
/// same units.
pub open spec fn cf_tail(x2: int, k: int) -> int
    decreases CF_DEPTH - k,
{
    if k >= CF_DEPTH {
        (2 * CF_DEPTH + 1) * CF_ONE
    } else {
        (2 * k + 1) * CF_ONE + (x2 * CF_ONE) / cf_tail(x2, k + 1)
    }
}

/// `tanh(x / 50)` for `x >= 0` given in `Dec` units, from the continued
/// fraction `y / (1 + y^2 / (3 + y^2 / (5 + ...)))` with `y = x / 50`; 1 from
/// `y >= 20` on, where tanh differs from 1 by less than 10^-16.
pub open spec fn tanh_pos_units(u: int) -> int {
    if u >= 100_000_000_000 {
        SCALE as int
    } else {
        let x = u * 200_000;
        let x2 = (u * u) / 25_000;
        clamp_int(((x * CF_ONE) / (CF_ONE + (x2 * CF_ONE) / cf_tail(x2, 1))) / 10_000_000, 0, SCALE as int)
    }
}

/// `tanh(x / 50)` for `x` in `Dec` units; tanh is odd.
pub open spec fn tanh_units(u: int) -> int {
    if u < 0 {
        -tanh_pos_units(-u)
    } else {
        tanh_pos_units(u)
    }
}

proof fn lemma_cf_tail_pos(x2: int, k: int)
    requires
        x2 >= 0,
        0 <= k <= CF_DEPTH,
    ensures
        cf_tail(x2, k) >= (2 * k + 1) * CF_ONE,
        k <= CF_DEPTH ==> cf_tail(x2, k) <= (2 * k + 1) * CF_ONE + x2,
    decreases CF_DEPTH - k,
{
    if k < CF_DEPTH {
        lemma_cf_tail_pos(x2, k + 1);
        let t = cf_tail(x2, k + 1);
        assert(t >= CF_ONE) by (nonlinear_arith)
            requires t >= (2 * (k + 1) + 1) * CF_ONE, k >= 0, CF_ONE > 0;
        assert((x2 * CF_ONE) / t >= 0) by (nonlinear_arith)
            requires x2 >= 0, t > 0, CF_ONE > 0;
        assert((x2 * CF_ONE) / t <= x2) by (nonlinear_arith)
            requires x2 >= 0, t >= CF_ONE, CF_ONE > 0;
    }
}

fn tanh_pos(u: i64) -> (r: i64)
    requires
        u >= 0,
    ensures
        r == tanh_pos_units(u as int),
        0 <= r <= SCALE,
{
    if u >= 100_000_000_000 {
        return SCALE;
    }
    let m = u as i128;
    assert(0 <= m * m < 10_000_000_000_000_000_000_000) by (nonlinear_arith)
        requires 0 <= m < 100_000_000_000;
    let x: i128 = m * 200_000;
    let x2: i128 = (m * m) / 25_000;
    assert(0 <= x2 <= 400_000_000_000_000_000);
    let mut t: i128 = (2 * CF_DEPTH + 1) * CF_ONE;
    let mut k: i128 = CF_DEPTH;
    while k > 1
        invariant
            1 <= k <= CF_DEPTH,
            0 <= x2 <= 400_000_000_000_000_000,
            t == cf_tail(x2 as int, k as int),
            t >= CF_ONE,
            t <= (2 * CF_DEPTH + 1) * CF_ONE + x2,
        decreases k,
    {
        k = k - 1;
        proof {
            lemma_cf_tail_pos(x2 as int, k as int);
        }
        t = (2 * k + 1) * CF_ONE + (x2 * CF_ONE) / t;
    }
    proof {
        lemma_cf_tail_pos(x2 as int, 1);
        assert((x2 as int * CF_ONE as int) / (t as int) >= 0) by (nonlinear_arith)
            requires x2 >= 0, t > 0;
    }
    let den = CF_ONE + (x2 * CF_ONE) / t;
    let q = (x * CF_ONE) / den / 10_000_000;
    proof {
        assert((x as int * CF_ONE as int) / (den as int) >= 0) by (nonlinear_arith)
            requires x >= 0, den > 0;
    }
    if q > SCALE as i128 {
        SCALE
    } else {
        q as i64
    }
}

/// `tanh(x / 50)` for `x` given as a `Dec`.
pub fn tanh_over_50(x: Dec) -> (r: Dec)
    ensures
        r.units == tanh_units(x.units as int),
        -SCALE <= r.units <= SCALE,
        x.units >= 0 ==> 0 <= r.units,
{
    if x.units < 0 {
        let p = if x.units == i64::MIN {
            i64::MAX
        } else {
            -x.units
        };
        assert(tanh_pos_units(p as int) == tanh_pos_units(-(x.units as int)));
        Dec { units: -tanh_pos(p) }
    } else {
        Dec { units: tanh_pos(x.units) }
    }
}

/// Live phantom liquidity index `((1 - realization) + tanh(spoof count / 50) +
/// layering + 0.5 fleeting + 0.5 cancellation) / 4`, clamped to `[0, 1]`.
pub open spec fn live_pli_units(realization: int, spoofs: int, layering: int, fleeting: int, cancel: int) -> int {
    clamp_int(
        (2 * (SCALE - realization) + 2 * tanh_units(spoofs) + 2 * layering + fleeting + cancel) / 8,
        0,
        SCALE as int,
    )
}

/// Live phantom liquidity index from the engine's figures; always in `[0, 1]`.
pub fn live_phantom_liquidity_index(realization: Dec, phantom: &PhantomLiquidityMetrics) -> (r: Dec)
    ensures
        r.units == live_pli_units(
            realization.units as int,
            phantom.spoofing_events.units as int,
            phantom.layering_score.units as int,
            phantom.fleeting_order_ratio.units as int,
            phantom.cancellation_rate.units as int,
        ),
        0 <= r.units <= SCALE,
{
    let spoof = tanh_over_50(phantom.spoofing_events);
    let s = SCALE as i128;
    let total: i128 = 2 * (s - realization.units as i128) + 2 * (spoof.units as i128) + 2 * (
    phantom.layering_score.units as i128) + phantom.fleeting_order_ratio.units as i128
        + phantom.cancellation_rate.units as i128;
    let q = if total >= 0 {
        total / 8
    } else {
        -((-total + 7) / 8)
    };
    proof {
        let tt = total as int;
        if tt < 0 {
            assert(-((-tt + 7) / 8) == tt / 8) by (nonlinear_arith)
                requires tt < 0;
        }
    }
    if q < 0 {
        Dec::zero()
    } else if q > s {
        Dec { units: SCALE }
    } else {
        Dec { units: q as i64 }
    }
}

/// What the publisher reads from the engine in one short critical section.
#[derive(Clone, Debug)]
pub struct StreamingView {
    pub vpin: Dec,
    pub phantom: PhantomLiquidityMetrics,
    pub spreads: Vec<(String, Dec)>,
    pub volume: i128,
    pub realization: Dec,
}

/// What `read_streaming_view` copies from the engine.
pub open spec fn view_of(v: StreamingView, engine: StreamingMetricsEngine) -> bool {
    &&& v.vpin.units == crate::risk::mean_units(crate::risk::units_of(engine.vpin_buckets@))
    &&& crate::risk::dec_table(v.spreads@) == crate::streaming::spreads_of(table_view(engine.l2_snapshots@))
    &&& v.volume == engine.total_volume_traded
    &&& v.phantom.layering_score == engine.phantom_liquidity_tracker.layering_score
    &&& v.phantom.spoofing_events == engine.phantom_liquidity_tracker.spoofing_events
    &&& v.phantom.fleeting_order_ratio.units == crate::streaming::rate(
        engine.order_flow_analyzer.fleeting_orders as int,
        engine.order_flow_analyzer.total_orders as int,
    )
    &&& v.phantom.cancellation_rate.units == crate::streaming::rate(
        engine.order_flow_analyzer.cancellation_events as int,
        engine.order_flow_analyzer.total_orders as int,
    )
    &&& v.phantom.avg_order_lifetime_ms.units == crate::streaming::rate(
        crate::streaming::sum_u64(engine.order_flow_analyzer.order_lifetimes@),
        engine.order_flow_analyzer.order_lifetimes@.len() as int,
    )
    &&& v.realization.units == if engine.phantom_liquidity_tracker.total_depth_promises == 0 {
        0
    } else {
        clamp_int(
            div_units_wide(
                engine.phantom_liquidity_tracker.realized_depth as int,
                engine.phantom_liquidity_tracker.total_depth_promises as int,
            ),
            0,
            SCALE as int,
        )
    }
}

/// Copies the engine's live figures.
pub fn read_streaming_view(engine: &StreamingMetricsEngine) -> (r: StreamingView)
    requires
        engine.wf(),
    ensures
        view_of(r, *engine),
        0 <= r.vpin.units <= SCALE,
        0 <= r.realization.units <= SCALE,
        -WIDE_MAX <= r.volume,
{
    let (volume, _) = engine.get_volume_metrics();
    StreamingView {
        vpin: engine.get_current_vpin(),
        phantom: engine.get_phantom_liquidity_metrics(),
        spreads: engine.get_real_time_spreads(),
        volume,
        realization: engine.get_depth_realisation_ratio(),
    }
}

/// The batch spreads with each live spread written over them, in order.
pub open spec fn overlay(t: Seq<(Seq<char>, Dec)>, live: Seq<(String, Dec)>) -> Seq<(Seq<char>, Dec)>
    decreases live.len(),
{
    if live.len() == 0 {
        t
    } else {
        upsert_spec(overlay(t, live.drop_last()), live.last().0@, live.last().1)
    }
}

/// Capacity utilization `1 - idle / tvl` (saturating), 0 when tvl is zero.
pub open spec fn live_utilization(v: VaultSummary) -> int {
    if v.tvl.units == 0 {
        0
    } else {
        clamp_dec(
            SCALE - div_units_wide(
                if v.idle_liquidity == i128::MIN {
                    -(WIDE_MAX as int)
                } else {
                    v.idle_liquidity as int
                },
                v.tvl.units as int,
            ),
        )
    }
}

/// What `merge_streaming` gives from batch snapshot `b`, live view `v` and
/// vault summary `vs`.
pub open spec fn merged(r: GlobalMetrics, b: GlobalMetrics, v: StreamingView, vs: VaultSummary) -> bool {
    &&& r.risk_metrics.vpin_score == v.vpin
    &&& r.liquidity_metrics.fleeting_order_ratio == v.phantom.fleeting_order_ratio
    &&& r.liquidity_metrics.avg_order_lifetime_ms == v.phantom.avg_order_lifetime_ms
    &&& r.liquidity_metrics.layering_detection_score == v.phantom.layering_score
    &&& r.liquidity_metrics.spoofing_detection_index == v.phantom.spoofing_events
    &&& r.liquidity_metrics.cancel_rate == v.phantom.cancellation_rate
    &&& r.liquidity_metrics.liquidity_realization_rate == v.realization
    &&& table_view(r.liquidity_metrics.bid_ask_spread_bps@) == overlay(
        table_view(b.liquidity_metrics.bid_ask_spread_bps@),
        v.spreads@,
    )
    &&& r.performance_metrics.total_volume == sat(b.performance_metrics.total_volume + v.volume)
    &&& r.risk_metrics.phantom_liquidity_index.units == live_pli_units(
        v.realization.units as int,
        v.phantom.spoofing_events.units as int,
        v.phantom.layering_score.units as int,
        v.phantom.fleeting_order_ratio.units as int,
        v.phantom.cancellation_rate.units as int,
    )
    &&& r.vault_metrics.tvl == vs.tvl
    &&& r.vault_metrics.equity == vs.equity
    &&& r.vault_metrics.apr == vs.apr
    &&& r.vault_metrics.deployed_liquidity == vs.deployed_liquidity
    &&& r.vault_metrics.idle_liquidity == vs.idle_liquidity
    &&& r.vault_metrics.utilization_rate.units == live_utilization(vs)
    &&& r.risk_metrics.liquidation_risk_score == b.risk_metrics.liquidation_risk_score
    &&& r.risk_metrics.cascade_risk_score == b.risk_metrics.cascade_risk_score
    &&& r.risk_metrics.max_drawdown == b.risk_metrics.max_drawdown
    &&& r.risk_metrics.position_concentration == b.risk_metrics.position_concentration
    &&& r.risk_metrics.cross_exchange_manipulation_score == b.risk_metrics.cross_exchange_manipulation_score
    &&& r.performance_metrics.daily_pnl == b.performance_metrics.daily_pnl
    &&& r.performance_metrics.unrealized_pnl == b.performance_metrics.unrealized_pnl
    &&& r.performance_metrics.sharpe_ratio == b.performance_metrics.sharpe_ratio
    &&& r.performance_metrics.sortino_ratio == b.performance_metrics.sortino_ratio
    &&& r.performance_metrics.realized_spread == b.performance_metrics.realized_spread
    &&& r.performance_metrics.adverse_selection_cost == b.performance_metrics.adverse_selection_cost
    &&& r.liquidity_metrics.depth_at_50bps == b.liquidity_metrics.depth_at_50bps
    &&& r.liquidity_metrics.order_book_imbalance == b.liquidity_metrics.order_book_imbalance
    &&& r.liquidity_metrics.fill_probability_by_distance == b.liquidity_metrics.fill_probability_by_distance
    &&& r.last_update == b.last_update
}

/// Overlays the live view on a batch snapshot. VPIN, fleeting ratio, average
/// lifetime, layering score, spoof count, cancellation rate, realization rate
/// and per-coin spreads are replaced by the live values; the live volume is
/// added to the batch volume; the phantom liquidity index takes the live
/// formula; vault figures come from `vault_summary`. Everything else keeps the
/// batch value.
pub fn merge_streaming(batch: GlobalMetrics, view: &StreamingView, vault_summary: &VaultSummary) -> (r: GlobalMetrics)
    requires
        unique_keys(batch.liquidity_metrics.bid_ask_spread_bps@),
        -WIDE_MAX <= batch.performance_metrics.total_volume,
        -WIDE_MAX <= view.volume,
    ensures
        merged(r, batch, *view, *vault_summary),
        0 <= r.risk_metrics.phantom_liquidity_index.units <= SCALE,
        unique_keys(r.liquidity_metrics.bid_ask_spread_bps@),
{
    let mut m = batch;
    let mut i: usize = 0;
    while i < view.spreads.len()
        invariant
            i <= view.spreads@.len(),
            unique_keys(m.liquidity_metrics.bid_ask_spread_bps@),
            table_view(m.liquidity_metrics.bid_ask_spread_bps@) == overlay(
                table_view(batch.liquidity_metrics.bid_ask_spread_bps@),
                view.spreads@.subrange(0, i as int),
            ),
            m.vault_metrics == batch.vault_metrics,
            m.performance_metrics == batch.performance_metrics,
            m.risk_metrics == batch.risk_metrics,
            m.last_update == batch.last_update,
            m.liquidity_metrics.depth_at_50bps == batch.liquidity_metrics.depth_at_50bps,
            m.liquidity_metrics.order_book_imbalance == batch.liquidity_metrics.order_book_imbalance,
            m.liquidity_metrics.fill_probability_by_distance
                == batch.liquidity_metrics.fill_probability_by_distance,
        decreases view.spreads@.len() - i,
    {
        assert(view.spreads@.subrange(0, i + 1).drop_last() == view.spreads@.subrange(0, i as int));
        upsert(&mut m.liquidity_metrics.bid_ask_spread_bps, &view.spreads[i].0, view.spreads[i].1);
        i = i + 1;
    }
    assert(view.spreads@.subrange(0, i as int) == view.spreads@);
    let p = &view.phantom;
    m.risk_metrics.vpin_score = view.vpin;
    m.liquidity_metrics.fleeting_order_ratio = p.fleeting_order_ratio;
    m.liquidity_metrics.avg_order_lifetime_ms = p.avg_order_lifetime_ms;
    m.liquidity_metrics.layering_detection_score = p.layering_score;
    m.liquidity_metrics.spoofing_detection_index = p.spoofing_events;
    m.liquidity_metrics.cancel_rate = p.cancellation_rate;
    m.liquidity_metrics.liquidity_realization_rate = view.realization;
    m.risk_metrics.phantom_liquidity_index = live_phantom_liquidity_index(view.realization, p);
    m.performance_metrics.total_volume = sat_add(m.performance_metrics.total_volume, view.volume);
    m.vault_metrics.tvl = vault_summary.tvl;
    m.vault_metrics.equity = vault_summary.equity;
    m.vault_metrics.apr = vault_summary.apr;
    m.vault_metrics.deployed_liquidity = vault_summary.deployed_liquidity;
    m.vault_metrics.idle_liquidity = vault_summary.idle_liquidity;
    m.vault_metrics.utilization_rate = if vault_summary.tvl.units == 0 {
        Dec::zero()
    } else {
        let idle = if vault_summary.idle_liquidity == i128::MIN {
            -WIDE_MAX
        } else {
            vault_summary.idle_liquidity
        };
        let share = div_wide(idle, vault_summary.tvl.units as i128);
        let u = SCALE as i128 - share.units as i128;
        if u > DEC_MAX as i128 {
            Dec { units: DEC_MAX }
        } else {
            Dec { units: u as i64 }
        }
    };
    m
}

/// The snapshot the batch calculators build from the fetched data, stamped `now`.
pub open spec fn batch_snapshot(
    r: GlobalMetrics,
    vs: VaultSummary,
    us: UserState,
    universe: Seq<AssetInfo>,
    fills: Seq<Fill>,
    books: Seq<L2Snapshot>,
    now: i64,
) -> bool {
    &&& vault_metrics_of(r.vault_metrics, vs, us)
    &&& performance_of(r.performance_metrics, fills, vs)
    &&& liquidity_of(r.liquidity_metrics, books, universe)
    &&& risk_of(r.risk_metrics, vs, fills, r.liquidity_metrics, universe)
    &&& r.last_update == Some(now)
}

/// One update cycle over freshly fetched data: the batch calculators build a
/// complete snapshot stamped `now` (milliseconds); with an engine attached its
/// live view is overlaid, so the published VPIN is the engine's whatever the
/// fills give.
pub fn update_metrics(
    vault_summary: &VaultSummary,
    user_state: &UserState,
    meta: &Meta,
    fills: &Vec<Fill>,
    l2_snapshots: &Vec<L2Snapshot>,
    engine: Option<&StreamingMetricsEngine>,
    now: i64,
) -> (r: GlobalMetrics)
    requires
        fills_wf(fills@),
        engine matches Some(e) ==> e.wf(),
    ensures
        engine is None ==> batch_snapshot(
            r,
            *vault_summary,
            *user_state,
            meta.universe@,
            fills@,
            l2_snapshots@,
            now,
        ),
        engine matches Some(e) ==> exists|b: GlobalMetrics, v: StreamingView|
            #[trigger] merged(r, b, v, *vault_summary) && view_of(v, *e) && batch_snapshot(
                b,
                *vault_summary,
                *user_state,
                meta.universe@,
                fills@,
                l2_snapshots@,
                now,
            ),
        r.last_update == Some(now),
        engine matches Some(e) ==> r.risk_metrics.vpin_score.units == crate::risk::mean_units(
            crate::risk::units_of(e.vpin_buckets@),
        ),
        0 <= r.risk_metrics.vpin_score.units <= SCALE,
        0 <= r.risk_metrics.phantom_liquidity_index.units <= SCALE,
        engine is None ==> unique_keys(r.liquidity_metrics.bid_ask_spread_bps@),
        engine is None ==> -WIDE_MAX <= r.performance_metrics.total_volume,
{
    let vault_metrics = calculate_vault_metrics(vault_summary, user_state);
    let performance_metrics = calculate_performance_metrics(fills, vault_summary);
    let liquidity_metrics = calculate_liquidity_metrics(l2_snapshots, fills, meta);
    let risk_metrics = calculate_risk_metrics(vault_summary, fills, &liquidity_metrics, meta);
    let batch = GlobalMetrics {
        vault_metrics,
        performance_metrics,
        liquidity_metrics,
        risk_metrics,
        last_update: Some(now),
    };
    let ghost b = batch;
    match engine {
        Some(e) => {
            let view = read_streaming_view(e);
            let r = merge_streaming(batch, &view, vault_summary);
            assert(merged(r, b, view, *vault_summary) && view_of(view, *e));
            r
        },
        None => batch,
    }
}

} // verus!
