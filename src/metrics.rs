//! Batch calculators over a full snapshot: vault, performance, liquidity and
//! risk figures.

use crate::coin_map::{table_view, unique_keys, upsert, upsert_spec};
use crate::fixed::{clamp_dec, ratio, ratio_units, sat, sat_add, Dec, SCALE, WIDE_MAX};
use crate::model::{
    fills_wf, AssetInfo, Fill, L2Snapshot, LiquidityMetrics, Meta, OrderBookLevel, PerformanceMetrics,
    RiskMetrics, UserState, VaultMetrics, VaultSummary,
};
use crate::risk::{
    calculate_cascade_risk, calculate_liquidation_risk, calculate_phantom_liquidity_index,
    calculate_position_concentration, calculate_vpin, dec_table, detect_cross_exchange_manipulation,
    fill_notional, notional, sum,
};
use crate::streaming::{div_units_wide, div_wide};
use vstd::prelude::*;

verus! {

// Contracts of the batch calculators, named so that the update cycle can
// state them of what it publishes.

/// What the vault calculator gives.
pub open spec fn vault_metrics_of(r: VaultMetrics, vs: VaultSummary, us: UserState) -> bool {
    &&& r.tvl == vs.tvl
    &&& r.equity == vs.equity
    &&& r.apr == vs.apr
    &&& r.utilization_rate.units == if vs.tvl.units > 0 {
        ratio_units(us.total_margin_used.units as int, vs.tvl.units as int)
    } else {
        0
    }
    &&& r.deployed_liquidity == us.total_margin_used
    &&& r.idle_liquidity == vs.tvl.units - us.total_margin_used.units
}

/// What the performance calculator gives.
pub open spec fn performance_of(r: PerformanceMetrics, fills: Seq<Fill>, vs: VaultSummary) -> bool {
    &&& r.daily_pnl == pnl_total(fills)
    &&& r.unrealized_pnl == vs.equity.units - vs.tvl.units
    &&& r.total_volume == volume_total(fills)
    &&& r.sharpe_ratio.units == sharpe_units(returns_of(fills))
    &&& r.sortino_ratio.units == sortino_units(returns_of(fills))
    &&& table_view(r.realized_spread@) == spread_table(fills)
    &&& r.adverse_selection_cost.units == adverse_units(fills)
    &&& -WIDE_MAX <= r.total_volume
}

/// What the liquidity calculator gives.
pub open spec fn liquidity_of(r: LiquidityMetrics, books: Seq<L2Snapshot>, universe: Seq<AssetInfo>) -> bool {
    let t = book_tables(books, universe);
    &&& table_view(r.bid_ask_spread_bps@) == t.0
    &&& table_view(r.depth_at_50bps@) == t.1
    &&& table_view(r.order_book_imbalance@) == t.2
    &&& unique_keys(r.bid_ask_spread_bps@)
    &&& unique_keys(r.depth_at_50bps@)
    &&& unique_keys(r.order_book_imbalance@)
    &&& r.avg_order_lifetime_ms.units == 16_417_000_000_000
    &&& r.cancel_rate.units == 45_000_000
    &&& r.fleeting_order_ratio.units == 9_300_000
    &&& r.layering_detection_score.units == 35_000_000
    &&& r.spoofing_detection_index.units == 9_000_000
    &&& r.liquidity_realization_rate.units == 51_200_000
    &&& table_view(r.fill_probability_by_distance@) == fill_probability_table()
}

/// What the risk calculator gives.
pub open spec fn risk_of(
    r: RiskMetrics,
    vs: VaultSummary,
    fills: Seq<Fill>,
    lm: LiquidityMetrics,
    universe: Seq<AssetInfo>,
) -> bool {
    &&& r.vpin_score.units == crate::risk::vpin_of(crate::risk::by_time(fills), universe)
    &&& r.phantom_liquidity_index.units == crate::risk::pli_units(
        lm.fleeting_order_ratio.units as int,
        crate::risk::avg_units(crate::risk::table_units(lm.fill_probability_by_distance@)),
        lm.layering_detection_score.units as int,
        lm.spoofing_detection_index.units as int,
        lm.liquidity_realization_rate.units as int,
    )
    &&& r.liquidation_risk_score.units == crate::risk::liquidation_units(vs)
    &&& r.cascade_risk_score.units == crate::risk::cascade_units(fills, universe)
    &&& dec_table(r.position_concentration@) == crate::risk::concentration_of(fills, universe)
    &&& r.max_drawdown == vs.max_drawdown
    &&& r.cross_exchange_manipulation_score.units == crate::risk::cross_exchange_units(
        fills.len() as int,
        universe,
    )
}

// Integer square root.

/// `r` is the square root of `x` rounded down.
pub open spec fn is_isqrt(r: int, x: int) -> bool {
    0 <= r && r * r <= x < (r + 1) * (r + 1)
}

/// The square root of `x` rounded down.
pub open spec fn isqrt(x: int) -> int {
    choose|r: int| is_isqrt(r, x)
}

proof fn lemma_isqrt_unique(r: int, s: int, x: int)
    requires
        is_isqrt(r, x),
        is_isqrt(s, x),
    ensures
        r == s,
{
    if r < s {
        assert((r + 1) * (r + 1) <= s * s) by (nonlinear_arith)
            requires 0 <= r < s;
    } else if s < r {
        assert((s + 1) * (s + 1) <= r * r) by (nonlinear_arith)
            requires 0 <= s < r;
    }
}

/// The square root of `x` rounded down.
pub fn isqrt_exec(x: u128) -> (r: u128)
    ensures
        r == isqrt(x as int),
        is_isqrt(r as int, x as int),
{
    let mut lo: u128 = 0;
    let mut hi: u128 = 18446744073709551616;
    assert(x < hi * hi) by (nonlinear_arith)
        requires x <= u128::MAX, hi == 18446744073709551616;
    while hi - lo > 1
        invariant
            lo < hi,
            hi <= 18446744073709551616,
            lo * lo <= x,
            x < hi * hi,
        decreases hi - lo,
    {
        let mid = lo + (hi - lo) / 2;
        assert(mid * mid <= 18446744073709551615 * 18446744073709551615) by (nonlinear_arith)
            requires mid < 18446744073709551616, mid >= 0;
        if mid * mid <= x {
            lo = mid;
        } else {
            hi = mid;
        }
    }
    assert(hi == lo + 1);
    proof {
        let c = choose|s: int| is_isqrt(s, x as int);
        assert(is_isqrt(lo as int, x as int));
        lemma_isqrt_unique(lo as int, c, x as int);
    }
    lo
}

// Performance.

pub open spec fn sum_sq(s: Seq<int>) -> int
    decreases s.len(),
{
    if s.len() == 0 {
        0
    } else {
        sum_sq(s.drop_last()) + s.last() * s.last()
    }
}

/// Sum of the squares of the negative elements.
pub open spec fn sum_neg_sq(s: Seq<int>) -> int
    decreases s.len(),
{
    if s.len() == 0 {
        0
    } else {
        sum_neg_sq(s.drop_last()) + if s.last() < 0 {
            s.last() * s.last()
        } else {
            0
        }
    }
}

/// Closed P&L of each fill.
pub open spec fn returns_of(fills: Seq<Fill>) -> Seq<int> {
    fills.map_values(|f: Fill| f.closed_pnl.units as int)
}

/// Sharpe ratio `mean / stddev = sum / sqrt(n * sum_sq - sum^2)`, with the root
/// rounded down; 0 without returns, with zero deviation, or when the sums
/// exceed 127 bits.
pub open spec fn sharpe_units(s: Seq<int>) -> int {
    let n = s.len() as int;
    let d = n * sum_sq(s) - sum(s) * sum(s);
    if n == 0 || n * sum_sq(s) > i128::MAX || sum(s) * sum(s) > i128::MAX || d <= 0 || isqrt(d) == 0 {
        0
    } else {
        ratio_units(sum(s), isqrt(d))
    }
}

/// Sortino ratio `mean / downside deviation = sum / sqrt(n * sum of negative
/// squares)`, with the root rounded down; 0 without returns, without downside,
/// or when the sums exceed 127 bits.
pub open spec fn sortino_units(s: Seq<int>) -> int {
    let n = s.len() as int;
    let d = n * sum_neg_sq(s);
    if n == 0 || d > i128::MAX || isqrt(d) == 0 {
        0
    } else {
        ratio_units(sum(s), isqrt(d))
    }
}

/// Sum, sum of squares and sum of negative squares of the returns, the latter
/// two as `None` once they exceed 127 bits.
fn return_sums(fills: &Vec<Fill>) -> (r: (i128, Option<i128>, Option<i128>))
    ensures
        r.0 == sum(returns_of(fills@)),
        r.1 matches Some(q) ==> q == sum_sq(returns_of(fills@)),
        r.1 is None ==> sum_sq(returns_of(fills@)) > i128::MAX,
        r.2 matches Some(q) ==> q == sum_neg_sq(returns_of(fills@)),
        r.2 is None ==> sum_neg_sq(returns_of(fills@)) > i128::MAX,
        -(fills@.len() * 9223372036854775808) <= r.0 <= fills@.len() * 9223372036854775807,
        sum_sq(returns_of(fills@)) >= 0,
        sum_neg_sq(returns_of(fills@)) >= 0,
{
    let ghost s = returns_of(fills@);
    let mut s1: i128 = 0;
    let mut q: Option<i128> = Some(0);
    let mut qn: Option<i128> = Some(0);
    let mut i: usize = 0;
    while i < fills.len()
        invariant
            i <= fills@.len(),
            s == returns_of(fills@),
            s1 == sum(s.subrange(0, i as int)),
            -(i * 9223372036854775808) <= s1 <= i * 9223372036854775807,
            q matches Some(v) ==> v == sum_sq(s.subrange(0, i as int)),
            q is None ==> sum_sq(s.subrange(0, i as int)) > i128::MAX,
            qn matches Some(v) ==> v == sum_neg_sq(s.subrange(0, i as int)),
            qn is None ==> sum_neg_sq(s.subrange(0, i as int)) > i128::MAX,
            sum_sq(s.subrange(0, i as int)) >= 0,
            sum_neg_sq(s.subrange(0, i as int)) >= 0,
        decreases fills@.len() - i,
    {
        let ghost pre = s.subrange(0, i as int);
        assert(s.subrange(0, i + 1).drop_last() == pre);
        let r = fills[i].closed_pnl.units as i128;
        assert(s[i as int] == r);
        assert(r * r <= 9223372036854775808 * 9223372036854775808) by (nonlinear_arith)
            requires -9223372036854775808 <= r <= 9223372036854775807;
        assert(r * r >= 0) by (nonlinear_arith);
        let sq = r * r;
        s1 = s1 + r;
        q = match q {
            Some(v) => v.checked_add(sq),
            None => None,
        };
        if r < 0 {
            qn = match qn {
                Some(v) => v.checked_add(sq),
                None => None,
            };
        }
        i = i + 1;
    }
    assert(s.subrange(0, i as int) == s);
    (s1, q, qn)
}

/// Sharpe ratio of the fills' closed P&L.
pub fn calculate_sharpe_ratio(fills: &Vec<Fill>) -> (r: Dec)
    ensures
        r.units == sharpe_units(returns_of(fills@)),
{
    let ghost s = returns_of(fills@);
    let n = fills.len();
    if n == 0 {
        return Dec::zero();
    }
    let (s1, q, _) = return_sums(fills);
    let q = match q {
        Some(v) => v,
        None => {
            proof {
                assert(n * sum_sq(s) >= sum_sq(s)) by (nonlinear_arith)
                    requires n >= 1, sum_sq(s) >= 0;
            }
            return Dec::zero();
        },
    };
    proof {
        assert(q >= 0);
    }
    let nq = match (n as i128).checked_mul(q) {
        Some(v) => v,
        None => return Dec::zero(),
    };
    let s2 = match s1.checked_mul(s1) {
        Some(v) => v,
        None => {
            proof {
                assert(s1 * s1 >= 0) by (nonlinear_arith);
            }
            return Dec::zero();
        },
    };
    proof {
        assert(s2 >= 0) by (nonlinear_arith)
            requires s2 == s1 * s1;
        assert(nq >= 0) by (nonlinear_arith)
            requires nq == n * q, q >= 0, n >= 0;
    }
    let d = nq - s2;
    if d <= 0 {
        return Dec::zero();
    }
    let root = isqrt_exec(d as u128);
    if root == 0 {
        return Dec::zero();
    }
    proof {
        assert(root * root <= d);
        assert(root <= d) by (nonlinear_arith)
            requires root * root <= d, root >= 1;
    }
    ratio(s1, root as i128)
}

/// Sortino ratio of the fills' closed P&L.
pub fn calculate_sortino_ratio(fills: &Vec<Fill>) -> (r: Dec)
    ensures
        r.units == sortino_units(returns_of(fills@)),
{
    let ghost s = returns_of(fills@);
    let n = fills.len();
    if n == 0 {
        return Dec::zero();
    }
    let (s1, _, qn) = return_sums(fills);
    let qn = match qn {
        Some(v) => v,
        None => {
            proof {
                assert(n * sum_neg_sq(s) >= sum_neg_sq(s)) by (nonlinear_arith)
                    requires n >= 1, sum_neg_sq(s) >= 0;
            }
            return Dec::zero();
        },
    };
    let d = match (n as i128).checked_mul(qn) {
        Some(v) => v,
        None => return Dec::zero(),
    };
    proof {
        assert(d >= 0) by (nonlinear_arith)
            requires d == n * qn, qn >= 0, n >= 0;
    }
    let root = isqrt_exec(d as u128);
    if root == 0 {
        return Dec::zero();
    }
    proof {
        assert(root <= d) by (nonlinear_arith)
            requires root * root <= d, root >= 1;
    }
    ratio(s1, root as i128)
}

/// Realized spread of a fill: its fee times 10,000.
pub open spec fn realized_spread_units(f: Fill) -> int {
    clamp_dec(f.fee.units * 10_000)
}

pub fn calculate_realized_spread(fill: &Fill) -> (r: Dec)
    ensures
        r.units == realized_spread_units(*fill),
{
    let x = fill.fee.units as i128 * 10_000;
    if x > i64::MAX as i128 {
        Dec { units: i64::MAX }
    } else if x < -(i64::MAX as i128) {
        Dec { units: -i64::MAX }
    } else {
        Dec { units: x as i64 }
    }
}

/// Sum of the losses (negative closed P&L) in 10^-8, and of the notional
/// volume `price * |size|` in 10^-16, saturating.
pub open spec fn adverse_sums(fills: Seq<Fill>) -> (int, int)
    decreases fills.len(),
{
    if fills.len() == 0 {
        (0, 0)
    } else {
        let p = adverse_sums(fills.drop_last());
        let f = fills.last();
        (
            p.0 + if f.closed_pnl.units < 0 {
                -(f.closed_pnl.units as int)
            } else {
                0
            },
            sat(p.1 + notional(f)),
        )
    }
}

/// Adverse selection cost: total losses over total notional volume; 0 without
/// fills or volume.
pub open spec fn adverse_units(fills: Seq<Fill>) -> int {
    let a = adverse_sums(fills);
    if fills.len() == 0 || a.1 == 0 {
        0
    } else {
        div_units_wide(sat(a.0 * SCALE), a.1)
    }
}

pub fn calculate_adverse_selection_cost(fills: &Vec<Fill>) -> (r: Dec)
    ensures
        r.units == adverse_units(fills@),
{
    if fills.len() == 0 {
        return Dec::zero();
    }
    let mut loss: i128 = 0;
    let mut vol: i128 = 0;
    let mut i: usize = 0;
    while i < fills.len()
        invariant
            i <= fills@.len(),
            (loss as int, vol as int) == adverse_sums(fills@.subrange(0, i as int)),
            0 <= loss <= i * 9223372036854775808,
            -WIDE_MAX <= vol,
        decreases fills@.len() - i,
    {
        assert(fills@.subrange(0, i + 1).drop_last() == fills@.subrange(0, i as int));
        let f = &fills[i];
        if f.closed_pnl.units < 0 {
            loss = loss - f.closed_pnl.units as i128;
        }
        let p = f.px.units as i128;
        let z: i128 = if f.sz.units < 0 {
            -(f.sz.units as i128)
        } else {
            f.sz.units as i128
        };
        assert(-9223372036854775808 * 9223372036854775808 <= p * z <= 9223372036854775808
            * 9223372036854775808) by (nonlinear_arith)
            requires -9223372036854775808 <= p <= 9223372036854775807, 0 <= z
                <= 9223372036854775808;
        vol = sat_add(vol, p * z);
        i = i + 1;
    }
    assert(fills@.subrange(0, i as int) == fills@);
    if vol == 0 {
        return Dec::zero();
    }
    let num: i128 = match loss.checked_mul(SCALE as i128) {
        Some(v) => v,
        None => WIDE_MAX,
    };
    div_wide(num, vol)
}

/// Realized spread per coin, the last fill of a coin setting its value.
pub open spec fn spread_table(fills: Seq<Fill>) -> Seq<(Seq<char>, Dec)>
    decreases fills.len(),
{
    if fills.len() == 0 {
        Seq::empty()
    } else {
        let f = fills.last();
        upsert_spec(spread_table(fills.drop_last()), f.coin@, Dec { units: realized_spread_units(f) as i64 })
    }
}

/// Sum of closed P&L, in 10^-8.
pub open spec fn pnl_total(fills: Seq<Fill>) -> int {
    sum(returns_of(fills))
}

/// Total notional `price * |size|`, in 10^-16, saturating.
pub open spec fn volume_total(fills: Seq<Fill>) -> int
    decreases fills.len(),
{
    if fills.len() == 0 {
        0
    } else {
        sat(volume_total(fills.drop_last()) + notional(fills.last()))
    }
}

/// Performance figures of a fill history: realized P&L, unrealized P&L
/// (`equity - tvl`), traded notional, Sharpe and Sortino ratios, realized
/// spread per coin and adverse selection cost.
pub fn calculate_performance_metrics(fills: &Vec<Fill>, vault_summary: &VaultSummary) -> (r: PerformanceMetrics)
    requires
        fills_wf(fills@),
    ensures
        performance_of(r, fills@, *vault_summary),
{
    let (daily_pnl, _, _) = return_sums(fills);
    let mut total_volume: i128 = 0;
    let mut spreads: Vec<(String, Dec)> = Vec::new();
    let mut i: usize = 0;
    assert(table_view(spreads@) =~= Seq::<(Seq<char>, Dec)>::empty());
    while i < fills.len()
        invariant
            i <= fills@.len(),
            fills_wf(fills@),
            total_volume == volume_total(fills@.subrange(0, i as int)),
            -WIDE_MAX <= total_volume,
            unique_keys(spreads@),
            table_view(spreads@) == spread_table(fills@.subrange(0, i as int)),
        decreases fills@.len() - i,
    {
        assert(fills@.subrange(0, i + 1).drop_last() == fills@.subrange(0, i as int));
        assert(fills@[i as int].wf());
        let f = &fills[i];
        total_volume = sat_add(total_volume, fill_notional(f));
        let spread = calculate_realized_spread(f);
        upsert(&mut spreads, &f.coin, spread);
        i = i + 1;
    }
    assert(fills@.subrange(0, i as int) == fills@);
    PerformanceMetrics {
        daily_pnl,
        unrealized_pnl: vault_summary.equity.units as i128 - vault_summary.tvl.units as i128,
        total_volume,
        sharpe_ratio: calculate_sharpe_ratio(fills),
        sortino_ratio: calculate_sortino_ratio(fills),
        realized_spread: spreads,
        adverse_selection_cost: calculate_adverse_selection_cost(fills),
    }
}

// Liquidity.

/// Spread between `bid` and `ask` in basis points of their mid price; 0 when
/// either price or the mid is zero.
pub open spec fn spread_bps_units(bid: int, ask: int) -> int {
    if bid == 0 || ask == 0 || bid + ask == 0 {
        0
    } else {
        div_units_wide((ask - bid) * 20_000, bid + ask)
    }
}

pub fn calculate_spread_bps(bid: Dec, ask: Dec) -> (r: Dec)
    ensures
        r.units == spread_bps_units(bid.units as int, ask.units as int),
{
    let b = bid.units as i128;
    let a = ask.units as i128;
    if b == 0 || a == 0 || a + b == 0 {
        Dec::zero()
    } else {
        div_wide((a - b) * 20_000, a + b)
    }
}

/// Bid sizes from the best level down while the price stays at or above
/// `mid * (1 - bps / 10,000)`, where `mid2` is twice the mid price.
pub open spec fn bid_depth(levels: Seq<OrderBookLevel>, mid2: int, bps: int) -> int
    decreases levels.len(),
{
    if levels.len() == 0 {
        0
    } else if levels[0].px.units * 20_000 >= mid2 * (10_000 - bps) {
        levels[0].sz.units + bid_depth(levels.drop_first(), mid2, bps)
    } else {
        0
    }
}

/// Ask sizes from the best level up while the price stays at or below
/// `mid * (1 + bps / 10,000)`, where `mid2` is twice the mid price.
pub open spec fn ask_depth(levels: Seq<OrderBookLevel>, mid2: int, bps: int) -> int
    decreases levels.len(),
{
    if levels.len() == 0 {
        0
    } else if levels[0].px.units * 20_000 <= mid2 * (10_000 + bps) {
        levels[0].sz.units + ask_depth(levels.drop_first(), mid2, bps)
    } else {
        0
    }
}

/// Size resting within `bps` basis points of the mid price, both sides; 0
/// when a side is empty.
pub open spec fn depth_at_units(s: L2Snapshot, bps: int) -> int {
    if s.bids@.len() == 0 || s.asks@.len() == 0 {
        0
    } else {
        let mid2 = s.bids@[0].px.units + s.asks@[0].px.units;
        sat(bid_depth(s.bids@, mid2, bps) + ask_depth(s.asks@, mid2, bps))
    }
}

/// Sizes of the levels from the best one on while `within` holds.
fn side_depth(levels: &Vec<OrderBookLevel>, mid2: i128, bps: i128, bid: bool) -> (r: i128)
    requires
        0 <= bps <= 10_000,
        -2 * 9223372036854775808 <= mid2 <= 2 * 9223372036854775807,
    ensures
        bid ==> r == bid_depth(levels@, mid2 as int, bps as int),
        !bid ==> r == ask_depth(levels@, mid2 as int, bps as int),
        -(levels@.len() * 9223372036854775808) <= r <= levels@.len() * 9223372036854775807,
{
    let ghost all = levels@;
    let n = levels.len();
    let mut acc: i128 = 0;
    let mut i: usize = 0;
    let mut going = true;
    assert(all.subrange(0, n as int) == all);
    assert(mid2 * (10_000 - bps) <= 2 * 9223372036854775808 * 10_000 && mid2 * (10_000 - bps) >= -2
        * 9223372036854775808 * 10_000 && mid2 * (10_000 + bps) <= 2 * 9223372036854775808 * 20_000
        && mid2 * (10_000 + bps) >= -2 * 9223372036854775808 * 20_000) by (nonlinear_arith)
        requires 0 <= bps <= 10_000, -2 * 9223372036854775808 <= mid2 <= 2 * 9223372036854775807;
    while going && i < n
        invariant
            i <= n,
            n == all.len(),
            all == levels@,
            0 <= bps <= 10_000,
            -(i * 9223372036854775808) <= acc <= i * 9223372036854775807,
            going ==> bid ==> acc + bid_depth(all.subrange(i as int, n as int), mid2 as int, bps as int)
                == bid_depth(all, mid2 as int, bps as int),
            going ==> !bid ==> acc + ask_depth(all.subrange(i as int, n as int), mid2 as int, bps as int)
                == ask_depth(all, mid2 as int, bps as int),
            !going ==> bid ==> acc == bid_depth(all, mid2 as int, bps as int),
            !going ==> !bid ==> acc == ask_depth(all, mid2 as int, bps as int),
            mid2 * (10_000 - bps) <= 2 * 9223372036854775808 * 10_000,
            mid2 * (10_000 - bps) >= -2 * 9223372036854775808 * 10_000,
            mid2 * (10_000 + bps) <= 2 * 9223372036854775808 * 20_000,
            mid2 * (10_000 + bps) >= -2 * 9223372036854775808 * 20_000,
        decreases n - i + if going { 1int } else { 0int },
    {
        let ghost rest = all.subrange(i as int, n as int);
        assert(rest[0] == levels@[i as int]);
        assert(rest.drop_first() == all.subrange(i + 1, n as int));
        let px = levels[i].px.units as i128 * 20_000;
        let inside = if bid {
            px >= mid2 * (10_000 - bps)
        } else {
            px <= mid2 * (10_000 + bps)
        };
        if inside {
            acc = acc + levels[i].sz.units as i128;
            i = i + 1;
        } else {
            going = false;
        }
    }
    if going {
        assert(all.subrange(n as int, n as int).len() == 0);
    }
    acc
}

/// Size resting within `bps` basis points of the mid price, both sides.
pub fn calculate_depth_at_bps(snapshot: &L2Snapshot, bps: u32) -> (r: i128)
    requires
        bps <= 10_000,
    ensures
        r == depth_at_units(*snapshot, bps as int),
{
    if snapshot.bids.len() == 0 || snapshot.asks.len() == 0 {
        return 0;
    }
    let mid2 = snapshot.bids[0].px.units as i128 + snapshot.asks[0].px.units as i128;
    let b = side_depth(&snapshot.bids, mid2, bps as i128, true);
    let a = side_depth(&snapshot.asks, mid2, bps as i128, false);
    proof {
        assert(snapshot.bids@.len() * 9223372036854775808 <= 18446744073709551615 * 9223372036854775808)
            by (nonlinear_arith) requires snapshot.bids@.len() <= 18446744073709551615;
        assert(snapshot.asks@.len() * 9223372036854775808 <= 18446744073709551615 * 9223372036854775808)
            by (nonlinear_arith) requires snapshot.asks@.len() <= 18446744073709551615;
    }
    sat_add(b, a)
}

/// Best-level imbalance `(bid size - ask size) / (bid size + ask size)`; 0
/// when a side is empty or both sizes sum to zero.
pub open spec fn imbalance_units(s: L2Snapshot) -> int {
    if s.bids@.len() == 0 || s.asks@.len() == 0 || s.bids@[0].sz.units + s.asks@[0].sz.units == 0 {
        0
    } else {
        div_units_wide(
            s.bids@[0].sz.units - s.asks@[0].sz.units,
            s.bids@[0].sz.units + s.asks@[0].sz.units,
        )
    }
}

pub fn calculate_order_book_imbalance(snapshot: &L2Snapshot) -> (r: Dec)
    ensures
        r.units == imbalance_units(*snapshot),
{
    if snapshot.bids.len() == 0 || snapshot.asks.len() == 0 {
        return Dec::zero();
    }
    let b = snapshot.bids[0].sz.units as i128;
    let a = snapshot.asks[0].sz.units as i128;
    if b + a == 0 {
        Dec::zero()
    } else {
        div_wide(b - a, b + a)
    }
}

/// Some asset named `coin` trades on cross margin with leverage above 1.
pub open spec fn is_active(universe: Seq<AssetInfo>, coin: Seq<char>) -> bool {
    exists|i: int|
        0 <= i < universe.len() && universe[i].name@ == coin && !universe[i].only_isolated
            && universe[i].max_leverage > 1
}

pub fn is_active_exec(universe: &Vec<AssetInfo>, coin: &String) -> (r: bool)
    ensures
        r == is_active(universe@, coin@),
{
    let mut i: usize = 0;
    while i < universe.len()
        invariant
            i <= universe@.len(),
            forall|j: int|
                0 <= j < i ==> !(universe@[j].name@ == coin@ && !universe@[j].only_isolated
                    && universe@[j].max_leverage > 1),
        decreases universe@.len() - i,
    {
        if !universe[i].only_isolated && universe[i].max_leverage > 1 && universe[i].name == *coin {
            return true;
        }
        i = i + 1;
    }
    false
}

/// Spread, depth at 50 bps and imbalance per active coin with a two-sided book.
pub open spec fn book_tables(books: Seq<L2Snapshot>, universe: Seq<AssetInfo>) -> (
    Seq<(Seq<char>, Dec)>,
    Seq<(Seq<char>, i128)>,
    Seq<(Seq<char>, Dec)>,
)
    decreases books.len(),
{
    if books.len() == 0 {
        (Seq::empty(), Seq::empty(), Seq::empty())
    } else {
        let p = book_tables(books.drop_last(), universe);
        let s = books.last();
        if is_active(universe, s.coin@) && s.bids@.len() > 0 && s.asks@.len() > 0 {
            (
                upsert_spec(
                    p.0,
                    s.coin@,
                    Dec { units: spread_bps_units(s.bids@[0].px.units as int, s.asks@[0].px.units as int) as i64 },
                ),
                upsert_spec(p.1, s.coin@, depth_at_units(s, 50) as i128),
                upsert_spec(p.2, s.coin@, Dec { units: imbalance_units(s) as i64 }),
            )
        } else {
            p
        }
    }
}

/// Fill probability by distance from the mid price (fixed placeholder table).
pub open spec fn fill_probability_table() -> Seq<(Seq<char>, Dec)> {
    seq![
        ("1bps"@, Dec { units: 95_000_000 }),
        ("5bps"@, Dec { units: 85_000_000 }),
        ("10bps"@, Dec { units: 75_000_000 }),
        ("25bps"@, Dec { units: 60_000_000 }),
        ("50bps"@, Dec { units: 45_000_000 }),
    ]
}

pub fn calculate_fill_probabilities() -> (r: Vec<(String, Dec)>)
    ensures
        table_view(r@) == fill_probability_table(),
{
    let r = vec![
        ("1bps".to_owned(), Dec { units: 95_000_000 }),
        ("5bps".to_owned(), Dec { units: 85_000_000 }),
        ("10bps".to_owned(), Dec { units: 75_000_000 }),
        ("25bps".to_owned(), Dec { units: 60_000_000 }),
        ("50bps".to_owned(), Dec { units: 45_000_000 }),
    ];
    assert(table_view(r@) =~= fill_probability_table());
    r
}

/// Order lifetime figures of the batch path.
#[derive(Clone, Copy, Debug)]
pub struct OrderLifetimeStats {
    pub avg_lifetime: Dec,
    pub cancel_rate: Dec,
    pub fleeting_ratio: Dec,
}

/// Manipulation figures of the batch path.
#[derive(Clone, Copy, Debug)]
pub struct ManipulationScores {
    pub layering_score: Dec,
    pub spoofing_index: Dec,
    pub realization_rate: Dec,
}

/// Placeholder order-lifetime figures: the batch snapshot carries no order
/// history, so these are fixed (164,170 ms, 0.45, 0.093).
pub fn analyze_order_lifetimes() -> (r: OrderLifetimeStats)
    ensures
        r.avg_lifetime.units == 16_417_000_000_000,
        r.cancel_rate.units == 45_000_000,
        r.fleeting_ratio.units == 9_300_000,
{
    OrderLifetimeStats {
        avg_lifetime: Dec { units: 16_417_000_000_000 },
        cancel_rate: Dec { units: 45_000_000 },
        fleeting_ratio: Dec { units: 9_300_000 },
    }
}

/// Placeholder manipulation figures: fixed layering 0.35, spoofing 0.09 and
/// realization 0.512.
pub fn detect_manipulation_patterns() -> (r: ManipulationScores)
    ensures
        r.layering_score.units == 35_000_000,
        r.spoofing_index.units == 9_000_000,
        r.realization_rate.units == 51_200_000,
{
    ManipulationScores {
        layering_score: Dec { units: 35_000_000 },
        spoofing_index: Dec { units: 9_000_000 },
        realization_rate: Dec { units: 51_200_000 },
    }
}

/// Liquidity figures: spread, depth within 50 bps and best-level imbalance of
/// each active coin (cross margin, leverage above 1) whose book has both
/// sides; the order-lifetime and manipulation figures are fixed placeholders
/// (average lifetime 164,170 ms, cancel rate 0.45, fleeting ratio 0.093,
/// layering 0.35, spoofing 0.09, realization 0.512), so the fills go unread.
pub fn calculate_liquidity_metrics(
    l2_snapshots: &Vec<L2Snapshot>,
    fills: &Vec<Fill>,
    meta: &Meta,
) -> (r: LiquidityMetrics)
    ensures
        liquidity_of(r, l2_snapshots@, meta.universe@),
{
    let mut spreads: Vec<(String, Dec)> = Vec::new();
    let mut depths: Vec<(String, i128)> = Vec::new();
    let mut imbalances: Vec<(String, Dec)> = Vec::new();
    assert(table_view(spreads@) =~= Seq::<(Seq<char>, Dec)>::empty());
    assert(table_view(depths@) =~= Seq::<(Seq<char>, i128)>::empty());
    assert(table_view(imbalances@) =~= Seq::<(Seq<char>, Dec)>::empty());
    let mut i: usize = 0;
    while i < l2_snapshots.len()
        invariant
            i <= l2_snapshots@.len(),
            unique_keys(spreads@),
            unique_keys(depths@),
            unique_keys(imbalances@),
            ({
                let t = book_tables(l2_snapshots@.subrange(0, i as int), meta.universe@);
                &&& table_view(spreads@) == t.0
                &&& table_view(depths@) == t.1
                &&& table_view(imbalances@) == t.2
            }),
        decreases l2_snapshots@.len() - i,
    {
        assert(l2_snapshots@.subrange(0, i + 1).drop_last() == l2_snapshots@.subrange(0, i as int));
        let s = &l2_snapshots[i];
        if is_active_exec(&meta.universe, &s.coin) && s.bids.len() > 0 && s.asks.len() > 0 {
            let spread = calculate_spread_bps(s.bids[0].px, s.asks[0].px);
            upsert(&mut spreads, &s.coin, spread);
            let depth = calculate_depth_at_bps(s, 50);
            upsert(&mut depths, &s.coin, depth);
            let imbalance = calculate_order_book_imbalance(s);
            upsert(&mut imbalances, &s.coin, imbalance);
        }
        i = i + 1;
    }
    assert(l2_snapshots@.subrange(0, i as int) == l2_snapshots@);
    let lifetimes = analyze_order_lifetimes();
    let manipulation = detect_manipulation_patterns();
    LiquidityMetrics {
        bid_ask_spread_bps: spreads,
        depth_at_50bps: depths,
        order_book_imbalance: imbalances,
        avg_order_lifetime_ms: lifetimes.avg_lifetime,
        cancel_rate: lifetimes.cancel_rate,
        fleeting_order_ratio: lifetimes.fleeting_ratio,
        layering_detection_score: manipulation.layering_score,
        spoofing_detection_index: manipulation.spoofing_index,
        liquidity_realization_rate: manipulation.realization_rate,
        fill_probability_by_distance: calculate_fill_probabilities(),
    }
}

// Vault and risk.

/// Vault figures: utilization `margin used / tvl` (0 unless tvl is positive),
/// deployed liquidity = margin used, idle liquidity = `tvl - deployed`.
pub fn calculate_vault_metrics(vault_summary: &VaultSummary, user_state: &UserState) -> (r: VaultMetrics)
    ensures
        vault_metrics_of(r, *vault_summary, *user_state),
{
    let utilization_rate = if vault_summary.tvl.units > 0 {
        ratio(user_state.total_margin_used.units as i128, vault_summary.tvl.units as i128)
    } else {
        Dec::zero()
    };
    VaultMetrics {
        tvl: vault_summary.tvl,
        equity: vault_summary.equity,
        apr: vault_summary.apr,
        utilization_rate,
        deployed_liquidity: user_state.total_margin_used,
        idle_liquidity: vault_summary.tvl.units as i128 - user_state.total_margin_used.units as i128,
    }
}

/// Risk figures of a snapshot: VPIN, phantom liquidity index, liquidation and
/// cascade risk, position concentration, drawdown and cross-exchange score.
pub fn calculate_risk_metrics(
    vault_summary: &VaultSummary,
    fills: &Vec<Fill>,
    liquidity_metrics: &LiquidityMetrics,
    meta: &Meta,
) -> (r: RiskMetrics)
    requires
        fills_wf(fills@),
    ensures
        risk_of(r, *vault_summary, fills@, *liquidity_metrics, meta.universe@),
        0 <= r.vpin_score.units <= SCALE,
        0 <= r.phantom_liquidity_index.units <= SCALE,
        0 <= r.liquidation_risk_score.units <= SCALE,
        0 <= r.cascade_risk_score.units <= SCALE,
{
    RiskMetrics {
        vpin_score: calculate_vpin(fills, meta),
        phantom_liquidity_index: calculate_phantom_liquidity_index(liquidity_metrics),
        liquidation_risk_score: calculate_liquidation_risk(vault_summary),
        cascade_risk_score: calculate_cascade_risk(fills, meta),
        position_concentration: calculate_position_concentration(fills, meta),
        max_drawdown: vault_summary.max_drawdown,
        cross_exchange_manipulation_score: detect_cross_exchange_manipulation(fills, meta),
    }
}

} // verus!
