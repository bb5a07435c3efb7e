//! The streaming metrics engine: a single-writer state machine fed with
//! trades, order-book snapshots and order lifecycle events, exposing read-only
//! views of its rolling metrics.

use crate::coin_map::{table_view, unique_keys, upsert, upsert_spec, get_spec, find_coin};
use crate::fixed::{ratio, ratio_units, sat, sat_add, Dec, DEC_MAX, SCALE, WIDE_MAX, clamp_int};
use crate::model::{Fill, L2Snapshot, OrderAction, OrderBookLevel, OrderEvent, PerformanceMetrics, Side};
use crate::risk::{
    abs, add_to_bucket, add_to_coin, add_to_table, all_unit, bucket_step, fill_notional, lemma_bucket_step,
    mean_units, notional, units_of, wide_table, window, BUCKET_NOTIONAL, BUCKET_WINDOW,
};
use std::collections::{HashMap, VecDeque};
use vstd::prelude::*;

verus! {

broadcast use vstd::std_specs::hash::group_hash_axioms;

/// Capacity of the buffer of recent trades.
pub const TRADE_BUFFER_CAPACITY: usize = 5000;

/// Capacity of the window of order lifetimes.
pub const LIFETIME_CAPACITY: usize = 10_000;

/// An order that lives less than this many milliseconds is fleeting.
pub const FLEETING_MS: u64 = 100;

/// The open VPIN bucket; volumes count 10^-16.
#[derive(Clone, Copy, Debug)]
pub struct VpinBucketAccumulator {
    pub buy_volume: i128,
    pub sell_volume: i128,
}

/// Order lifecycle tallies.
#[derive(Clone, Debug)]
pub struct OrderFlowAnalyzer {
    pub order_lifetimes: VecDeque<u64>,
    pub cancellation_events: u64,
    pub total_orders: u64,
    pub fleeting_orders: u64,
}

/// Phantom liquidity accumulators. Promised and realized depth count 10^-9,
/// so that 80% of a promise is exact.
#[derive(Clone, Copy, Debug)]
pub struct PhantomLiquidityTracker {
    pub layering_score: Dec,
    pub spoofing_events: Dec,
    pub total_depth_promises: i128,
    pub realized_depth: i128,
}

/// Phantom liquidity figures read from the engine.
#[derive(Clone, Copy, Debug)]
pub struct PhantomLiquidityMetrics {
    pub fleeting_order_ratio: Dec,
    pub avg_order_lifetime_ms: Dec,
    pub layering_score: Dec,
    pub spoofing_events: Dec,
    pub cancellation_rate: Dec,
}

/// The engine's state. Volumes count 10^-16.
pub struct StreamingMetricsEngine {
    pub trade_buffer: VecDeque<Fill>,
    pub l2_snapshots: Vec<(String, L2Snapshot)>,
    pub vpin_buckets: VecDeque<Dec>,
    pub bucket_accumulator: VpinBucketAccumulator,
    pub order_flow_analyzer: OrderFlowAnalyzer,
    pub phantom_liquidity_tracker: PhantomLiquidityTracker,
    pub active_orders: HashMap<u64, u64>,
    pub total_volume_traded: i128,
    pub volume_by_coin: Vec<(String, i128)>,
}

/// `s` with `x` appended, dropping the oldest element beyond `cap`.
pub open spec fn push_bounded<T>(s: Seq<T>, x: T, cap: int) -> Seq<T> {
    let t = s.push(x);
    if t.len() > cap {
        t.drop_first()
    } else {
        t
    }
}

/// The bucket ring after a trade that may have closed a bucket.
pub open spec fn ring_after(s: Seq<int>, closed: Option<int>) -> Seq<int> {
    match closed {
        Some(v) => push_bounded(s, v, BUCKET_WINDOW as int),
        None => s,
    }
}

/// `x + 1`, saturating.
pub open spec fn inc(x: u64) -> u64 {
    if x == u64::MAX {
        x
    } else {
        (x + 1) as u64
    }
}

/// Lifetime of an order opened at `start` and closed at `now`, in milliseconds.
pub open spec fn lifetime(start: u64, now: u64) -> u64 {
    if now >= start {
        (now - start) as u64
    } else {
        0
    }
}

/// Order tallies after an order that lived `life` milliseconds closed.
pub open spec fn flow_after_close(f: OrderFlowAnalyzer, life: u64, is_cancel: bool) -> (u64, u64, u64, Seq<u64>) {
    (
        inc(f.total_orders),
        if life < FLEETING_MS { inc(f.fleeting_orders) } else { f.fleeting_orders },
        if is_cancel { inc(f.cancellation_events) } else { f.cancellation_events },
        push_bounded(f.order_lifetimes@, life, LIFETIME_CAPACITY as int),
    )
}

fn inc_exec(x: u64) -> (r: u64)
    ensures
        r == inc(x),
{
    if x == u64::MAX {
        x
    } else {
        x + 1
    }
}

/// Trades, books, buckets, volumes and phantom accumulators of `a` are those of `b`.
pub open spec fn same_market_state(a: StreamingMetricsEngine, b: StreamingMetricsEngine) -> bool {
    &&& a.trade_buffer@ == b.trade_buffer@
    &&& a.l2_snapshots@ == b.l2_snapshots@
    &&& a.vpin_buckets@ == b.vpin_buckets@
    &&& a.bucket_accumulator == b.bucket_accumulator
    &&& a.phantom_liquidity_tracker == b.phantom_liquidity_tracker
    &&& a.total_volume_traded == b.total_volume_traded
    &&& a.volume_by_coin@ == b.volume_by_coin@
}

impl StreamingMetricsEngine {
    /// The engine's invariant.
    pub open spec fn wf(&self) -> bool {
        &&& 0 <= self.bucket_accumulator.buy_volume
        &&& 0 <= self.bucket_accumulator.sell_volume
        &&& self.bucket_accumulator.buy_volume + self.bucket_accumulator.sell_volume < BUCKET_NOTIONAL
        &&& self.vpin_buckets@.len() <= BUCKET_WINDOW
        &&& all_unit(units_of(self.vpin_buckets@))
        &&& self.trade_buffer@.len() <= TRADE_BUFFER_CAPACITY
        &&& self.order_flow_analyzer.order_lifetimes@.len() <= LIFETIME_CAPACITY
        &&& self.order_flow_analyzer.fleeting_orders <= self.order_flow_analyzer.total_orders
        &&& self.order_flow_analyzer.cancellation_events <= self.order_flow_analyzer.total_orders
        &&& 0 <= self.phantom_liquidity_tracker.layering_score.units <= SCALE
        &&& 0 <= self.phantom_liquidity_tracker.spoofing_events.units
        &&& depth_tied(self.phantom_liquidity_tracker)
        &&& unique_keys(self.l2_snapshots@)
        &&& unique_keys(self.volume_by_coin@)
        &&& wide_table(table_view(self.volume_by_coin@))
        &&& -WIDE_MAX <= self.total_volume_traded
    }

    /// An engine with no history: empty buffers, zero tallies.
    pub fn new() -> (r: Self)
        ensures
            r.wf(),
            r.vpin_buckets@.len() == 0,
            r.trade_buffer@.len() == 0,
            r.l2_snapshots@.len() == 0,
            r.volume_by_coin@.len() == 0,
            r.active_orders@ == Map::<u64, u64>::empty(),
            r.bucket_accumulator.buy_volume == 0,
            r.bucket_accumulator.sell_volume == 0,
            r.order_flow_analyzer.order_lifetimes@.len() == 0,
            r.order_flow_analyzer.total_orders == 0,
            r.order_flow_analyzer.fleeting_orders == 0,
            r.order_flow_analyzer.cancellation_events == 0,
            r.phantom_liquidity_tracker.layering_score.units == 0,
            r.phantom_liquidity_tracker.spoofing_events.units == 0,
            r.phantom_liquidity_tracker.total_depth_promises == 0,
            r.phantom_liquidity_tracker.realized_depth == 0,
            r.total_volume_traded == 0,
    {
        let r = StreamingMetricsEngine {
            trade_buffer: VecDeque::new(),
            l2_snapshots: Vec::new(),
            vpin_buckets: VecDeque::new(),
            bucket_accumulator: VpinBucketAccumulator { buy_volume: 0, sell_volume: 0 },
            order_flow_analyzer: OrderFlowAnalyzer {
                order_lifetimes: VecDeque::new(),
                cancellation_events: 0,
                total_orders: 0,
                fleeting_orders: 0,
            },
            phantom_liquidity_tracker: PhantomLiquidityTracker {
                layering_score: Dec::zero(),
                spoofing_events: Dec::zero(),
                total_depth_promises: 0,
                realized_depth: 0,
            },
            active_orders: HashMap::new(),
            total_volume_traded: 0,
            volume_by_coin: Vec::new(),
        };
        assert(units_of(r.vpin_buckets@) =~= Seq::<int>::empty());
        assert(table_view(r.volume_by_coin@) =~= Seq::<(Seq<char>, i128)>::empty());
        r
    }

    /// A trade: its notional `price * |size|` goes to its side of the open
    /// bucket; a bucket that reaches 10,000 quote units closes with value
    /// `|buy - sell| / (buy + sell)` into the ring of the last 50; the running
    /// and per-coin volumes grow by the notional and the trade enters the
    /// bounded buffer.
    pub fn process_trade(&mut self, fill: Fill)
        requires
            old(self).wf(),
            fill.wf(),
        ensures
            final(self).wf(),
            ({
                let st = bucket_step(
                    old(self).bucket_accumulator.buy_volume as int,
                    old(self).bucket_accumulator.sell_volume as int,
                    fill.side,
                    notional(fill),
                );
                &&& final(self).bucket_accumulator.buy_volume == st.0
                &&& final(self).bucket_accumulator.sell_volume == st.1
                &&& units_of(final(self).vpin_buckets@) == ring_after(units_of(old(self).vpin_buckets@), st.2)
            }),
            final(self).total_volume_traded == sat(old(self).total_volume_traded + notional(fill)),
            table_view(final(self).volume_by_coin@) == add_to_table(
                table_view(old(self).volume_by_coin@),
                fill.coin@,
                notional(fill),
            ),
            final(self).trade_buffer@ == push_bounded(old(self).trade_buffer@, fill, TRADE_BUFFER_CAPACITY as int),
            final(self).l2_snapshots@ == old(self).l2_snapshots@,
            final(self).order_flow_analyzer == old(self).order_flow_analyzer,
            final(self).phantom_liquidity_tracker == old(self).phantom_liquidity_tracker,
            final(self).active_orders@ == old(self).active_orders@,
    {
        let vol = fill_notional(&fill);
        self.total_volume_traded = sat_add(self.total_volume_traded, vol);
        add_to_coin(&mut self.volume_by_coin, &fill.coin, vol);
        self.update_vpin_calculation(fill.side, vol);
        let ghost before = self.trade_buffer@;
        self.trade_buffer.push_back(fill);
        if self.trade_buffer.len() > TRADE_BUFFER_CAPACITY {
            self.trade_buffer.pop_front();
            assert(self.trade_buffer@ =~= before.push(fill).drop_first());
        }
    }

    /// Adds `vol` on `side` to the open bucket, closing it into the ring when full.
    fn update_vpin_calculation(&mut self, side: Side, vol: i128)
        requires
            old(self).wf(),
            0 <= vol <= 9223372036854775807 * 9223372036854775808,
        ensures
            final(self).wf(),
            ({
                let st = bucket_step(
                    old(self).bucket_accumulator.buy_volume as int,
                    old(self).bucket_accumulator.sell_volume as int,
                    side,
                    vol as int,
                );
                &&& final(self).bucket_accumulator.buy_volume == st.0
                &&& final(self).bucket_accumulator.sell_volume == st.1
                &&& units_of(final(self).vpin_buckets@) == ring_after(units_of(old(self).vpin_buckets@), st.2)
            }),
            final(self).total_volume_traded == old(self).total_volume_traded,
            final(self).volume_by_coin@ == old(self).volume_by_coin@,
            final(self).trade_buffer@ == old(self).trade_buffer@,
            final(self).l2_snapshots@ == old(self).l2_snapshots@,
            final(self).order_flow_analyzer == old(self).order_flow_analyzer,
            final(self).phantom_liquidity_tracker == old(self).phantom_liquidity_tracker,
            final(self).active_orders@ == old(self).active_orders@,
    {
        let buy = self.bucket_accumulator.buy_volume;
        let sell = self.bucket_accumulator.sell_volume;
        proof {
            lemma_bucket_step(buy as int, sell as int, side, vol as int);
        }
        let (b, s, closed) = add_to_bucket(buy, sell, side, vol);
        self.bucket_accumulator = VpinBucketAccumulator { buy_volume: b, sell_volume: s };
        match closed {
            Some(v) => {
                let ghost before = self.vpin_buckets@;
                self.vpin_buckets.push_back(v);
                assert(units_of(self.vpin_buckets@) =~= units_of(before).push(v.units as int));
                if self.vpin_buckets.len() > BUCKET_WINDOW {
                    let ghost pushed = self.vpin_buckets@;
                    self.vpin_buckets.pop_front();
                    assert(self.vpin_buckets@ =~= pushed.drop_first());
                    assert(units_of(self.vpin_buckets@) =~= units_of(before).push(v.units as int).drop_first());
                }
            },
            None => {},
        }
    }

    /// A new order `id` opened at `now` (milliseconds).
    pub fn on_new_order(&mut self, id: u64, now: u64)
        requires
            old(self).wf(),
        ensures
            final(self).wf(),
            final(self).active_orders@ == old(self).active_orders@.insert(id, now),
            final(self).order_flow_analyzer == old(self).order_flow_analyzer,
            same_market_state(*final(self), *old(self)),
    {
        self.active_orders.insert(id, now);
    }

    /// Order `id` was cancelled (`is_cancel`) or filled at `now` (milliseconds).
    /// An unknown id changes nothing. Otherwise the order leaves the open table,
    /// its lifetime enters the window of the last 10,000, and the total, the
    /// fleeting (lifetime under 100 ms) and the cancellation tallies grow.
    pub fn on_cancel_or_fill(&mut self, id: u64, is_cancel: bool, now: u64)
        requires
            old(self).wf(),
        ensures
            final(self).wf(),
            !old(self).active_orders@.contains_key(id) ==> final(self).order_flow_analyzer
                == old(self).order_flow_analyzer && final(self).active_orders@ == old(
                self,
            ).active_orders@,
            old(self).active_orders@.contains_key(id) ==> {
                let t = flow_after_close(
                    old(self).order_flow_analyzer,
                    lifetime(old(self).active_orders@[id], now),
                    is_cancel,
                );
                &&& final(self).active_orders@ == old(self).active_orders@.remove(id)
                &&& final(self).order_flow_analyzer.total_orders == t.0
                &&& final(self).order_flow_analyzer.fleeting_orders == t.1
                &&& final(self).order_flow_analyzer.cancellation_events == t.2
                &&& final(self).order_flow_analyzer.order_lifetimes@ == t.3
            },
            same_market_state(*final(self), *old(self)),
    {
        match self.active_orders.remove(&id) {
            Some(t0) => {
                let life: u64 = if now >= t0 {
                    now - t0
                } else {
                    0
                };
                let total = inc_exec(self.order_flow_analyzer.total_orders);
                let fleeting = if life < FLEETING_MS {
                    inc_exec(self.order_flow_analyzer.fleeting_orders)
                } else {
                    self.order_flow_analyzer.fleeting_orders
                };
                let cancels = if is_cancel {
                    inc_exec(self.order_flow_analyzer.cancellation_events)
                } else {
                    self.order_flow_analyzer.cancellation_events
                };
                self.order_flow_analyzer.total_orders = total;
                self.order_flow_analyzer.fleeting_orders = fleeting;
                self.order_flow_analyzer.cancellation_events = cancels;
                let ghost before = self.order_flow_analyzer.order_lifetimes@;
                self.order_flow_analyzer.order_lifetimes.push_back(life);
                if self.order_flow_analyzer.order_lifetimes.len() > LIFETIME_CAPACITY {
                    self.order_flow_analyzer.order_lifetimes.pop_front();
                    assert(self.order_flow_analyzer.order_lifetimes@ =~= before.push(life).drop_first());
                }
            },
            None => {},
        }
    }

    /// Applies one order lifecycle event observed at `now` (milliseconds).
    pub fn process_order_event(&mut self, evt: &OrderEvent, now: u64)
        requires
            old(self).wf(),
        ensures
            final(self).wf(),
            evt.action == OrderAction::New ==> final(self).active_orders@ == old(self).active_orders@.insert(evt.id, now)
                && final(self).order_flow_analyzer == old(self).order_flow_analyzer,
            evt.action != OrderAction::New && !old(self).active_orders@.contains_key(evt.id) ==>
                final(self).order_flow_analyzer == old(self).order_flow_analyzer
                && final(self).active_orders@ == old(self).active_orders@,
            evt.action != OrderAction::New && old(self).active_orders@.contains_key(evt.id) ==> {
                let t = flow_after_close(
                    old(self).order_flow_analyzer,
                    lifetime(old(self).active_orders@[evt.id], now),
                    evt.action == OrderAction::Cancelled,
                );
                &&& final(self).active_orders@ == old(self).active_orders@.remove(evt.id)
                &&& final(self).order_flow_analyzer.total_orders == t.0
                &&& final(self).order_flow_analyzer.fleeting_orders == t.1
                &&& final(self).order_flow_analyzer.cancellation_events == t.2
                &&& final(self).order_flow_analyzer.order_lifetimes@ == t.3
            },
            same_market_state(*final(self), *old(self)),
    {
        match evt.action {
            OrderAction::New => self.on_new_order(evt.id, now),
            OrderAction::Cancelled => self.on_cancel_or_fill(evt.id, true, now),
            OrderAction::Filled => self.on_cancel_or_fill(evt.id, false, now),
        }
    }
}

// Order-book analysis.

/// Sum of the sizes of the levels.
pub open spec fn level_sum(levels: Seq<OrderBookLevel>) -> int
    decreases levels.len(),
{
    if levels.len() == 0 {
        0
    } else {
        level_sum(levels.drop_last()) + levels.last().sz.units
    }
}

/// The first five levels, or all when there are fewer.
pub open spec fn top5(levels: Seq<OrderBookLevel>) -> Seq<OrderBookLevel> {
    if levels.len() > 5 {
        levels.subrange(0, 5)
    } else {
        levels
    }
}

/// Depth of the best five levels of each side, in 10^-8.
pub open spec fn total_depth(s: L2Snapshot) -> int {
    level_sum(top5(s.bids@)) + level_sum(top5(s.asks@))
}

/// `a / b` as `Dec` units for a nonzero `b`.
pub open spec fn div_units_wide(a: int, b: int) -> int {
    if b > 0 {
        ratio_units(a, b)
    } else {
        ratio_units(-a, -b)
    }
}

/// Relative change of the top-five depth from `prev` to `cur`; 0 when `prev` has none.
pub open spec fn depth_change(prev: L2Snapshot, cur: L2Snapshot) -> int {
    if total_depth(prev) == 0 {
        0
    } else {
        div_units_wide(total_depth(cur) - total_depth(prev), total_depth(prev))
    }
}

/// Total order count per distinct price, in order of first appearance; counts saturate.
pub open spec fn price_counts(levels: Seq<OrderBookLevel>) -> Seq<(int, int)>
    decreases levels.len(),
{
    if levels.len() == 0 {
        Seq::empty()
    } else {
        let t = price_counts(levels.drop_last());
        let l = levels.last();
        add_count(t, l.px.units as int, l.n as int)
    }
}

pub open spec fn has_price(t: Seq<(int, int)>, p: int) -> bool {
    exists|i: int| 0 <= i < t.len() && t[i].0 == p
}

/// `x` capped at the largest `u128`.
pub open spec fn cap128(x: int) -> int {
    if x > u128::MAX {
        u128::MAX as int
    } else {
        x
    }
}

/// `t` with `n` more orders at price `p`.
pub open spec fn add_count(t: Seq<(int, int)>, p: int, n: int) -> Seq<(int, int)> {
    if has_price(t, p) {
        let i = choose|i: int| 0 <= i < t.len() && t[i].0 == p;
        t.update(i, (p, cap128(t[i].1 + n)))
    } else {
        t.push((p, n))
    }
}

/// Sum (capped) of the counts above one.
pub open spec fn repeated_total(t: Seq<(int, int)>) -> int
    decreases t.len(),
{
    if t.len() == 0 {
        0
    } else {
        cap128(repeated_total(t.drop_last()) + if t.last().1 > 1 {
            t.last().1
        } else {
            0
        })
    }
}

/// Orders resting at a price shared by more than one order, over both sides.
pub open spec fn same_price_orders(s: L2Snapshot) -> int {
    repeated_total(price_counts(s.bids@ + s.asks@))
}

/// Layering signal of an update: 0.2 when either side gained more than three
/// levels, plus 0.3 when more than five orders share a price.
pub open spec fn layering_signal(prev: L2Snapshot, cur: L2Snapshot) -> int {
    (if cur.bids@.len() > prev.bids@.len() + 3 || cur.asks@.len() > prev.asks@.len() + 3 {
        20_000_000int
    } else {
        0
    }) + (if same_price_orders(cur) > 5 {
        30_000_000int
    } else {
        0
    })
}

/// Realized depth is 80% of promised depth, both non-negative, until the
/// promises saturate.
pub open spec fn depth_tied(t: PhantomLiquidityTracker) -> bool {
    &&& 0 <= t.total_depth_promises
    &&& 0 <= t.realized_depth <= t.total_depth_promises
    &&& (t.total_depth_promises == WIDE_MAX || t.realized_depth * 10 == t.total_depth_promises * 8)
}

/// A sum of non-negative sizes is not negative.
proof fn lemma_level_sum_nonneg(levels: Seq<OrderBookLevel>)
    requires
        forall|i: int| 0 <= i < levels.len() ==> 0 <= #[trigger] levels[i].sz.units,
    ensures
        level_sum(levels) >= 0,
    decreases levels.len(),
{
    if levels.len() > 0 {
        let u = levels.drop_last();
        assert forall|i: int| 0 <= i < u.len() implies 0 <= #[trigger] u[i].sz.units by {
            assert(u[i] == levels[i]);
        }
        lemma_level_sum_nonneg(u);
        assert(0 <= levels[levels.len() - 1].sz.units);
    }
}

/// The top-five depth of a well-formed book is not negative.
proof fn lemma_total_depth_nonneg(s: L2Snapshot)
    requires
        s.wf(),
    ensures
        total_depth(s) >= 0,
{
    let b = top5(s.bids@);
    let a = top5(s.asks@);
    assert forall|i: int| 0 <= i < b.len() implies 0 <= #[trigger] b[i].sz.units by {
        assert(b[i] == s.bids@[i]);
    }
    assert forall|i: int| 0 <= i < a.len() implies 0 <= #[trigger] a[i].sz.units by {
        assert(a[i] == s.asks@[i]);
    }
    lemma_level_sum_nonneg(b);
    lemma_level_sum_nonneg(a);
}

/// Damped spoof increment `min(1, 1 / total_orders)`, 1 before any closed order.
pub open spec fn spoof_increment(total_orders: u64) -> int {
    if total_orders == 0 {
        SCALE as int
    } else {
        ratio_units(1, total_orders as int)
    }
}

/// The phantom liquidity accumulators after an update from `prev` to `cur`.
pub open spec fn phantom_after(
    t: PhantomLiquidityTracker,
    total_orders: u64,
    prev: L2Snapshot,
    cur: L2Snapshot,
) -> PhantomLiquidityTracker {
    PhantomLiquidityTracker {
        layering_score: Dec {
            units: clamp_int(
                (8 * t.layering_score.units + 2 * layering_signal(prev, cur)) / 10,
                0,
                SCALE as int,
            ) as i64,
        },
        spoofing_events: if abs(depth_change(prev, cur)) > 5_000_000 {
            Dec { units: clamp_int(t.spoofing_events.units + spoof_increment(total_orders), 0, DEC_MAX as int) as i64 }
        } else {
            t.spoofing_events
        },
        total_depth_promises: sat(t.total_depth_promises + 10 * total_depth(cur)) as i128,
        realized_depth: sat(t.realized_depth + 8 * total_depth(cur)) as i128,
    }
}

/// Sum of the sizes of the first `min(5, len)` levels.
fn top5_depth(levels: &Vec<OrderBookLevel>) -> (r: i128)
    ensures
        r == level_sum(top5(levels@)),
        -5 * 9223372036854775808 <= r <= 5 * 9223372036854775807,
{
    let n: usize = if levels.len() > 5 {
        5
    } else {
        levels.len()
    };
    let ghost t = top5(levels@);
    assert(t.len() == n);
    let mut acc: i128 = 0;
    let mut i: usize = 0;
    while i < n
        invariant
            i <= n,
            n <= 5,
            t == top5(levels@),
            t.len() == n,
            n <= levels@.len(),
            acc == level_sum(t.subrange(0, i as int)),
            -(i * 9223372036854775808) <= acc <= i * 9223372036854775807,
        decreases n - i,
    {
        assert(t.subrange(0, i + 1).drop_last() == t.subrange(0, i as int));
        assert(t[i as int] == levels@[i as int]);
        acc = acc + levels[i].sz.units as i128;
        i = i + 1;
    }
    assert(t.subrange(0, n as int) == t);
    acc
}

/// Depth of the best five levels of each side, in 10^-8.
pub fn calculate_total_depth(snapshot: &L2Snapshot) -> (r: i128)
    ensures
        r == total_depth(*snapshot),
        -10 * 9223372036854775808 <= r <= 10 * 9223372036854775807,
{
    top5_depth(&snapshot.bids) + top5_depth(&snapshot.asks)
}

/// `a / b` for a nonzero `b`, rounded toward zero and saturating.
pub fn div_wide(a: i128, b: i128) -> (r: Dec)
    requires
        b != 0,
        a > i128::MIN,
        b > i128::MIN,
    ensures
        r.units == div_units_wide(a as int, b as int),
{
    if b > 0 {
        ratio(a, b)
    } else {
        ratio(-a, -b)
    }
}

/// Relative change of the top-five depth from `previous` to `current`; 0 when
/// `previous` has no depth.
pub fn calculate_depth_change(previous: &L2Snapshot, current: &L2Snapshot) -> (r: Dec)
    ensures
        r.units == depth_change(*previous, *current),
{
    let prev_depth = calculate_total_depth(previous);
    let curr_depth = calculate_total_depth(current);
    if prev_depth == 0 {
        Dec::zero()
    } else {
        div_wide(curr_depth - prev_depth, prev_depth)
    }
}

/// No price appears twice.
pub open spec fn unique_prices(t: Seq<(int, int)>) -> bool {
    forall|i: int, j: int| 0 <= i < j < t.len() ==> t[i].0 != t[j].0
}

pub open spec fn count_view(t: Seq<(i64, u128)>) -> Seq<(int, int)> {
    t.map_values(|e: (i64, u128)| (e.0 as int, e.1 as int))
}

/// Adds `n` orders at price `p` to the table.
fn add_count_exec(t: &mut Vec<(i64, u128)>, p: i64, n: u32)
    requires
        unique_prices(count_view(old(t)@)),
    ensures
        unique_prices(count_view(final(t)@)),
        count_view(final(t)@) == add_count(count_view(old(t)@), p as int, n as int),
{
    let ghost v = count_view(t@);
    let mut i: usize = 0;
    while i < t.len()
        invariant
            i <= t@.len(),
            v == count_view(t@),
            t@ == old(t)@,
            unique_prices(v),
            forall|j: int| 0 <= j < i ==> t@[j].0 != p,
        decreases t@.len() - i,
    {
        if t[i].0 == p {
            let c = t[i].1.saturating_add(n as u128);
            proof {
                assert(v[i as int].0 == p);
                assert(has_price(v, p as int));
                let k = choose|k: int| 0 <= k < v.len() && v[k].0 == p;
                if k < i {
                    assert(t@[k].0 != p);
                } else if k > i {
                    assert(v[i as int].0 != v[k].0);
                }
                assert(k == i);
                assert(add_count(v, p as int, n as int) == v.update(
                    i as int,
                    (p as int, cap128(v[i as int].1 + n)),
                ));
            }
            t.set(i, (p, c));
            assert(count_view(t@) =~= v.update(i as int, (p as int, cap128(v[i as int].1 + n))));
            assert forall|a: int, b: int| 0 <= a < b < count_view(t@).len() implies count_view(t@)[a].0
                != count_view(t@)[b].0 by {
                assert(v[a].0 != v[b].0);
            }
            return;
        }
        i = i + 1;
    }
    proof {
        if has_price(v, p as int) {
            let k = choose|k: int| 0 <= k < v.len() && v[k].0 == p;
            assert(t@[k].0 != p);
        }
    }
    t.push((p, n as u128));
    assert(count_view(t@) =~= v.push((p as int, n as int)));
}

/// Orders resting at a price shared by more than one order, over both sides.
pub fn count_same_price_orders(snapshot: &L2Snapshot) -> (r: u128)
    ensures
        r == same_price_orders(*snapshot),
{
    let ghost all = snapshot.bids@ + snapshot.asks@;
    let nb = snapshot.bids.len();
    let na = snapshot.asks.len();
    let mut t: Vec<(i64, u128)> = Vec::new();
    assert(count_view(t@) =~= Seq::<(int, int)>::empty());
    let mut k: usize = 0;
    while k < nb
        invariant
            k <= nb,
            nb == snapshot.bids@.len(),
            all == snapshot.bids@ + snapshot.asks@,
            unique_prices(count_view(t@)),
            count_view(t@) == price_counts(all.subrange(0, k as int)),
        decreases nb - k,
    {
        assert(all.subrange(0, k + 1).drop_last() == all.subrange(0, k as int));
        assert(all[k as int] == snapshot.bids@[k as int]);
        add_count_exec(&mut t, snapshot.bids[k].px.units, snapshot.bids[k].n);
        k = k + 1;
    }
    let mut j: usize = 0;
    while j < na
        invariant
            j <= na,
            nb == snapshot.bids@.len(),
            na == snapshot.asks@.len(),
            all == snapshot.bids@ + snapshot.asks@,
            unique_prices(count_view(t@)),
            count_view(t@) == price_counts(all.subrange(0, nb + j)),
        decreases na - j,
    {
        assert(all.subrange(0, nb + j + 1).drop_last() == all.subrange(0, nb + j));
        assert(all[nb + j] == snapshot.asks@[j as int]);
        add_count_exec(&mut t, snapshot.asks[j].px.units, snapshot.asks[j].n);
        j = j + 1;
    }
    assert(all.subrange(0, nb + na) == all);
    let ghost v = count_view(t@);
    let mut total: u128 = 0;
    let mut i: usize = 0;
    while i < t.len()
        invariant
            i <= t@.len(),
            v == count_view(t@),
            total == repeated_total(v.subrange(0, i as int)),
        decreases t@.len() - i,
    {
        assert(v.subrange(0, i + 1).drop_last() == v.subrange(0, i as int));
        if t[i].1 > 1 {
            total = total.saturating_add(t[i].1);
        } else {
            total = total.saturating_add(0);
        }
        i = i + 1;
    }
    assert(v.subrange(0, i as int) == v);
    total
}

/// Layering signal of an update: 0.2 when either side gained more than three
/// levels, plus 0.3 when more than five orders share a price.
pub fn detect_layering_patterns(previous: &L2Snapshot, current: &L2Snapshot) -> (r: Dec)
    ensures
        r.units == layering_signal(*previous, *current),
        0 <= r.units <= SCALE,
{
    let mut score: i64 = 0;
    if current.bids.len() as u128 > previous.bids.len() as u128 + 3 || current.asks.len() as u128
        > previous.asks.len() as u128 + 3 {
        score = score + 20_000_000;
    }
    if count_same_price_orders(current) > 5 {
        score = score + 30_000_000;
    }
    Dec { units: score }
}

/// The accumulators after an update from `previous` to `current`.
fn detect_phantom_liquidity(
    t: PhantomLiquidityTracker,
    total_orders: u64,
    previous: &L2Snapshot,
    current: &L2Snapshot,
) -> (r: PhantomLiquidityTracker)
    requires
        0 <= t.layering_score.units <= SCALE,
        0 <= t.spoofing_events.units,
        depth_tied(t),
        current.wf(),
    ensures
        r == phantom_after(t, total_orders, *previous, *current),
        0 <= r.layering_score.units <= SCALE,
        0 <= r.spoofing_events.units,
        depth_tied(r),
{
    let change = calculate_depth_change(previous, current);
    let signal = detect_layering_patterns(previous, current);
    let blended: i64 = (8 * t.layering_score.units + 2 * signal.units) / 10;
    let spoofing = if change.units > 5_000_000 || change.units < -5_000_000 {
        let inc = if total_orders == 0 {
            Dec { units: SCALE }
        } else {
            ratio(1, total_orders as i128)
        };
        proof {
            if total_orders > 0 {
                crate::risk::lemma_ratio_unit(1, total_orders as int);
            }
        }
        let sum = t.spoofing_events.units as i128 + inc.units as i128;
        if sum > DEC_MAX as i128 {
            Dec { units: DEC_MAX }
        } else {
            Dec { units: sum as i64 }
        }
    } else {
        t.spoofing_events
    };
    let depth = calculate_total_depth(current);
    proof {
        lemma_total_depth_nonneg(*current);
        let p = t.total_depth_promises as int;
        let q = t.realized_depth as int;
        let d = depth as int;
        if p != WIDE_MAX as int && p + 10 * d <= WIDE_MAX as int {
            assert(q + 8 * d <= p + 10 * d);
            assert((q + 8 * d) * 10 == (p + 10 * d) * 8);
        }
    }
    PhantomLiquidityTracker {
        layering_score: Dec { units: blended },
        spoofing_events: spoofing,
        total_depth_promises: sat_add(t.total_depth_promises, 10 * depth),
        realized_depth: sat_add(t.realized_depth, 8 * depth),
    }
}

impl StreamingMetricsEngine {
    /// An order-book snapshot: when the coin had one, the change against it
    /// feeds the layering average, the spoof counter and the depth
    /// accumulators; the snapshot then replaces the stored one.
    pub fn process_l2_update(&mut self, snapshot: L2Snapshot)
        requires
            old(self).wf(),
            snapshot.wf(),
        ensures
            final(self).wf(),
            table_view(final(self).l2_snapshots@) == upsert_spec(
                table_view(old(self).l2_snapshots@),
                snapshot.coin@,
                snapshot,
            ),
            match get_spec(table_view(old(self).l2_snapshots@), snapshot.coin@) {
                Some(prev) => final(self).phantom_liquidity_tracker == phantom_after(
                    old(self).phantom_liquidity_tracker,
                    old(self).order_flow_analyzer.total_orders,
                    prev,
                    snapshot,
                ),
                None => final(self).phantom_liquidity_tracker == old(self).phantom_liquidity_tracker,
            },
            final(self).order_flow_analyzer == old(self).order_flow_analyzer,
            final(self).vpin_buckets@ == old(self).vpin_buckets@,
            final(self).bucket_accumulator == old(self).bucket_accumulator,
            final(self).active_orders@ == old(self).active_orders@,
            final(self).trade_buffer@ == old(self).trade_buffer@,
            final(self).total_volume_traded == old(self).total_volume_traded,
            final(self).volume_by_coin@ == old(self).volume_by_coin@,
    {
        let coin = snapshot.coin.clone();
        match find_coin(&self.l2_snapshots, &coin) {
            Some(i) => {
                proof {
                    crate::coin_map::lemma_unique_index(self.l2_snapshots@, coin@, i as int);
                }
                let t = detect_phantom_liquidity(
                    self.phantom_liquidity_tracker,
                    self.order_flow_analyzer.total_orders,
                    &self.l2_snapshots[i].1,
                    &snapshot,
                );
                self.phantom_liquidity_tracker = t;
            },
            None => {
                proof {
                    crate::coin_map::lemma_absent(self.l2_snapshots@, coin@);
                }
            },
        }
        upsert(&mut self.l2_snapshots, &coin, snapshot);
    }
}

// Read-only views.

pub open spec fn sum_u64(s: Seq<u64>) -> int
    decreases s.len(),
{
    if s.len() == 0 {
        0
    } else {
        sum_u64(s.drop_last()) + s.last()
    }
}

/// `num / den`, or 0 when `den` is 0.
pub open spec fn rate(num: int, den: int) -> int {
    if den > 0 {
        ratio_units(num, den)
    } else {
        0
    }
}

/// Best-bid/best-ask spread in basis points of each stored book whose two
/// sides are non-empty and whose mid price is positive.
pub open spec fn spreads_of(t: Seq<(Seq<char>, L2Snapshot)>) -> Seq<(Seq<char>, int)>
    decreases t.len(),
{
    if t.len() == 0 {
        Seq::empty()
    } else {
        let p = spreads_of(t.drop_last());
        let s = t.last().1;
        if s.bids@.len() > 0 && s.asks@.len() > 0 && s.bids@[0].px.units + s.asks@[0].px.units > 0 {
            let b = s.bids@[0].px.units as int;
            let a = s.asks@[0].px.units as int;
            p.push((t.last().0, ratio_units((a - b) * 20_000, a + b)))
        } else {
            p
        }
    }
}

impl StreamingMetricsEngine {
    /// Live VPIN: the mean of the ring of closed buckets, 0 when it is empty.
    pub fn get_current_vpin(&self) -> (r: Dec)
        requires
            self.wf(),
        ensures
            r.units == mean_units(units_of(self.vpin_buckets@)),
            0 <= r.units <= SCALE,
    {
        let ghost all = units_of(self.vpin_buckets@);
        let n = self.vpin_buckets.len();
        let mut acc: i64 = 0;
        let mut i: usize = 0;
        while i < n
            invariant
                i <= n,
                n == self.vpin_buckets@.len(),
                n <= BUCKET_WINDOW,
                all == units_of(self.vpin_buckets@),
                all_unit(all),
                acc == crate::risk::sum(all.subrange(0, i as int)),
                0 <= acc <= i * SCALE,
            decreases n - i,
        {
            assert(all.subrange(0, i + 1).drop_last() == all.subrange(0, i as int));
            assert(all[i as int] == self.vpin_buckets@[i as int].units);
            acc = acc + self.vpin_buckets[i].units;
            i = i + 1;
        }
        assert(all.subrange(0, n as int) == all);
        proof {
            crate::risk::lemma_mean_unit(all);
        }
        if n == 0 {
            Dec::zero()
        } else {
            Dec { units: acc / (n as i64) }
        }
    }

    /// Fleeting ratio and cancellation rate (fractions of all closed orders, 0
    /// without any), mean lifetime of the sampled orders, layering score and
    /// spoof count.
    pub fn get_phantom_liquidity_metrics(&self) -> (r: PhantomLiquidityMetrics)
        requires
            self.wf(),
        ensures
            r.fleeting_order_ratio.units == rate(
                self.order_flow_analyzer.fleeting_orders as int,
                self.order_flow_analyzer.total_orders as int,
            ),
            r.cancellation_rate.units == rate(
                self.order_flow_analyzer.cancellation_events as int,
                self.order_flow_analyzer.total_orders as int,
            ),
            r.avg_order_lifetime_ms.units == rate(
                sum_u64(self.order_flow_analyzer.order_lifetimes@),
                self.order_flow_analyzer.order_lifetimes@.len() as int,
            ),
            r.layering_score == self.phantom_liquidity_tracker.layering_score,
            r.spoofing_events == self.phantom_liquidity_tracker.spoofing_events,
            0 <= r.fleeting_order_ratio.units <= SCALE,
            0 <= r.cancellation_rate.units <= SCALE,
    {
        let f = &self.order_flow_analyzer;
        let (fleeting, cancels) = if f.total_orders > 0 {
            proof {
                crate::risk::lemma_ratio_unit(f.fleeting_orders as int, f.total_orders as int);
                crate::risk::lemma_ratio_unit(f.cancellation_events as int, f.total_orders as int);
            }
            (
                ratio(f.fleeting_orders as i128, f.total_orders as i128),
                ratio(f.cancellation_events as i128, f.total_orders as i128),
            )
        } else {
            (Dec::zero(), Dec::zero())
        };
        let ghost life = f.order_lifetimes@;
        let mut total: u128 = 0;
        let mut i: usize = 0;
        while i < f.order_lifetimes.len()
            invariant
                i <= life.len(),
                life == f.order_lifetimes@,
                life.len() <= LIFETIME_CAPACITY,
                total == sum_u64(life.subrange(0, i as int)),
                total <= i * 18446744073709551615,
            decreases life.len() - i,
        {
            assert(life.subrange(0, i + 1).drop_last() == life.subrange(0, i as int));
            total = total + f.order_lifetimes[i] as u128;
            i = i + 1;
        }
        assert(life.subrange(0, i as int) == life);
        let avg = if i > 0 {
            ratio(total as i128, i as i128)
        } else {
            Dec::zero()
        };
        PhantomLiquidityMetrics {
            fleeting_order_ratio: fleeting,
            avg_order_lifetime_ms: avg,
            layering_score: self.phantom_liquidity_tracker.layering_score,
            spoofing_events: self.phantom_liquidity_tracker.spoofing_events,
            cancellation_rate: cancels,
        }
    }

    /// Performance figures the engine tracks: the volume of the open bucket;
    /// everything else is zero.
    pub fn get_performance_metrics(&self) -> (r: PerformanceMetrics)
        requires
            self.wf(),
        ensures
            r.total_volume == self.bucket_accumulator.buy_volume + self.bucket_accumulator.sell_volume,
            r.daily_pnl == 0,
            r.unrealized_pnl == 0,
            r.sharpe_ratio.units == 0,
            r.sortino_ratio.units == 0,
            r.adverse_selection_cost.units == 0,
            r.realized_spread@.len() == 0,
    {
        PerformanceMetrics {
            daily_pnl: 0,
            unrealized_pnl: 0,
            total_volume: self.bucket_accumulator.buy_volume + self.bucket_accumulator.sell_volume,
            sharpe_ratio: Dec::zero(),
            sortino_ratio: Dec::zero(),
            realized_spread: Vec::new(),
            adverse_selection_cost: Dec::zero(),
        }
    }

    /// Total traded notional and its breakdown per coin, in 10^-16.
    pub fn get_volume_metrics(&self) -> (r: (i128, Vec<(String, i128)>))
        requires
            self.wf(),
        ensures
            r.0 == self.total_volume_traded,
            table_view(r.1@) == table_view(self.volume_by_coin@),
    {
        let ghost v = table_view(self.volume_by_coin@);
        let mut out: Vec<(String, i128)> = Vec::new();
        let mut i: usize = 0;
        while i < self.volume_by_coin.len()
            invariant
                i <= self.volume_by_coin@.len(),
                v == table_view(self.volume_by_coin@),
                table_view(out@) == v.subrange(0, i as int),
            decreases self.volume_by_coin@.len() - i,
        {
            let name = self.volume_by_coin[i].0.clone();
            let ghost before = out@;
            out.push((name, self.volume_by_coin[i].1));
            assert(table_view(out@) =~= table_view(before).push(v[i as int]));
            assert(v.subrange(0, i + 1) =~= v.subrange(0, i as int).push(v[i as int]));
            i = i + 1;
        }
        assert(v.subrange(0, i as int) == v);
        (self.total_volume_traded, out)
    }

    /// Realized over promised depth, clamped to `[0, 1]`; 0 before any promise.
    pub fn get_depth_realisation_ratio(&self) -> (r: Dec)
        requires
            self.wf(),
        ensures
            r.units == if self.phantom_liquidity_tracker.total_depth_promises == 0 {
                0
            } else {
                clamp_int(
                    div_units_wide(
                        self.phantom_liquidity_tracker.realized_depth as int,
                        self.phantom_liquidity_tracker.total_depth_promises as int,
                    ),
                    0,
                    SCALE as int,
                )
            },
            0 <= r.units <= SCALE,
            0 < self.phantom_liquidity_tracker.total_depth_promises < WIDE_MAX ==> r.units
                == 80_000_000,
    {
        let t = &self.phantom_liquidity_tracker;
        proof {
            let p = t.total_depth_promises as int;
            let q = t.realized_depth as int;
            if 0 < p < WIDE_MAX {
                assert(q * SCALE as int == 80_000_000 * p) by (nonlinear_arith)
                    requires q * 10 == p * 8;
                vstd::arithmetic::div_mod::lemma_fundamental_div_mod_converse(
                    q * SCALE as int,
                    p,
                    80_000_000,
                    0,
                );
            }
        }
        if t.total_depth_promises == 0 {
            Dec::zero()
        } else {
            div_wide(t.realized_depth, t.total_depth_promises).clamp(Dec::zero(), Dec { units: SCALE })
        }
    }

    /// Best-bid/best-ask spread, `(ask - bid) / mid * 10,000`, of each stored
    /// book with both sides present and a positive mid price.
    pub fn get_real_time_spreads(&self) -> (r: Vec<(String, Dec)>)
        requires
            self.wf(),
        ensures
            crate::risk::dec_table(r@) == spreads_of(table_view(self.l2_snapshots@)),
    {
        let ghost v = table_view(self.l2_snapshots@);
        let mut out: Vec<(String, Dec)> = Vec::new();
        let mut i: usize = 0;
        assert(crate::risk::dec_table(out@) =~= spreads_of(v.subrange(0, 0)));
        while i < self.l2_snapshots.len()
            invariant
                i <= self.l2_snapshots@.len(),
                v == table_view(self.l2_snapshots@),
                crate::risk::dec_table(out@) == spreads_of(v.subrange(0, i as int)),
            decreases self.l2_snapshots@.len() - i,
        {
            assert(v.subrange(0, i + 1).drop_last() == v.subrange(0, i as int));
            let s = &self.l2_snapshots[i].1;
            if s.bids.len() > 0 && s.asks.len() > 0 {
                let b = s.bids[0].px.units as i128;
                let a = s.asks[0].px.units as i128;
                if a + b > 0 {
                    let bps = ratio((a - b) * 20_000, a + b);
                    let name = self.l2_snapshots[i].0.clone();
                    let ghost before = out@;
                    out.push((name, bps));
                    assert(crate::risk::dec_table(out@) =~= crate::risk::dec_table(before).push(
                        (v[i as int].0, bps.units as int),
                    ));
                }
            }
            i = i + 1;
        }
        assert(v.subrange(0, i as int) == v);
        out
    }
}

/// On an engine with no closed order, an order cancelled after `life` < 100 ms
/// makes the fleeting ratio and the cancellation rate 1 and the average
/// lifetime `life` milliseconds.
pub proof fn lemma_first_fleeting_cancel(f: OrderFlowAnalyzer, life: u64)
    requires
        f.total_orders == 0,
        f.fleeting_orders == 0,
        f.cancellation_events == 0,
        f.order_lifetimes@.len() == 0,
        life < FLEETING_MS,
    ensures
        ({
            let t = flow_after_close(f, life, true);
            &&& rate(t.1 as int, t.0 as int) == SCALE
            &&& rate(t.2 as int, t.0 as int) == SCALE
            &&& rate(sum_u64(t.3), t.3.len() as int) == life * SCALE
        }),
{
    let t = flow_after_close(f, life, true);
    assert(t.3 =~= seq![life]);
    assert(t.3.drop_last() =~= Seq::<u64>::empty());
    assert(sum_u64(t.3.drop_last()) == 0);
    assert(t.3.last() == life);
    assert(sum_u64(t.3) == life);
}

} // verus!
