//! Batch risk calculators: VPIN, the phantom liquidity index, liquidation and
//! cascade risk, position concentration and the cross-exchange score.

use crate::coin_map::{get_coin, get_spec, table_view, unique_keys, upsert, upsert_spec};
use crate::fixed::{clamp_int, ratio, ratio_units, sat, sat_add, trunc_div, Dec, SCALE, WIDE_MAX};
use crate::model::{fills_wf, AssetInfo, Fill, LiquidityMetrics, Meta, Side, VaultSummary};
use vstd::prelude::*;

verus! {

/// Notional volume that completes a VPIN bucket: 10,000 quote units, in 10^-16.
pub const BUCKET_NOTIONAL: i128 = 100_000_000_000_000_000_000;

/// Number of most recent buckets that VPIN averages.
pub const BUCKET_WINDOW: usize = 50;

/// Leverage ceiling from which an asset counts as major for VPIN.
pub const VPIN_MIN_LEVERAGE: u32 = 10;

/// Leverage ceiling from which an asset counts for cascade risk.
pub const CASCADE_MIN_LEVERAGE: u32 = 5;

pub open spec fn abs(x: int) -> int {
    if x < 0 {
        -x
    } else {
        x
    }
}

/// Notional volume of a fill, `price * |size|`, in 10^-16.
pub open spec fn notional(f: Fill) -> int {
    f.px.units * abs(f.sz.units as int)
}

/// Adds `vol` to one side of a bucket holding `buy` and `sell`; when the bucket
/// reaches its size it closes with value `|buy - sell| / (buy + sell)` and
/// starts again empty.
pub open spec fn bucket_step(buy: int, sell: int, side: Side, vol: int) -> (int, int, Option<int>) {
    let b = if side == Side::Buy {
        buy + vol
    } else {
        buy
    };
    let s = if side == Side::Buy {
        sell
    } else {
        sell + vol
    };
    if b + s >= BUCKET_NOTIONAL {
        (0, 0, Some(ratio_units(abs(b - s), b + s)))
    } else {
        (b, s, None)
    }
}

/// Some asset named `coin` has a leverage ceiling of at least `min_lev`.
pub open spec fn has_asset(universe: Seq<AssetInfo>, coin: Seq<char>, min_lev: int) -> bool {
    exists|i: int|
        0 <= i < universe.len() && universe[i].name@ == coin && universe[i].max_leverage
            >= min_lev
}

/// Open bucket and closed bucket values after replaying `fills` in order,
/// counting only the fills of major assets.
pub open spec fn vpin_replay(fills: Seq<Fill>, universe: Seq<AssetInfo>) -> (int, int, Seq<int>)
    decreases fills.len(),
{
    if fills.len() == 0 {
        (0, 0, Seq::empty())
    } else {
        let p = vpin_replay(fills.drop_last(), universe);
        let f = fills.last();
        if has_asset(universe, f.coin@, VPIN_MIN_LEVERAGE as int) {
            let st = bucket_step(p.0, p.1, f.side, notional(f));
            (
                st.0,
                st.1,
                match st.2 {
                    Some(v) => p.2.push(v),
                    None => p.2,
                },
            )
        } else {
            p
        }
    }
}

/// The last `BUCKET_WINDOW` elements of `s`.
pub open spec fn window(s: Seq<int>) -> Seq<int> {
    if s.len() > BUCKET_WINDOW {
        s.subrange(s.len() - BUCKET_WINDOW, s.len() as int)
    } else {
        s
    }
}

pub open spec fn sum(s: Seq<int>) -> int
    decreases s.len(),
{
    if s.len() == 0 {
        0
    } else {
        sum(s.drop_last()) + s.last()
    }
}

/// Mean of `s` rounded down, 0 for an empty sequence.
pub open spec fn mean_units(s: Seq<int>) -> int {
    if s.len() == 0 {
        0
    } else {
        sum(s) / s.len() as int
    }
}

/// VPIN of a fill history: the mean of its last `BUCKET_WINDOW` bucket values.
pub open spec fn vpin_of(fills: Seq<Fill>, universe: Seq<AssetInfo>) -> int {
    mean_units(window(vpin_replay(fills, universe).2))
}

pub open spec fn units_of(s: Seq<Dec>) -> Seq<int> {
    s.map_values(|d: Dec| d.units as int)
}

/// Every element lies in `[0, 1]`.
pub open spec fn all_unit(s: Seq<int>) -> bool {
    forall|i: int| 0 <= i < s.len() ==> 0 <= #[trigger] s[i] <= SCALE
}

/// `a / b` lies in `[0, 1]` when `0 <= a <= b`.
pub proof fn lemma_ratio_unit(a: int, b: int)
    requires
        0 <= a <= b,
        b > 0,
    ensures
        0 <= ratio_units(a, b) <= SCALE,
{
    assert(a * SCALE as int <= b * SCALE as int) by (nonlinear_arith)
        requires a <= b;
    assert((a * SCALE as int) / b <= SCALE) by {
        vstd::arithmetic::div_mod::lemma_div_is_ordered(a * SCALE as int, b * SCALE as int, b);
        vstd::arithmetic::div_mod::lemma_div_multiples_vanish(SCALE as int, b);
        assert(b * SCALE as int == SCALE as int * b) by (nonlinear_arith);
    }
    assert(a * SCALE as int >= 0) by (nonlinear_arith)
        requires a >= 0;
}

/// A sequence of values in `[0, 1]` sums to at most its length.
pub proof fn lemma_sum_unit(s: Seq<int>)
    requires
        all_unit(s),
    ensures
        0 <= sum(s) <= s.len() * SCALE,
    decreases s.len(),
{
    if s.len() > 0 {
        assert(all_unit(s.drop_last()));
        lemma_sum_unit(s.drop_last());
        assert(0 <= s[s.len() - 1] <= SCALE);
    }
}

/// The mean of values in `[0, 1]` lies in `[0, 1]`.
pub proof fn lemma_mean_unit(s: Seq<int>)
    requires
        all_unit(s),
    ensures
        0 <= mean_units(s) <= SCALE,
{
    if s.len() > 0 {
        lemma_sum_unit(s);
        let n = s.len() as int;
        vstd::arithmetic::div_mod::lemma_div_is_ordered(sum(s), n * SCALE as int, n);
        vstd::arithmetic::div_mod::lemma_div_multiples_vanish(SCALE as int, n);
        assert(n * SCALE as int == SCALE as int * n) by (nonlinear_arith);
        vstd::arithmetic::div_mod::lemma_div_pos_is_pos(sum(s), n);
    }
}

/// A closed bucket's value lies in `[0, 1]`, and an open bucket stays below its size.
pub proof fn lemma_bucket_step(buy: int, sell: int, side: Side, vol: int)
    requires
        0 <= buy,
        0 <= sell,
        buy + sell < BUCKET_NOTIONAL,
        0 <= vol,
    ensures
        ({
            let r = bucket_step(buy, sell, side, vol);
            &&& 0 <= r.0 && 0 <= r.1 && r.0 + r.1 < BUCKET_NOTIONAL
            &&& (r.2 matches Some(v) ==> 0 <= v <= SCALE)
        }),
{
    let b = if side == Side::Buy {
        buy + vol
    } else {
        buy
    };
    let s = if side == Side::Buy {
        sell
    } else {
        sell + vol
    };
    if b + s >= BUCKET_NOTIONAL {
        lemma_ratio_unit(abs(b - s), b + s);
    }
}

/// Every value that the replay closes lies in `[0, 1]`.
pub proof fn lemma_replay_unit(fills: Seq<Fill>, universe: Seq<AssetInfo>)
    requires
        fills_wf(fills),
    ensures
        ({
            let r = vpin_replay(fills, universe);
            &&& 0 <= r.0 && 0 <= r.1 && r.0 + r.1 < BUCKET_NOTIONAL
            &&& all_unit(r.2)
        }),
    decreases fills.len(),
{
    if fills.len() > 0 {
        let t = fills.drop_last();
        assert(fills_wf(t)) by {
            assert forall|i: int| 0 <= i < t.len() implies #[trigger] t[i].wf() by {
                assert(t[i] == fills[i]);
            }
        }
        lemma_replay_unit(t, universe);
        let f = fills.last();
        assert(f.wf()) by {
            assert(fills[fills.len() - 1].wf());
        }
        assert(notional(f) >= 0) by (nonlinear_arith)
            requires f.px.units >= 0;
        lemma_bucket_step(vpin_replay(t, universe).0, vpin_replay(t, universe).1, f.side, notional(f));
    }
}

/// VPIN lies in `[0, 1]` for every fill history, and is 0 without fills.
pub proof fn lemma_vpin_unit(fills: Seq<Fill>, universe: Seq<AssetInfo>)
    requires
        fills_wf(fills),
    ensures
        0 <= vpin_of(fills, universe) <= SCALE,
        fills.len() == 0 ==> vpin_of(fills, universe) == 0,
{
    lemma_replay_unit(fills, universe);
    let b = vpin_replay(fills, universe).2;
    assert(all_unit(window(b))) by {
        if b.len() > BUCKET_WINDOW {
            assert forall|i: int| 0 <= i < window(b).len() implies 0 <= #[trigger] window(b)[i]
                <= SCALE by {
                assert(window(b)[i] == b[i + b.len() - BUCKET_WINDOW]);
            }
        }
    }
    lemma_mean_unit(window(b));
}

/// Two fills of equal volume on opposite sides that together fill an empty
/// bucket exactly close it with imbalance 0.
pub proof fn lemma_balanced_bucket(first: Side, second: Side, vol: int)
    requires
        vol >= 0,
        2 * vol == BUCKET_NOTIONAL,
        first != second,
    ensures
        bucket_step(0, 0, first, vol).2 is None,
        bucket_step(bucket_step(0, 0, first, vol).0, bucket_step(0, 0, first, vol).1, second, vol).2
            == Some(0int),
{
}

/// A buy that brings a bucket without sell volume to its size closes it with
/// imbalance 1.
pub proof fn lemma_one_sided_bucket(buy: int, vol: int)
    requires
        buy >= 0,
        vol >= 0,
        buy + vol >= BUCKET_NOTIONAL,
    ensures
        bucket_step(buy, 0, Side::Buy, vol).2 == Some(SCALE as int),
{
    let b = buy + vol;
    vstd::arithmetic::div_mod::lemma_div_multiples_vanish(SCALE as int, b);
    assert(b * SCALE as int == SCALE as int * b) by (nonlinear_arith);
}

/// Whether `universe` holds an asset named `coin` with leverage ceiling at least `min_lev`.
pub fn has_asset_exec(universe: &Vec<AssetInfo>, coin: &String, min_lev: u32) -> (r: bool)
    ensures
        r == has_asset(universe@, coin@, min_lev as int),
{
    let mut i: usize = 0;
    while i < universe.len()
        invariant
            i <= universe@.len(),
            forall|j: int|
                0 <= j < i ==> !(universe@[j].name@ == coin@ && universe@[j].max_leverage
                    >= min_lev),
        decreases universe@.len() - i,
    {
        if universe[i].max_leverage >= min_lev && universe[i].name == *coin {
            return true;
        }
        i = i + 1;
    }
    false
}

/// `price * |size|` of a fill, in 10^-16.
pub fn fill_notional(f: &Fill) -> (r: i128)
    requires
        f.wf(),
    ensures
        r == notional(*f),
        0 <= r <= 9223372036854775807 * 9223372036854775808,
{
    let p = f.px.units as i128;
    let s: i128 = if f.sz.units < 0 {
        -(f.sz.units as i128)
    } else {
        f.sz.units as i128
    };
    assert(0 <= p * s <= 9223372036854775807 * 9223372036854775808) by (nonlinear_arith)
        requires 0 <= p <= 9223372036854775807, 0 <= s <= 9223372036854775808;
    p * s
}

/// Adds `vol` to one side of an open bucket, closing it when it reaches its size.
pub fn add_to_bucket(buy: i128, sell: i128, side: Side, vol: i128) -> (r: (i128, i128, Option<Dec>))
    requires
        0 <= buy,
        0 <= sell,
        buy + sell < BUCKET_NOTIONAL,
        0 <= vol <= 9223372036854775807 * 9223372036854775808,
    ensures
        r.0 == bucket_step(buy as int, sell as int, side, vol as int).0,
        r.1 == bucket_step(buy as int, sell as int, side, vol as int).1,
        r.2 matches Some(v) ==> bucket_step(buy as int, sell as int, side, vol as int).2 == Some(
            v.units as int,
        ),
        r.2 is None ==> bucket_step(buy as int, sell as int, side, vol as int).2 is None,
{
    let (b, s) = match side {
        Side::Buy => (buy + vol, sell),
        Side::Sell => (buy, sell + vol),
    };
    if b + s >= BUCKET_NOTIONAL {
        let imbalance = if b >= s {
            b - s
        } else {
            s - b
        };
        (0, 0, Some(ratio(imbalance, b + s)))
    } else {
        (b, s, None)
    }
}

/// Mean of the last `BUCKET_WINDOW` values, rounded down; 0 when there are none.
pub fn window_mean(buckets: &Vec<Dec>) -> (r: Dec)
    requires
        all_unit(units_of(buckets@)),
    ensures
        r.units == mean_units(window(units_of(buckets@))),
        0 <= r.units <= SCALE,
{
    let ghost all = units_of(buckets@);
    let n = buckets.len();
    let start: usize = if n > BUCKET_WINDOW {
        n - BUCKET_WINDOW
    } else {
        0
    };
    let ghost w = all.subrange(start as int, n as int);
    assert(window(all) == w);
    let mut acc: i64 = 0;
    let mut i: usize = start;
    while i < n
        invariant
            start <= i <= n,
            n == buckets@.len(),
            all == units_of(buckets@),
            all_unit(all),
            n - start <= BUCKET_WINDOW,
            acc == sum(all.subrange(start as int, i as int)),
            0 <= acc <= (i - start) * SCALE,
        decreases n - i,
    {
        assert(all.subrange(start as int, i + 1).drop_last() == all.subrange(start as int, i as int));
        assert(all[i as int] == buckets@[i as int].units);
        acc = acc + buckets[i].units;
        i = i + 1;
    }
    proof {
        lemma_mean_unit(w);
        assert(all_unit(w));
    }
    if n == start {
        Dec::zero()
    } else {
        Dec { units: acc / ((n - start) as i64) }
    }
}

/// `t` with `f` placed after every fill of `t` not later than it, scanning from
/// the end: inserting into a time-ordered sequence keeps it ordered, and fills
/// of equal time keep their arrival order.
pub open spec fn insert_by_time(t: Seq<Fill>, f: Fill) -> Seq<Fill>
    decreases t.len(),
{
    if t.len() == 0 {
        seq![f]
    } else if t.last().time <= f.time {
        t.push(f)
    } else {
        insert_by_time(t.drop_last(), f).push(t.last())
    }
}

/// The fills in time order; fills of equal time keep their order.
pub open spec fn by_time(s: Seq<Fill>) -> Seq<Fill>
    decreases s.len(),
{
    if s.len() == 0 {
        Seq::empty()
    } else {
        insert_by_time(by_time(s.drop_last()), s.last())
    }
}

/// Inserting at the position found by scanning back over later fills.
proof fn lemma_insert_at(t: Seq<Fill>, f: Fill, j: int)
    requires
        0 <= j <= t.len(),
        j == 0 || t[j - 1].time <= f.time,
        forall|k: int| j <= k < t.len() ==> t[k].time > f.time,
    ensures
        insert_by_time(t, f) == t.subrange(0, j).push(f) + t.subrange(j, t.len() as int),
    decreases t.len(),
{
    if t.len() == 0 {
        assert(seq![f] =~= t.subrange(0, j).push(f) + t.subrange(j, t.len() as int));
    } else if j == t.len() {
        assert(t.last().time <= f.time);
        assert(t.push(f) =~= t.subrange(0, j).push(f) + t.subrange(j, t.len() as int));
    } else {
        let u = t.drop_last();
        assert(t.last().time > f.time);
        assert forall|k: int| j <= k < u.len() implies u[k].time > f.time by {
            assert(u[k] == t[k]);
        }
        lemma_insert_at(u, f, j);
        assert(insert_by_time(u, f).push(t.last()) =~= t.subrange(0, j).push(f) + t.subrange(
            j,
            t.len() as int,
        ));
    }
}

/// Every element of the insertion is `f` or an element of `t`.
proof fn lemma_insert_members(t: Seq<Fill>, f: Fill)
    ensures
        insert_by_time(t, f).len() == t.len() + 1,
        forall|i: int|
            0 <= i < insert_by_time(t, f).len() ==> #[trigger] insert_by_time(t, f)[i] == f || exists|
                k: int,
            | 0 <= k < t.len() && t[k] == insert_by_time(t, f)[i],
    decreases t.len(),
{
    if t.len() > 0 && t.last().time > f.time {
        let u = t.drop_last();
        lemma_insert_members(u, f);
        let r = insert_by_time(t, f);
        assert forall|i: int| 0 <= i < r.len() implies #[trigger] r[i] == f || exists|k: int|
            0 <= k < t.len() && t[k] == r[i] by {
            if i == r.len() - 1 {
                assert(t[t.len() - 1] == r[i]);
            } else {
                assert(r[i] == insert_by_time(u, f)[i]);
                if r[i] != f {
                    let k = choose|k: int| 0 <= k < u.len() && u[k] == insert_by_time(u, f)[i];
                    assert(t[k] == u[k]);
                }
            }
        }
    } else if t.len() > 0 {
        let r = insert_by_time(t, f);
        assert forall|i: int| 0 <= i < r.len() implies #[trigger] r[i] == f || exists|k: int|
            0 <= k < t.len() && t[k] == r[i] by {
            if i < t.len() {
                assert(t[i] == r[i]);
            }
        }
    }
}

/// Time ordering keeps every fill well formed.
pub proof fn lemma_by_time_wf(s: Seq<Fill>)
    requires
        fills_wf(s),
    ensures
        fills_wf(by_time(s)),
        by_time(s).len() == s.len(),
    decreases s.len(),
{
    if s.len() > 0 {
        let u = s.drop_last();
        assert(fills_wf(u)) by {
            assert forall|i: int| 0 <= i < u.len() implies #[trigger] u[i].wf() by {
                assert(u[i] == s[i]);
            }
        }
        lemma_by_time_wf(u);
        let t = by_time(u);
        lemma_insert_members(t, s.last());
        assert(s[s.len() - 1].wf());
        let r = insert_by_time(t, s.last());
        assert forall|i: int| 0 <= i < r.len() implies #[trigger] r[i].wf() by {
            if r[i] != s.last() {
                let k = choose|k: int| 0 <= k < t.len() && t[k] == r[i];
                assert(t[k].wf());
            }
        }
    }
}

/// The fills named by `idx`, in its order.
pub open spec fn pick(fills: Seq<Fill>, idx: Seq<usize>) -> Seq<Fill> {
    idx.map_values(|i: usize| fills[i as int])
}

/// Positions of the fills in time order; fills of equal time keep their order.
pub fn time_order(fills: &Vec<Fill>) -> (r: Vec<usize>)
    ensures
        pick(fills@, r@) == by_time(fills@),
        forall|k: int| 0 <= k < r@.len() ==> r@[k] < fills@.len(),
{
    let mut idx: Vec<usize> = Vec::new();
    let mut i: usize = 0;
    assert(pick(fills@, idx@) =~= by_time(fills@.subrange(0, 0)));
    while i < fills.len()
        invariant
            i <= fills@.len(),
            pick(fills@, idx@) == by_time(fills@.subrange(0, i as int)),
            forall|k: int| 0 <= k < idx@.len() ==> idx@[k] < i,
        decreases fills@.len() - i,
    {
        assert(fills@.subrange(0, i + 1).drop_last() == fills@.subrange(0, i as int));
        assert(fills@.subrange(0, i + 1).last() == fills@[i as int]);
        let ghost t = pick(fills@, idx@);
        let t_time = fills[i].time;
        let mut j: usize = idx.len();
        while j > 0 && fills[idx[j - 1]].time > t_time
            invariant
                j <= idx@.len(),
                t == pick(fills@, idx@),
                i < fills@.len(),
                t_time == fills@[i as int].time,
                forall|k: int| 0 <= k < idx@.len() ==> idx@[k] < i,
                forall|k: int| j <= k < t.len() ==> t[k].time > t_time,
            decreases j,
        {
            j = j - 1;
        }
        proof {
            lemma_insert_at(t, fills@[i as int], j as int);
        }
        let ghost before = idx@;
        idx.insert(j, i);
        assert(pick(fills@, idx@) =~= t.subrange(0, j as int).push(fills@[i as int]) + t.subrange(
            j as int,
            t.len() as int,
        ));
        i = i + 1;
    }
    assert(fills@.subrange(0, i as int) == fills@);
    idx
}

/// VPIN over a fill history: replayed in time order, the fills of assets with
/// a leverage ceiling of at least 10 fill buckets of 10,000 quote units; the
/// result is the mean imbalance of the last 50 closed buckets, or 0 when none
/// closed.
pub fn calculate_vpin(fills: &Vec<Fill>, meta: &Meta) -> (r: Dec)
    requires
        fills_wf(fills@),
    ensures
        r.units == vpin_of(by_time(fills@), meta.universe@),
        0 <= r.units <= SCALE,
        fills@.len() == 0 ==> r.units == 0,
{
    let order = time_order(fills);
    let ghost sorted = by_time(fills@);
    proof {
        lemma_by_time_wf(fills@);
    }
    let mut buy: i128 = 0;
    let mut sell: i128 = 0;
    let mut buckets: Vec<Dec> = Vec::new();
    let mut i: usize = 0;
    while i < order.len()
        invariant
            i <= order@.len(),
            sorted == by_time(fills@),
            pick(fills@, order@) == sorted,
            forall|k: int| 0 <= k < order@.len() ==> order@[k] < fills@.len(),
            fills_wf(sorted),
            ({
                let p = vpin_replay(sorted.subrange(0, i as int), meta.universe@);
                &&& p.0 == buy && p.1 == sell && p.2 == units_of(buckets@)
            }),
            0 <= buy,
            0 <= sell,
            buy + sell < BUCKET_NOTIONAL,
            all_unit(units_of(buckets@)),
        decreases order@.len() - i,
    {
        let f = &fills[order[i]];
        assert(sorted[i as int] == fills@[order@[i as int] as int]);
        assert(sorted.subrange(0, i + 1).drop_last() == sorted.subrange(0, i as int));
        assert(sorted[i as int].wf());
        if has_asset_exec(&meta.universe, &f.coin, VPIN_MIN_LEVERAGE) {
            let vol = fill_notional(f);
            proof {
                lemma_bucket_step(buy as int, sell as int, f.side, vol as int);
            }
            let (b, s, closed) = add_to_bucket(buy, sell, f.side, vol);
            buy = b;
            sell = s;
            match closed {
                Some(v) => {
                    let ghost before = buckets@;
                    buckets.push(v);
                    assert(units_of(buckets@) == units_of(before).push(v.units as int));
                },
                None => {},
            }
        }
        i = i + 1;
    }
    assert(sorted.subrange(0, sorted.len() as int) == sorted);
    proof {
        lemma_vpin_unit(sorted, meta.universe@);
    }
    window_mean(&buckets)
}

// Phantom liquidity index, batch formula.

/// The values of a per-coin table of `Dec`s.
pub open spec fn table_units(t: Seq<(String, Dec)>) -> Seq<int> {
    t.map_values(|e: (String, Dec)| e.1.units as int)
}

/// Mean toward zero, 0 for an empty sequence.
pub open spec fn avg_units(s: Seq<int>) -> int {
    if s.len() == 0 {
        0
    } else {
        trunc_div(sum(s), s.len() as int)
    }
}

/// `0.25 fleeting + 0.20 (1 - fill probability) + 0.20 layering + 0.20 spoofing
/// + 0.15 (1 - realization)`, clamped to `[0, 1]`.
pub open spec fn pli_units(
    fleeting: int,
    fill_prob: int,
    layering: int,
    spoofing: int,
    realization: int,
) -> int {
    clamp_int(
        trunc_div(
            25 * fleeting + 20 * (SCALE - fill_prob) + 20 * layering + 20 * spoofing + 15 * (SCALE
                - realization),
            100,
        ),
        0,
        SCALE as int,
    )
}

/// `x / d` rounded toward zero.
pub fn trunc_div_exec(x: i128, d: i128) -> (r: i128)
    requires
        d > 0,
        x > i128::MIN,
    ensures
        r == trunc_div(x as int, d as int),
{
    if x >= 0 {
        x / d
    } else {
        -((-x) / d)
    }
}

/// Mean of the values of a per-coin table, toward zero; 0 when it is empty.
pub fn table_mean(t: &Vec<(String, Dec)>) -> (r: Dec)
    ensures
        r.units == avg_units(table_units(t@)),
{
    let ghost vals = table_units(t@);
    let mut acc: i128 = 0;
    let mut i: usize = 0;
    while i < t.len()
        invariant
            i <= t@.len(),
            vals == table_units(t@),
            acc == sum(vals.subrange(0, i as int)),
            -(i * 9223372036854775808) <= acc <= i * 9223372036854775807,
        decreases t@.len() - i,
    {
        assert(vals.subrange(0, i + 1).drop_last() == vals.subrange(0, i as int));
        acc = acc + t[i].1.units as i128;
        i = i + 1;
    }
    assert(vals.subrange(0, i as int) == vals);
    if i == 0 {
        Dec::zero()
    } else {
        let q = trunc_div_exec(acc, i as i128);
        proof {
            let n = i as int;
            let a = acc as int;
            if a >= 0 {
                assert(a / n <= a) by (nonlinear_arith)
                    requires a >= 0, n >= 1;
                assert(a / n <= 9223372036854775807) by (nonlinear_arith)
                    requires a >= 0, n >= 1, a <= n * 9223372036854775807;
            } else {
                assert((-a) / n <= 9223372036854775808) by (nonlinear_arith)
                    requires -a >= 0, n >= 1, -a <= n * 9223372036854775808;
                assert((-a) / n >= 0) by (nonlinear_arith)
                    requires -a >= 0, n >= 1;
            }
        }
        Dec { units: q as i64 }
    }
}

/// Phantom liquidity index from batch liquidity figures: `0.25 fleeting ratio +
/// 0.20 (1 - mean fill probability) + 0.20 layering + 0.20 spoofing + 0.15 (1 -
/// realization rate)`, clamped to `[0, 1]` whatever the inputs.
pub fn calculate_phantom_liquidity_index(lm: &LiquidityMetrics) -> (r: Dec)
    ensures
        r.units == pli_units(
            lm.fleeting_order_ratio.units as int,
            avg_units(table_units(lm.fill_probability_by_distance@)),
            lm.layering_detection_score.units as int,
            lm.spoofing_detection_index.units as int,
            lm.liquidity_realization_rate.units as int,
        ),
        0 <= r.units <= SCALE,
{
    let p = table_mean(&lm.fill_probability_by_distance);
    let s = SCALE as i128;
    let total: i128 = 25 * (lm.fleeting_order_ratio.units as i128) + 20 * (s - p.units as i128)
        + 20 * (lm.layering_detection_score.units as i128) + 20 * (
    lm.spoofing_detection_index.units as i128) + 15 * (s - lm.liquidity_realization_rate.units as i128);
    let t = trunc_div_exec(total, 100);
    if t < 0 {
        Dec::zero()
    } else if t > s {
        Dec { units: SCALE }
    } else {
        Dec { units: t as i64 }
    }
}

// Liquidation risk.

/// `a / b` as `Dec` units for a nonzero `b`.
pub open spec fn div_units(a: int, b: int) -> int {
    if b > 0 {
        ratio_units(a, b)
    } else {
        ratio_units(-a, -b)
    }
}

/// `1 - equity / tvl + 0.5 clamp(drawdown, 0, 1)`, clamped to `[0, 1]`; 1 when tvl is zero.
pub open spec fn liquidation_units(v: VaultSummary) -> int {
    if v.tvl.units == 0 {
        SCALE as int
    } else {
        clamp_int(
            SCALE - div_units(v.equity.units as int, v.tvl.units as int) + clamp_int(
                v.max_drawdown.units as int,
                0,
                SCALE as int,
            ) / 2,
            0,
            SCALE as int,
        )
    }
}

/// `a / b` for a nonzero `b`, rounded toward zero and saturating.
pub fn div_dec(a: i64, b: i64) -> (r: Dec)
    requires
        b != 0,
    ensures
        r.units == div_units(a as int, b as int),
{
    if b > 0 {
        ratio(a as i128, b as i128)
    } else {
        ratio(-(a as i128), -(b as i128))
    }
}

/// Liquidation risk: `1 - equity / tvl` plus half the drawdown (clamped to
/// `[0, 1]`), clamped to `[0, 1]`; exactly 1 when tvl is zero.
pub fn calculate_liquidation_risk(vault_summary: &VaultSummary) -> (r: Dec)
    ensures
        r.units == liquidation_units(*vault_summary),
        0 <= r.units <= SCALE,
        vault_summary.tvl.units == 0 ==> r.units == SCALE,
{
    if vault_summary.tvl.units == 0 {
        return Dec { units: SCALE };
    }
    let equity_ratio = div_dec(vault_summary.equity.units, vault_summary.tvl.units);
    let dd = vault_summary.max_drawdown.clamp(Dec::zero(), Dec { units: SCALE });
    let adjusted: i128 = SCALE as i128 - equity_ratio.units as i128 + (dd.units / 2) as i128;
    if adjusted < 0 {
        Dec::zero()
    } else if adjusted > SCALE as i128 {
        Dec { units: SCALE }
    } else {
        Dec { units: adjusted as i64 }
    }
}

// Asset correlation.

/// Known pairwise correlations, in hundredths.
pub open spec fn correlation_table() -> Seq<(Seq<char>, Seq<char>, int)> {
    seq![
        ("BTC"@, "ETH"@, 70),
        ("ETH"@, "SOL"@, 60),
        ("BTC"@, "SOL"@, 50),
        ("ETH"@, "AVAX"@, 80),
        ("SOL"@, "AVAX"@, 70),
        ("BTC"@, "DOGE"@, 40),
        ("ETH"@, "MATIC"@, 60),
        ("LINK"@, "UNI"@, 50),
        ("AAVE"@, "COMP"@, 70),
    ]
}

/// Sum (hundredths) and count of the known pairs whose two assets both have a
/// leverage ceiling of at least 5.
pub open spec fn correlation_acc(universe: Seq<AssetInfo>, pairs: Seq<(Seq<char>, Seq<char>, int)>) -> (int, int)
    decreases pairs.len(),
{
    if pairs.len() == 0 {
        (0, 0)
    } else {
        let p = correlation_acc(universe, pairs.drop_last());
        let e = pairs.last();
        if has_asset(universe, e.0, CASCADE_MIN_LEVERAGE as int) && has_asset(
            universe,
            e.1,
            CASCADE_MIN_LEVERAGE as int,
        ) {
            (p.0 + e.2, p.1 + 1)
        } else {
            p
        }
    }
}

/// Mean correlation of the known pairs present, 0.5 when none is.
pub open spec fn correlation_units(universe: Seq<AssetInfo>) -> int {
    let a = correlation_acc(universe, correlation_table());
    if a.1 == 0 {
        SCALE / 2
    } else {
        (a.0 * 1_000_000) / a.1
    }
}

proof fn lemma_correlation_acc(universe: Seq<AssetInfo>, pairs: Seq<(Seq<char>, Seq<char>, int)>)
    requires
        forall|i: int| 0 <= i < pairs.len() ==> 0 <= #[trigger] pairs[i].2 <= 100,
    ensures
        0 <= correlation_acc(universe, pairs).0 <= 100 * correlation_acc(universe, pairs).1,
        0 <= correlation_acc(universe, pairs).1 <= pairs.len(),
    decreases pairs.len(),
{
    if pairs.len() > 0 {
        let t = pairs.drop_last();
        assert forall|i: int| 0 <= i < t.len() implies 0 <= #[trigger] t[i].2 <= 100 by {
            assert(t[i] == pairs[i]);
        }
        lemma_correlation_acc(universe, t);
        assert(0 <= pairs[pairs.len() - 1].2 <= 100);
    }
}

/// The mean correlation lies in `[0, 1]`.
proof fn lemma_correlation_unit(universe: Seq<AssetInfo>)
    ensures
        0 <= correlation_units(universe) <= SCALE,
{
    let t = correlation_table();
    assert forall|i: int| 0 <= i < t.len() implies 0 <= #[trigger] t[i].2 <= 100 by {}
    lemma_correlation_acc(universe, t);
    let a = correlation_acc(universe, t);
    if a.1 > 0 {
        assert(0 <= (a.0 * 1_000_000) / a.1 <= 100_000_000) by (nonlinear_arith)
            requires 0 <= a.0 <= 100 * a.1, a.1 > 0;
    }
}

/// Mean of the known pairwise correlations among the assets of `meta` with a
/// leverage ceiling of at least 5; 0.5 when no known pair is present.
pub fn calculate_asset_correlation(meta: &Meta) -> (r: Dec)
    ensures
        r.units == correlation_units(meta.universe@),
        0 <= r.units <= SCALE,
{
    let pairs: Vec<(String, String, i64)> = vec![
        ("BTC".to_owned(), "ETH".to_owned(), 70),
        ("ETH".to_owned(), "SOL".to_owned(), 60),
        ("BTC".to_owned(), "SOL".to_owned(), 50),
        ("ETH".to_owned(), "AVAX".to_owned(), 80),
        ("SOL".to_owned(), "AVAX".to_owned(), 70),
        ("BTC".to_owned(), "DOGE".to_owned(), 40),
        ("ETH".to_owned(), "MATIC".to_owned(), 60),
        ("LINK".to_owned(), "UNI".to_owned(), 50),
        ("AAVE".to_owned(), "COMP".to_owned(), 70),
    ];
    let ghost table = correlation_table();
    assert(pairs@.len() == table.len());
    let mut total: i64 = 0;
    let mut count: i64 = 0;
    let mut i: usize = 0;
    while i < pairs.len()
        invariant
            i <= pairs@.len(),
            pairs@.len() == table.len(),
            table == correlation_table(),
            forall|j: int|
                0 <= j < pairs@.len() ==> (#[trigger] pairs@[j]).0@ == table[j].0 && pairs@[j].1@
                    == table[j].1 && pairs@[j].2 == table[j].2,
            (total as int, count as int) == correlation_acc(meta.universe@, table.subrange(0, i as int)),
            0 <= total <= 100 * i,
            0 <= count <= i,
        decreases pairs@.len() - i,
    {
        assert(table.subrange(0, i + 1).drop_last() == table.subrange(0, i as int));
        assert(pairs@[i as int].2 <= 100);
        if has_asset_exec(&meta.universe, &pairs[i].0, CASCADE_MIN_LEVERAGE) && has_asset_exec(
            &meta.universe,
            &pairs[i].1,
            CASCADE_MIN_LEVERAGE,
        ) {
            total = total + pairs[i].2;
            count = count + 1;
        }
        i = i + 1;
    }
    assert(table.subrange(0, table.len() as int) == table);
    proof {
        lemma_correlation_unit(meta.universe@);
    }
    if count == 0 {
        Dec { units: SCALE / 2 }
    } else {
        Dec { units: (total * 1_000_000) / count }
    }
}

// Per-coin accumulation.

/// Every value of the table lies within `[-WIDE_MAX, WIDE_MAX]`.
pub open spec fn wide_table(t: Seq<(Seq<char>, i128)>) -> bool {
    forall|i: int| 0 <= i < t.len() ==> -WIDE_MAX <= #[trigger] t[i].1
}

/// `t` with `d` added (saturating) to the value of `k`, which starts at 0.
pub open spec fn add_to_table(t: Seq<(Seq<char>, i128)>, k: Seq<char>, d: int) -> Seq<(Seq<char>, i128)> {
    let cur = match get_spec(t, k) {
        Some(x) => x as int,
        None => 0,
    };
    upsert_spec(t, k, sat(cur + d) as i128)
}

/// Adds `d` (saturating) to the value of `coin`, which starts at 0.
pub fn add_to_coin(t: &mut Vec<(String, i128)>, coin: &String, d: i128)
    requires
        unique_keys(old(t)@),
        wide_table(table_view(old(t)@)),
        -WIDE_MAX <= d,
    ensures
        unique_keys(final(t)@),
        wide_table(table_view(final(t)@)),
        table_view(final(t)@) == add_to_table(table_view(old(t)@), coin@, d as int),
{
    let ghost before = table_view(t@);
    let cur: i128 = match get_coin(t, coin) {
        Some(x) => {
            proof {
                let j = choose|j: int| 0 <= j < before.len() && before[j].0 == coin@;
                assert(-WIDE_MAX <= before[j].1);
            }
            x
        },
        None => 0,
    };
    let v = sat_add(cur, d);
    upsert(t, coin, v);
    proof {
        let after = table_view(t@);
        assert forall|i: int| 0 <= i < after.len() implies -WIDE_MAX <= #[trigger] after[i].1 by {
            if i < before.len() && after[i] == before[i] {
            } else {
                assert(after[i].1 == v);
            }
        }
    }
}

/// Saturating sum of the magnitudes of a table's values.
pub open spec fn abs_total(t: Seq<(Seq<char>, i128)>) -> int
    decreases t.len(),
{
    if t.len() == 0 {
        0
    } else {
        sat(abs_total(t.drop_last()) + abs(t.last().1 as int))
    }
}

/// Every magnitude is at most the saturating total, which is not negative.
proof fn lemma_abs_total(t: Seq<(Seq<char>, i128)>)
    requires
        wide_table(t),
    ensures
        0 <= abs_total(t) <= WIDE_MAX,
        forall|i: int| 0 <= i < t.len() ==> abs(#[trigger] t[i].1 as int) <= abs_total(t),
    decreases t.len(),
{
    if t.len() > 0 {
        let u = t.drop_last();
        assert(wide_table(u)) by {
            assert forall|i: int| 0 <= i < u.len() implies -WIDE_MAX <= #[trigger] u[i].1 by {
                assert(u[i] == t[i]);
            }
        }
        lemma_abs_total(u);
        assert(-WIDE_MAX <= t[t.len() - 1].1);
        assert forall|i: int| 0 <= i < t.len() implies abs(#[trigger] t[i].1 as int) <= abs_total(
            t,
        ) by {
            if i < u.len() {
                assert(u[i] == t[i]);
            }
        }
    }
}

/// Saturating sum of the magnitudes of a table's values.
pub fn abs_total_exec(t: &Vec<(String, i128)>) -> (r: i128)
    requires
        wide_table(table_view(t@)),
    ensures
        r == abs_total(table_view(t@)),
        0 <= r,
{
    let ghost v = table_view(t@);
    let mut acc: i128 = 0;
    let mut i: usize = 0;
    proof {
        lemma_abs_total(v);
    }
    while i < t.len()
        invariant
            i <= t@.len(),
            v == table_view(t@),
            wide_table(v),
            acc == abs_total(v.subrange(0, i as int)),
            0 <= acc,
        decreases t@.len() - i,
    {
        assert(v.subrange(0, i + 1).drop_last() == v.subrange(0, i as int));
        assert(v[i as int].1 == t@[i as int].1);
        assert(-WIDE_MAX <= v[i as int].1);
        let x = t[i].1;
        let m: i128 = if x < 0 {
            -x
        } else {
            x
        };
        acc = sat_add(acc, m);
        i = i + 1;
    }
    assert(v.subrange(0, i as int) == v);
    acc
}

// Cascade risk.

/// Size of a fill signed by its side.
pub open spec fn signed_size(f: Fill) -> int {
    if f.side == Side::Buy {
        f.sz.units as int
    } else {
        -(f.sz.units as int)
    }
}

/// Net signed position per asset with a leverage ceiling of at least 5, in order
/// of first trade.
pub open spec fn net_positions(fills: Seq<Fill>, universe: Seq<AssetInfo>) -> Seq<(Seq<char>, i128)>
    decreases fills.len(),
{
    if fills.len() == 0 {
        Seq::empty()
    } else {
        let t = net_positions(fills.drop_last(), universe);
        let f = fills.last();
        if has_asset(universe, f.coin@, CASCADE_MIN_LEVERAGE as int) {
            add_to_table(t, f.coin@, signed_size(f))
        } else {
            t
        }
    }
}

/// Herfindahl index of the table's magnitudes against `total`: the sum of the
/// squared weights, each weight and square rounded down.
pub open spec fn hhi_units(t: Seq<(Seq<char>, i128)>, total: int) -> int
    decreases t.len(),
{
    if t.len() == 0 {
        0
    } else {
        let w = ratio_units(abs(t.last().1 as int), total);
        hhi_units(t.drop_last(), total) + (w * w) / SCALE as int
    }
}

/// Cascade risk: Herfindahl index of the net positions times the mean asset
/// correlation times 0.8, clamped to `[0, 1]`; 0 without fills or exposure.
pub open spec fn cascade_units(fills: Seq<Fill>, universe: Seq<AssetInfo>) -> int {
    let t = net_positions(fills, universe);
    let total = abs_total(t);
    if fills.len() == 0 || total == 0 {
        0
    } else {
        clamp_int(
            (hhi_units(t, total) * correlation_units(universe) * 8) / (10 * SCALE as int),
            0,
            SCALE as int,
        )
    }
}

/// Net signed positions per asset with a leverage ceiling of at least 5.
pub fn net_positions_exec(fills: &Vec<Fill>, meta: &Meta) -> (r: Vec<(String, i128)>)
    ensures
        unique_keys(r@),
        wide_table(table_view(r@)),
        table_view(r@) == net_positions(fills@, meta.universe@),
{
    let mut t: Vec<(String, i128)> = Vec::new();
    let mut i: usize = 0;
    assert(table_view(t@) =~= Seq::<(Seq<char>, i128)>::empty());
    while i < fills.len()
        invariant
            i <= fills@.len(),
            unique_keys(t@),
            wide_table(table_view(t@)),
            table_view(t@) == net_positions(fills@.subrange(0, i as int), meta.universe@),
        decreases fills@.len() - i,
    {
        assert(fills@.subrange(0, i + 1).drop_last() == fills@.subrange(0, i as int));
        let f = &fills[i];
        if has_asset_exec(&meta.universe, &f.coin, CASCADE_MIN_LEVERAGE) {
            let d: i128 = match f.side {
                Side::Buy => f.sz.units as i128,
                Side::Sell => -(f.sz.units as i128),
            };
            add_to_coin(&mut t, &f.coin, d);
        }
        i = i + 1;
    }
    assert(fills@.subrange(0, fills@.len() as int) == fills@);
    t
}

/// Cascade risk: net signed position per asset with a leverage ceiling of at
/// least 5, Herfindahl index of their magnitudes, times the mean correlation of
/// the known asset pairs present and a liquidity factor of 0.8, clamped to
/// `[0, 1]`; 0 without fills or net exposure.
pub fn calculate_cascade_risk(fills: &Vec<Fill>, meta: &Meta) -> (r: Dec)
    ensures
        r.units == cascade_units(fills@, meta.universe@),
        0 <= r.units <= SCALE,
{
    let t = net_positions_exec(fills, meta);
    let total = abs_total_exec(&t);
    if fills.len() == 0 || total == 0 {
        return Dec::zero();
    }
    let ghost v = table_view(t@);
    proof {
        lemma_abs_total(v);
    }
    let mut hhi: i128 = 0;
    let mut i: usize = 0;
    while i < t.len()
        invariant
            i <= t@.len(),
            v == table_view(t@),
            wide_table(v),
            total == abs_total(v),
            total > 0,
            forall|j: int| 0 <= j < v.len() ==> abs(#[trigger] v[j].1 as int) <= abs_total(v),
            hhi == hhi_units(v.subrange(0, i as int), total as int),
            0 <= hhi <= i * SCALE,
        decreases t@.len() - i,
    {
        assert(v.subrange(0, i + 1).drop_last() == v.subrange(0, i as int));
        assert(v[i as int].1 == t@[i as int].1);
        let x = t[i].1;
        let m: i128 = if x < 0 {
            -x
        } else {
            x
        };
        assert(abs(v[i as int].1 as int) <= abs_total(v));
        let w = ratio(m, total);
        proof {
            lemma_ratio_unit(m as int, total as int);
            assert(0 <= w.units * w.units <= SCALE * SCALE) by (nonlinear_arith)
                requires 0 <= w.units <= SCALE;
            assert((w.units * w.units) / (SCALE as int) <= SCALE) by (nonlinear_arith)
                requires 0 <= w.units * w.units <= SCALE * SCALE;
            assert((w.units * w.units) / (SCALE as int) >= 0) by (nonlinear_arith)
                requires 0 <= w.units * w.units;
        }
        let sq = (w.units as i128) * (w.units as i128) / (SCALE as i128);
        hhi = hhi + sq;
        i = i + 1;
    }
    assert(v.subrange(0, i as int) == v);
    let corr = calculate_asset_correlation(meta);
    proof {
        assert(hhi <= 18446744073709551615 * SCALE);
        assert(0 <= hhi * corr.units <= 18446744073709551615 * SCALE * SCALE) by (nonlinear_arith)
            requires 0 <= hhi <= 18446744073709551615 * SCALE, 0 <= corr.units <= SCALE;
    }
    let raw = hhi * (corr.units as i128) * 8 / (10 * SCALE as i128);
    if raw > SCALE as i128 {
        Dec { units: SCALE }
    } else {
        assert(raw >= 0);
        Dec { units: raw as i64 }
    }
}

// Position concentration.

/// Traded notional per asset of the universe, in order of first trade.
pub open spec fn traded_values(fills: Seq<Fill>, universe: Seq<AssetInfo>) -> Seq<(Seq<char>, i128)>
    decreases fills.len(),
{
    if fills.len() == 0 {
        Seq::empty()
    } else {
        let t = traded_values(fills.drop_last(), universe);
        let f = fills.last();
        if has_asset(universe, f.coin@, 0) {
            add_to_table(t, f.coin@, notional(f))
        } else {
            t
        }
    }
}

/// Each asset's share of the total traded notional; empty when the total is 0.
pub open spec fn concentration_of(fills: Seq<Fill>, universe: Seq<AssetInfo>) -> Seq<(Seq<char>, int)> {
    let t = traded_values(fills, universe);
    let total = abs_total(t);
    if total > 0 {
        t.map_values(|e: (Seq<char>, i128)| (e.0, ratio_units(e.1 as int, total)))
    } else {
        Seq::empty()
    }
}

/// A per-coin table of `Dec`s with its values as integers.
pub open spec fn dec_table(t: Seq<(String, Dec)>) -> Seq<(Seq<char>, int)> {
    t.map_values(|e: (String, Dec)| (e.0@, e.1.units as int))
}

/// Share of each traded asset of the universe in the total traded notional
/// (`price * |size|` summed per asset over the grand total), in order of first
/// trade; empty when the total is zero.
pub fn calculate_position_concentration(fills: &Vec<Fill>, meta: &Meta) -> (r: Vec<(String, Dec)>)
    requires
        fills_wf(fills@),
    ensures
        dec_table(r@) == concentration_of(fills@, meta.universe@),
        unique_keys(r@),
{
    let mut t: Vec<(String, i128)> = Vec::new();
    let mut i: usize = 0;
    assert(table_view(t@) =~= Seq::<(Seq<char>, i128)>::empty());
    while i < fills.len()
        invariant
            i <= fills@.len(),
            fills_wf(fills@),
            unique_keys(t@),
            wide_table(table_view(t@)),
            table_view(t@) == traded_values(fills@.subrange(0, i as int), meta.universe@),
        decreases fills@.len() - i,
    {
        assert(fills@.subrange(0, i + 1).drop_last() == fills@.subrange(0, i as int));
        let f = &fills[i];
        assert(fills@[i as int].wf());
        if has_asset_exec(&meta.universe, &f.coin, 0) {
            let vol = fill_notional(f);
            add_to_coin(&mut t, &f.coin, vol);
        }
        i = i + 1;
    }
    assert(fills@.subrange(0, fills@.len() as int) == fills@);
    let total = abs_total_exec(&t);
    let mut out: Vec<(String, Dec)> = Vec::new();
    if total == 0 {
        assert(dec_table(out@) =~= concentration_of(fills@, meta.universe@));
        return out;
    }
    let ghost v = table_view(t@);
    let mut k: usize = 0;
    while k < t.len()
        invariant
            k <= t@.len(),
            v == table_view(t@),
            unique_keys(t@),
            total > 0,
            total == abs_total(v),
            dec_table(out@) == v.subrange(0, k as int).map_values(
                |e: (Seq<char>, i128)| (e.0, ratio_units(e.1 as int, total as int)),
            ),
            out@.len() == k,
            forall|j: int| 0 <= j < k ==> (#[trigger] out@[j]).0@ == t@[j].0@,
        decreases t@.len() - k,
    {
        let share = ratio(t[k].1, total);
        let name = t[k].0.clone();
        let ghost before = out@;
        out.push((name, share));
        assert(v[k as int] == (t@[k as int].0@, t@[k as int].1));
        assert forall|j: int| 0 <= j < k implies #[trigger] dec_table(out@)[j] == dec_table(
            before,
        )[j] by {
            assert(out@[j] == before[j]);
        }
        assert(dec_table(out@) =~= v.subrange(0, k + 1).map_values(
            |e: (Seq<char>, i128)| (e.0, ratio_units(e.1 as int, total as int)),
        ));
        k = k + 1;
    }
    assert(v.subrange(0, k as int) == v);
    assert(unique_keys(out@)) by {
        assert forall|a: int, b: int| 0 <= a < b < out@.len() implies out@[a].0@ != out@[b].0@ by {
            assert(t@[a].0@ != t@[b].0@);
        }
    }
    out
}

// Cross-exchange manipulation score.

/// Number of assets with a leverage ceiling of at least 10.
pub open spec fn count_major(universe: Seq<AssetInfo>) -> int
    decreases universe.len(),
{
    if universe.len() == 0 {
        0
    } else {
        count_major(universe.drop_last()) + if universe.last().max_leverage >= VPIN_MIN_LEVERAGE {
            1int
        } else {
            0
        }
    }
}

/// Placeholder heuristic: 0 without fills, else 0.15 when more than 10 assets
/// have a leverage ceiling of at least 10, else 0.08.
pub open spec fn cross_exchange_units(n_fills: int, universe: Seq<AssetInfo>) -> int {
    if n_fills == 0 {
        0
    } else if count_major(universe) > 10 {
        15_000_000
    } else {
        8_000_000
    }
}

/// Placeholder cross-exchange manipulation score: 0 without fills, else 0.15
/// when more than 10 assets have a leverage ceiling of at least 10, else 0.08.
pub fn detect_cross_exchange_manipulation(fills: &Vec<Fill>, meta: &Meta) -> (r: Dec)
    ensures
        r.units == cross_exchange_units(fills@.len() as int, meta.universe@),
{
    if fills.len() == 0 {
        return Dec::zero();
    }
    let mut count: usize = 0;
    let mut i: usize = 0;
    while i < meta.universe.len()
        invariant
            i <= meta.universe@.len(),
            count == count_major(meta.universe@.subrange(0, i as int)),
            count <= i,
        decreases meta.universe@.len() - i,
    {
        assert(meta.universe@.subrange(0, i + 1).drop_last() == meta.universe@.subrange(0, i as int));
        if meta.universe[i].max_leverage >= VPIN_MIN_LEVERAGE {
            count = count + 1;
        }
        i = i + 1;
    }
    assert(meta.universe@.subrange(0, i as int) == meta.universe@);
    if count > 10 {
        Dec { units: 15_000_000 }
    } else {
        Dec { units: 8_000_000 }
    }
}

} // verus!
