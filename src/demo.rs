//! Simulated snapshots for running without an exchange connection.

use crate::coin_map::table_view;
use crate::fixed::{clamp_int, trunc_div, Dec, SCALE};
use crate::model::GlobalMetrics;
use vstd::prelude::*;

verus! {

/// A three-coin table over BTC, ETH and SOL.
pub open spec fn three_coins<V>(btc: V, eth: V, sol: V) -> Seq<(Seq<char>, V)> {
    seq![("BTC"@, btc), ("ETH"@, eth), ("SOL"@, sol)]
}

fn three_coins_exec<V>(btc: V, eth: V, sol: V) -> (r: Vec<(String, V)>)
    ensures
        table_view(r@) == three_coins(btc, eth, sol),
{
    let r = vec![("BTC".to_owned(), btc), ("ETH".to_owned(), eth), ("SOL".to_owned(), sol)];
    assert(table_view(r@) =~= three_coins(btc, eth, sol));
    r
}

/// A fixed, plausible snapshot stamped `now` (milliseconds): tvl 109.53M,
/// equity 373.09M, APR 5.76, Sharpe 2.21, Sortino 2.65, cascade risk 0.12 and
/// the per-coin tables of BTC, ETH and SOL; VPIN, phantom liquidity,
/// liquidation risk, drawdown and utilization are zero.
pub fn create_test_metrics(now: i64) -> (r: GlobalMetrics)
    ensures
        r.vault_metrics.tvl.units == 10_953_000_000_000_000,
        r.vault_metrics.equity.units == 37_309_000_000_000_000,
        r.vault_metrics.apr.units == 576_000_000,
        r.vault_metrics.deployed_liquidity.units == 8_500_000_000_000_000,
        r.vault_metrics.idle_liquidity == 2_453_000_000_000_000,
        r.performance_metrics.sharpe_ratio.units == 221_000_000,
        r.performance_metrics.sortino_ratio.units == 265_000_000,
        r.performance_metrics.daily_pnl == 1_500_000_000_000,
        r.performance_metrics.unrealized_pnl == 850_000_000_000,
        r.performance_metrics.total_volume == 250_000_000_000_000_000_000_000,
        r.performance_metrics.adverse_selection_cost.units == 5_000_000,
        table_view(r.performance_metrics.realized_spread@) == three_coins(
            Dec { units: 30_000_000 },
            Dec { units: 50_000_000 },
            Dec { units: 80_000_000 },
        ),
        table_view(r.liquidity_metrics.bid_ask_spread_bps@) == three_coins(
            Dec { units: 50_000_000 },
            Dec { units: 80_000_000 },
            Dec { units: 120_000_000 },
        ),
        table_view(r.liquidity_metrics.depth_at_50bps@) == three_coins(
            50_000_000_000_000i128,
            30_000_000_000_000i128,
            15_000_000_000_000i128,
        ),
        table_view(r.liquidity_metrics.order_book_imbalance@) == three_coins(
            Dec { units: 5_000_000 },
            Dec { units: 3_000_000 },
            Dec { units: 8_000_000 },
        ),
        r.liquidity_metrics.avg_order_lifetime_ms.units == 16_417_000_000_000,
        r.liquidity_metrics.cancel_rate.units == 45_000_000,
        r.liquidity_metrics.fleeting_order_ratio.units == 9_300_000,
        r.liquidity_metrics.layering_detection_score.units == 35_000_000,
        r.liquidity_metrics.spoofing_detection_index.units == 9_000_000,
        r.liquidity_metrics.liquidity_realization_rate.units == 51_200_000,
        r.liquidity_metrics.fill_probability_by_distance@.len() == 4,
        table_view(r.risk_metrics.position_concentration@) == three_coins(
            Dec { units: 8_000_000 },
            Dec { units: 6_000_000 },
            Dec { units: 4_000_000 },
        ),
        r.risk_metrics.cascade_risk_score.units == 12_000_000,
        r.risk_metrics.max_drawdown.units == 0,
        r.risk_metrics.vpin_score.units == 0,
        r.risk_metrics.phantom_liquidity_index.units == 0,
        r.risk_metrics.liquidation_risk_score.units == 0,
        r.risk_metrics.cross_exchange_manipulation_score.units == 0,
        r.vault_metrics.utilization_rate.units == 0,
        crate::alert::expected_alerts(r).len() == 0,
        r.last_update == Some(now),
{
    let mut m = GlobalMetrics::default();
    m.vault_metrics.tvl = Dec { units: 10_953_000_000_000_000 };
    m.vault_metrics.equity = Dec { units: 37_309_000_000_000_000 };
    m.vault_metrics.apr = Dec { units: 576_000_000 };
    m.performance_metrics.sharpe_ratio = Dec { units: 221_000_000 };
    m.performance_metrics.sortino_ratio = Dec { units: 265_000_000 };
    m.performance_metrics.daily_pnl = 1_500_000_000_000;
    m.performance_metrics.unrealized_pnl = 850_000_000_000;
    m.performance_metrics.total_volume = 250_000_000_000_000_000_000_000;
    m.liquidity_metrics.bid_ask_spread_bps = three_coins_exec(
        Dec { units: 50_000_000 },
        Dec { units: 80_000_000 },
        Dec { units: 120_000_000 },
    );
    m.liquidity_metrics.depth_at_50bps = three_coins_exec(
        50_000_000_000_000i128,
        30_000_000_000_000i128,
        15_000_000_000_000i128,
    );
    m.liquidity_metrics.order_book_imbalance = three_coins_exec(
        Dec { units: 5_000_000 },
        Dec { units: 3_000_000 },
        Dec { units: 8_000_000 },
    );
    m.liquidity_metrics.fill_probability_by_distance = vec![
        ("5bps".to_owned(), Dec { units: 95_000_000 }),
        ("10bps".to_owned(), Dec { units: 88_000_000 }),
        ("25bps".to_owned(), Dec { units: 75_000_000 }),
        ("50bps".to_owned(), Dec { units: 60_000_000 }),
    ];
    m.liquidity_metrics.avg_order_lifetime_ms = Dec { units: 16_417_000_000_000 };
    m.liquidity_metrics.cancel_rate = Dec { units: 45_000_000 };
    m.liquidity_metrics.fleeting_order_ratio = Dec { units: 9_300_000 };
    m.liquidity_metrics.layering_detection_score = Dec { units: 35_000_000 };
    m.liquidity_metrics.spoofing_detection_index = Dec { units: 9_000_000 };
    m.liquidity_metrics.liquidity_realization_rate = Dec { units: 51_200_000 };
    m.risk_metrics.position_concentration = three_coins_exec(
        Dec { units: 8_000_000 },
        Dec { units: 6_000_000 },
        Dec { units: 4_000_000 },
    );
    m.risk_metrics.cascade_risk_score = Dec { units: 12_000_000 };
    m.risk_metrics.max_drawdown = Dec::zero();
    m.vault_metrics.deployed_liquidity = Dec { units: 8_500_000_000_000_000 };
    m.vault_metrics.idle_liquidity = 2_453_000_000_000_000;
    m.performance_metrics.realized_spread = three_coins_exec(
        Dec { units: 30_000_000 },
        Dec { units: 50_000_000 },
        Dec { units: 80_000_000 },
    );
    m.performance_metrics.adverse_selection_cost = Dec { units: 5_000_000 };
    m.last_update = Some(now);
    proof {
        let t = m.risk_metrics.position_concentration@;
        assert(table_view(t) == three_coins(
            Dec { units: 8_000_000 },
            Dec { units: 6_000_000 },
            Dec { units: 4_000_000 },
        ));
        assert(three_coins(
            Dec { units: 8_000_000 },
            Dec { units: 6_000_000 },
            Dec { units: 4_000_000 },
        ).len() == 3);
        assert(table_view(t).len() == t.len());
        assert(t.len() == 3);
        assert(t[0].1.units == 8_000_000 && t[1].1.units == 6_000_000 && t[2].1.units == 4_000_000) by {
            assert(table_view(t)[0].1 == t[0].1);
            assert(table_view(t)[1].1 == t[1].1);
            assert(table_view(t)[2].1 == t[2].1);
        }
        reveal_with_fuel(crate::alert::max_value, 4);
        assert(t.drop_last().drop_last().drop_last() =~= Seq::<(String, Dec)>::empty());
        assert(crate::alert::max_value(t) == 8_000_000);
    }
    m
}

/// `base + wave * amplitude` clamped to `[0, 1]`, the product toward zero.
pub open spec fn wave_units(base: int, amplitude_tenths: int, wave: int) -> int {
    clamp_int(base + trunc_div(wave * amplitude_tenths, 10), 0, SCALE as int)
}

fn wave_value(base: i64, amplitude_tenths: i64, wave: Dec) -> (r: Dec)
    requires
        0 <= base <= SCALE,
        0 <= amplitude_tenths <= 10,
    ensures
        r.units == wave_units(base as int, amplitude_tenths as int, wave.units as int),
{
    let w = wave.units as i128;
    let a = amplitude_tenths as i128;
    assert(-9223372036854775808 * 10 <= w * a <= 9223372036854775807 * 10) by (nonlinear_arith)
        requires -9223372036854775808 <= w <= 9223372036854775807, 0 <= a <= 10;
    let p = w * a;
    let t = if p >= 0 {
        p / 10
    } else {
        -((-p) / 10)
    };
    let v = base as i128 + t;
    if v < 0 {
        Dec::zero()
    } else if v > SCALE as i128 {
        Dec { units: SCALE }
    } else {
        Dec { units: v as i64 }
    }
}

/// Moves a simulated snapshot along a wave (`wave` is the sine of the cycle
/// phase): VPIN `0.3 + 0.4 wave`, phantom liquidity `0.25 + 0.2 wave`,
/// liquidation risk `0.2 + 0.3 wave` and utilization `0.5 + 0.3 wave`, each
/// clamped to `[0, 1]`; every 50th cycle VPIN spikes to 0.8. The snapshot is
/// stamped `now`.
pub fn apply_test_modifications(metrics: &mut GlobalMetrics, counter: u32, wave: Dec, now: i64)
    ensures
        final(metrics).risk_metrics.vpin_score.units == if counter % 50 == 0 {
            80_000_000
        } else {
            wave_units(30_000_000, 4, wave.units as int)
        },
        final(metrics).risk_metrics.phantom_liquidity_index.units == wave_units(25_000_000, 2, wave.units as int),
        final(metrics).risk_metrics.liquidation_risk_score.units == wave_units(20_000_000, 3, wave.units as int),
        final(metrics).vault_metrics.utilization_rate.units == wave_units(50_000_000, 3, wave.units as int),
        final(metrics).last_update == Some(now),
        final(metrics).vault_metrics.tvl == old(metrics).vault_metrics.tvl,
        final(metrics).risk_metrics.cascade_risk_score == old(metrics).risk_metrics.cascade_risk_score,
        final(metrics).liquidity_metrics.cancel_rate == old(metrics).liquidity_metrics.cancel_rate,
{
    metrics.risk_metrics.vpin_score = wave_value(30_000_000, 4, wave);
    metrics.risk_metrics.phantom_liquidity_index = wave_value(25_000_000, 2, wave);
    metrics.risk_metrics.liquidation_risk_score = wave_value(20_000_000, 3, wave);
    metrics.vault_metrics.utilization_rate = wave_value(50_000_000, 3, wave);
    if counter % 50 == 0 {
        metrics.risk_metrics.vpin_score = Dec { units: 80_000_000 };
    }
    metrics.last_update = Some(now);
}

} // verus!
