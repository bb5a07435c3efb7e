//! The alert evaluator: threshold checks over a published snapshot, and the
//! bounded alert log.

use crate::fixed::{Dec, SCALE};
use crate::model::{Alert, AlertLevel, GlobalMetrics};
use crate::text::{append_char, append_str, fixed_text, push_fixed};
use vstd::prelude::*;

verus! {

/// Alerts the log holds before it compacts.
pub const ALERT_LOG_CAPACITY: usize = 1000;

/// Relies on `uuid::Uuid::new_v4` and its `Display`: a fresh random identifier.
#[verifier::external_body]
fn new_alert_id() -> (r: String) {
    uuid::Uuid::new_v4().to_string()
}

/// Relies on `chrono::Utc::now` and `DateTime::timestamp_millis`: the current
/// time in milliseconds since the epoch.
#[verifier::external_body]
fn now_millis() -> (r: i64) {
    chrono::Utc::now().timestamp_millis()
}

/// What an alert says: level, metric tag, message, value and threshold.
pub open spec fn entry_of(a: Alert) -> (AlertLevel, Seq<char>, Seq<char>, int, int) {
    (a.level, a.metric@, a.message@, a.value.units as int, a.threshold.units as int)
}

pub open spec fn entries_of(s: Seq<Alert>) -> Seq<(AlertLevel, Seq<char>, Seq<char>, int, int)> {
    s.map_values(|a: Alert| entry_of(a))
}

/// Message text: `prefix`, the value with `places` decimals of `units / 10^k`,
/// and a percent sign when `percent`.
pub open spec fn message_text(prefix: Seq<char>, units: int, k: nat, places: nat, percent: bool) -> Seq<char> {
    prefix + fixed_text(units, k, places) + if percent {
        seq!['%']
    } else {
        Seq::<char>::empty()
    }
}

/// A critical alert above `crit`, else a warning above `warn`, else none.
pub open spec fn two_level(
    v: int,
    crit: int,
    warn: int,
    metric: Seq<char>,
    crit_msg: Seq<char>,
    warn_msg: Seq<char>,
) -> Seq<(AlertLevel, Seq<char>, Seq<char>, int, int)> {
    if v > crit {
        seq![(AlertLevel::Critical, metric, crit_msg, v, crit)]
    } else if v > warn {
        seq![(AlertLevel::Warning, metric, warn_msg, v, warn)]
    } else {
        Seq::empty()
    }
}

/// A warning above `warn`, else none.
pub open spec fn one_level(v: int, warn: int, metric: Seq<char>, msg: Seq<char>) -> Seq<
    (AlertLevel, Seq<char>, Seq<char>, int, int),
> {
    if v > warn {
        seq![(AlertLevel::Warning, metric, msg, v, warn)]
    } else {
        Seq::empty()
    }
}

/// Largest value of a per-coin table, and 0 when all are below 0.
pub open spec fn max_value(t: Seq<(String, Dec)>) -> int
    decreases t.len(),
{
    if t.len() == 0 {
        0
    } else {
        let m = max_value(t.drop_last());
        if t.last().1.units > m {
            t.last().1.units as int
        } else {
            m
        }
    }
}

/// The alerts a snapshot raises, in order: VPIN (critical above 0.7, warning
/// above 0.5), phantom liquidity (0.6 / 0.4), liquidation risk (0.85 / 0.7),
/// drawdown (0.25 / 0.15), then warnings for utilization above 0.9, largest
/// position concentration above 0.15, cancel rate above 0.5, fleeting ratio
/// above 0.2, and an info alert for a Sharpe ratio below 1.
pub open spec fn expected_alerts(m: GlobalMetrics) -> Seq<(AlertLevel, Seq<char>, Seq<char>, int, int)> {
    let vpin = m.risk_metrics.vpin_score.units as int;
    let pli = m.risk_metrics.phantom_liquidity_index.units as int;
    let liq = m.risk_metrics.liquidation_risk_score.units as int;
    let dd = m.risk_metrics.max_drawdown.units as int;
    let util = m.vault_metrics.utilization_rate.units as int;
    let conc = max_value(m.risk_metrics.position_concentration@);
    let cancel = m.liquidity_metrics.cancel_rate.units as int;
    let fleeting = m.liquidity_metrics.fleeting_order_ratio.units as int;
    let sharpe = m.performance_metrics.sharpe_ratio.units as int;
    two_level(
        vpin,
        70_000_000,
        50_000_000,
        "VPIN"@,
        message_text("Extreme toxic flow detected: "@, vpin, 5, 3, false),
        message_text("High toxic flow detected: "@, vpin, 5, 3, false),
    ) + two_level(
        pli,
        60_000_000,
        40_000_000,
        "Phantom Liquidity"@,
        message_text("Severely compromised liquidity: "@, pli, 5, 1, true),
        message_text("Significant phantom liquidity: "@, pli, 5, 1, true),
    ) + two_level(
        liq,
        85_000_000,
        70_000_000,
        "Liquidation Risk"@,
        message_text("Critical liquidation risk: "@, liq, 6, 2, false),
        message_text("Elevated liquidation risk: "@, liq, 6, 2, false),
    ) + two_level(
        dd,
        25_000_000,
        15_000_000,
        "Max Drawdown"@,
        message_text("Excessive drawdown: "@, dd, 5, 1, true),
        message_text("High drawdown: "@, dd, 5, 1, true),
    ) + one_level(
        util,
        90_000_000,
        "Utilization"@,
        message_text("High capital utilization: "@, util, 5, 1, true),
    ) + one_level(
        conc,
        15_000_000,
        "Position Concentration"@,
        message_text("High position concentration: "@, conc, 5, 1, true),
    ) + one_level(
        cancel,
        50_000_000,
        "Cancel Rate"@,
        message_text("High order cancel rate: "@, cancel, 5, 1, true),
    ) + one_level(
        fleeting,
        20_000_000,
        "Fleeting Orders"@,
        message_text("High fleeting order ratio: "@, fleeting, 5, 1, true),
    ) + if sharpe < SCALE {
        seq![
            (
                AlertLevel::Info,
                "Sharpe Ratio"@,
                message_text("Low Sharpe ratio: "@, sharpe, 6, 2, false),
                sharpe,
                SCALE as int,
            ),
        ]
    } else {
        Seq::empty()
    }
}

/// A new alert with a fresh identifier, stamped with the current time.
pub fn create_alert(level: AlertLevel, metric: String, message: String, value: Dec, threshold: Dec) -> (r: Alert)
    ensures
        r.level == level,
        r.metric@ == metric@,
        r.message@ == message@,
        r.value == value,
        r.threshold == threshold,
{
    Alert { id: new_alert_id(), level, metric, message, timestamp: now_millis(), value, threshold }
}

/// Appends an alert whose message is `prefix`, the value and an optional `%`.
fn emit(
    out: &mut Vec<Alert>,
    level: AlertLevel,
    metric: &str,
    prefix: &str,
    value: Dec,
    k: u32,
    places: u32,
    percent: bool,
    threshold: i64,
)
    requires
        1 <= k <= 8,
        1 <= places <= 8,
    ensures
        entries_of(final(out)@) == entries_of(old(out)@).push(
            (
                level,
                metric@,
                message_text(prefix@, value.units as int, k as nat, places as nat, percent),
                value.units as int,
                threshold as int,
            ),
        ),
{
    let mut message = String::new();
    append_str(&mut message, prefix);
    push_fixed(&mut message, value.units, k, places);
    if percent {
        append_char(&mut message, '%');
    }
    assert(message@ =~= message_text(prefix@, value.units as int, k as nat, places as nat, percent));
    let a = create_alert(level, metric.to_owned(), message, value, Dec { units: threshold });
    let ghost before = out@;
    out.push(a);
    assert(entries_of(out@) =~= entries_of(before).push(entry_of(a)));
}

/// Largest value of a per-coin table, 0 when all are below 0.
pub fn max_concentration(t: &Vec<(String, Dec)>) -> (r: Dec)
    ensures
        r.units == max_value(t@),
{
    let mut m: i64 = 0;
    let mut i: usize = 0;
    while i < t.len()
        invariant
            i <= t@.len(),
            m == max_value(t@.subrange(0, i as int)),
        decreases t@.len() - i,
    {
        assert(t@.subrange(0, i + 1).drop_last() == t@.subrange(0, i as int));
        if t[i].1.units > m {
            m = t[i].1.units;
        }
        i = i + 1;
    }
    assert(t@.subrange(0, i as int) == t@);
    Dec { units: m }
}

/// Appends the critical or warning alert of one metric, if any.
fn check_two_level(
    out: &mut Vec<Alert>,
    value: Dec,
    crit: i64,
    warn: i64,
    metric: &str,
    crit_prefix: &str,
    warn_prefix: &str,
    k: u32,
    places: u32,
    percent: bool,
)
    requires
        1 <= k <= 8,
        1 <= places <= 8,
    ensures
        entries_of(final(out)@) == entries_of(old(out)@) + two_level(
            value.units as int,
            crit as int,
            warn as int,
            metric@,
            message_text(crit_prefix@, value.units as int, k as nat, places as nat, percent),
            message_text(warn_prefix@, value.units as int, k as nat, places as nat, percent),
        ),
{
    let ghost before = entries_of(out@);
    if value.units > crit {
        emit(out, AlertLevel::Critical, metric, crit_prefix, value, k, places, percent, crit);
    } else if value.units > warn {
        emit(out, AlertLevel::Warning, metric, warn_prefix, value, k, places, percent, warn);
    }
    assert(entries_of(out@) =~= before + two_level(
        value.units as int,
        crit as int,
        warn as int,
        metric@,
        message_text(crit_prefix@, value.units as int, k as nat, places as nat, percent),
        message_text(warn_prefix@, value.units as int, k as nat, places as nat, percent),
    ));
}

/// Appends the warning of one metric, if any.
fn check_one_level(out: &mut Vec<Alert>, value: Dec, warn: i64, metric: &str, prefix: &str)
    ensures
        entries_of(final(out)@) == entries_of(old(out)@) + one_level(
            value.units as int,
            warn as int,
            metric@,
            message_text(prefix@, value.units as int, 5, 1, true),
        ),
{
    let ghost before = entries_of(out@);
    if value.units > warn {
        emit(out, AlertLevel::Warning, metric, prefix, value, 5, 1, true, warn);
    }
    assert(entries_of(out@) =~= before + one_level(
        value.units as int,
        warn as int,
        metric@,
        message_text(prefix@, value.units as int, 5, 1, true),
    ));
}

/// The alerts a snapshot raises. Critical thresholds are checked before
/// warnings, comparisons are strict, and each metric raises at most one alert.
pub fn check_alerts(metrics: &GlobalMetrics) -> (r: Vec<Alert>)
    ensures
        entries_of(r@) == expected_alerts(*metrics),
{
    let mut out: Vec<Alert> = Vec::new();
    let rm = &metrics.risk_metrics;
    assert(entries_of(out@) =~= Seq::empty());
    check_two_level(
        &mut out,
        rm.vpin_score,
        70_000_000,
        50_000_000,
        "VPIN",
        "Extreme toxic flow detected: ",
        "High toxic flow detected: ",
        5,
        3,
        false,
    );
    check_two_level(
        &mut out,
        rm.phantom_liquidity_index,
        60_000_000,
        40_000_000,
        "Phantom Liquidity",
        "Severely compromised liquidity: ",
        "Significant phantom liquidity: ",
        5,
        1,
        true,
    );
    check_two_level(
        &mut out,
        rm.liquidation_risk_score,
        85_000_000,
        70_000_000,
        "Liquidation Risk",
        "Critical liquidation risk: ",
        "Elevated liquidation risk: ",
        6,
        2,
        false,
    );
    check_two_level(
        &mut out,
        rm.max_drawdown,
        25_000_000,
        15_000_000,
        "Max Drawdown",
        "Excessive drawdown: ",
        "High drawdown: ",
        5,
        1,
        true,
    );
    check_one_level(
        &mut out,
        metrics.vault_metrics.utilization_rate,
        90_000_000,
        "Utilization",
        "High capital utilization: ",
    );
    let conc = max_concentration(&rm.position_concentration);
    check_one_level(&mut out, conc, 15_000_000, "Position Concentration", "High position concentration: ");
    check_one_level(
        &mut out,
        metrics.liquidity_metrics.cancel_rate,
        50_000_000,
        "Cancel Rate",
        "High order cancel rate: ",
    );
    check_one_level(
        &mut out,
        metrics.liquidity_metrics.fleeting_order_ratio,
        20_000_000,
        "Fleeting Orders",
        "High fleeting order ratio: ",
    );
    let sharpe = metrics.performance_metrics.sharpe_ratio;
    if sharpe.units < SCALE {
        emit(&mut out, AlertLevel::Info, "Sharpe Ratio", "Low Sharpe ratio: ", sharpe, 6, 2, false, SCALE);
    }
    assert(entries_of(out@) =~= expected_alerts(*metrics));
    out
}

/// Appends `new_alerts` to `log`; when the log then holds more than `capacity`
/// alerts, the oldest `capacity / 2` leave in one compaction and the rest keep
/// their order.
pub fn append_alerts(log: &mut Vec<Alert>, new_alerts: Vec<Alert>, capacity: usize)
    ensures
        ({
            let all = old(log)@ + new_alerts@;
            final(log)@ == if all.len() > capacity {
                all.subrange((capacity / 2) as int, all.len() as int)
            } else {
                all
            }
        }),
{
    let mut incoming = new_alerts;
    log.append(&mut incoming);
    if log.len() > capacity {
        let rest = log.split_off(capacity / 2);
        *log = rest;
    }
}

/// The value lies strictly beyond the threshold: below it for an info alert,
/// above it otherwise.
pub open spec fn strictly_beyond(e: (AlertLevel, Seq<char>, Seq<char>, int, int)) -> bool {
    if e.0 == AlertLevel::Info {
        e.3 < e.4
    } else {
        e.3 > e.4
    }
}

pub open spec fn all_strict(s: Seq<(AlertLevel, Seq<char>, Seq<char>, int, int)>) -> bool {
    forall|i: int| 0 <= i < s.len() ==> strictly_beyond(#[trigger] s[i])
}

proof fn lemma_strict_concat(
    a: Seq<(AlertLevel, Seq<char>, Seq<char>, int, int)>,
    b: Seq<(AlertLevel, Seq<char>, Seq<char>, int, int)>,
)
    requires
        all_strict(a),
        all_strict(b),
    ensures
        all_strict(a + b),
{
    assert forall|i: int| 0 <= i < (a + b).len() implies strictly_beyond(#[trigger] (a + b)[i]) by {
        if i < a.len() {
            assert((a + b)[i] == a[i]);
        } else {
            assert((a + b)[i] == b[i - a.len()]);
        }
    }
}

/// Comparisons are strict: every alert a snapshot raises has its value strictly
/// above its threshold (strictly below, for the Sharpe ratio), so a value equal
/// to a threshold never raises the alert of that threshold.
pub proof fn lemma_alerts_strict(m: GlobalMetrics)
    ensures
        all_strict(expected_alerts(m)),
{
    let vpin = m.risk_metrics.vpin_score.units as int;
    let pli = m.risk_metrics.phantom_liquidity_index.units as int;
    let liq = m.risk_metrics.liquidation_risk_score.units as int;
    let dd = m.risk_metrics.max_drawdown.units as int;
    let util = m.vault_metrics.utilization_rate.units as int;
    let conc = max_value(m.risk_metrics.position_concentration@);
    let cancel = m.liquidity_metrics.cancel_rate.units as int;
    let fleeting = m.liquidity_metrics.fleeting_order_ratio.units as int;
    let sharpe = m.performance_metrics.sharpe_ratio.units as int;
    let p1 = two_level(
        vpin,
        70_000_000,
        50_000_000,
        "VPIN"@,
        message_text("Extreme toxic flow detected: "@, vpin, 5, 3, false),
        message_text("High toxic flow detected: "@, vpin, 5, 3, false),
    );
    let p2 = two_level(
        pli,
        60_000_000,
        40_000_000,
        "Phantom Liquidity"@,
        message_text("Severely compromised liquidity: "@, pli, 5, 1, true),
        message_text("Significant phantom liquidity: "@, pli, 5, 1, true),
    );
    let p3 = two_level(
        liq,
        85_000_000,
        70_000_000,
        "Liquidation Risk"@,
        message_text("Critical liquidation risk: "@, liq, 6, 2, false),
        message_text("Elevated liquidation risk: "@, liq, 6, 2, false),
    );
    let p4 = two_level(
        dd,
        25_000_000,
        15_000_000,
        "Max Drawdown"@,
        message_text("Excessive drawdown: "@, dd, 5, 1, true),
        message_text("High drawdown: "@, dd, 5, 1, true),
    );
    let p5 = one_level(
        util,
        90_000_000,
        "Utilization"@,
        message_text("High capital utilization: "@, util, 5, 1, true),
    );
    let p6 = one_level(
        conc,
        15_000_000,
        "Position Concentration"@,
        message_text("High position concentration: "@, conc, 5, 1, true),
    );
    let p7 = one_level(
        cancel,
        50_000_000,
        "Cancel Rate"@,
        message_text("High order cancel rate: "@, cancel, 5, 1, true),
    );
    let p8 = one_level(
        fleeting,
        20_000_000,
        "Fleeting Orders"@,
        message_text("High fleeting order ratio: "@, fleeting, 5, 1, true),
    );
    let p9: Seq<(AlertLevel, Seq<char>, Seq<char>, int, int)> = if sharpe < SCALE {
        seq![
            (
                AlertLevel::Info,
                "Sharpe Ratio"@,
                message_text("Low Sharpe ratio: "@, sharpe, 6, 2, false),
                sharpe,
                SCALE as int,
            ),
        ]
    } else {
        Seq::empty()
    };
    assert(all_strict(p1));
    assert(all_strict(p2));
    assert(all_strict(p3));
    assert(all_strict(p4));
    assert(all_strict(p5));
    assert(all_strict(p6));
    assert(all_strict(p7));
    assert(all_strict(p8));
    assert(all_strict(p9));
    lemma_strict_concat(p1, p2);
    lemma_strict_concat(p1 + p2, p3);
    lemma_strict_concat(p1 + p2 + p3, p4);
    lemma_strict_concat(p1 + p2 + p3 + p4, p5);
    lemma_strict_concat(p1 + p2 + p3 + p4 + p5, p6);
    lemma_strict_concat(p1 + p2 + p3 + p4 + p5 + p6, p7);
    lemma_strict_concat(p1 + p2 + p3 + p4 + p5 + p6 + p7, p8);
    lemma_strict_concat(p1 + p2 + p3 + p4 + p5 + p6 + p7 + p8, p9);
    assert(expected_alerts(m) == p1 + p2 + p3 + p4 + p5 + p6 + p7 + p8 + p9);
}

/// A value equal to a threshold does not raise that threshold's alert: at the
/// warning threshold a metric raises nothing, at the critical threshold only
/// its warning.
pub proof fn lemma_threshold_equal(
    crit: int,
    warn: int,
    metric: Seq<char>,
    crit_msg: Seq<char>,
    warn_msg: Seq<char>,
)
    requires
        warn < crit,
    ensures
        two_level(warn, crit, warn, metric, crit_msg, warn_msg).len() == 0,
        two_level(crit, crit, warn, metric, crit_msg, warn_msg) == seq![
            (AlertLevel::Warning, metric, warn_msg, crit, warn),
        ],
        one_level(warn, warn, metric, warn_msg).len() == 0,
{
}

} // verus!
