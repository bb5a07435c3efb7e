use hlp_toshogu::alert::{append_alerts, check_alerts, create_alert, ALERT_LOG_CAPACITY};
use hlp_toshogu::fixed::{Dec, SCALE};
use hlp_toshogu::model::{Alert, AlertLevel, GlobalMetrics};

fn d(units: i64) -> Dec {
    Dec { units }
}

fn neutral() -> GlobalMetrics {
    let mut m = GlobalMetrics::default();
    m.performance_metrics.sharpe_ratio = d(2 * SCALE);
    m
}

#[test]
fn neutral_snapshot_raises_nothing() {
    assert!(check_alerts(&neutral()).is_empty());
}

#[test]
fn vpin_critical_alert() {
    let mut m = neutral();
    m.risk_metrics.vpin_score = d(75_000_000);
    let alerts = check_alerts(&m);
    assert_eq!(alerts.len(), 1);
    assert_eq!(alerts[0].level, AlertLevel::Critical);
    assert_eq!(alerts[0].metric, "VPIN");
    assert_eq!(alerts[0].threshold.units, 70_000_000);
    assert_eq!(alerts[0].value.units, 75_000_000);
    assert_eq!(alerts[0].message, "Extreme toxic flow detected: 0.750");
    assert_eq!(alerts[0].id.len(), 36);
}

#[test]
fn value_at_threshold_does_not_raise_it() {
    let mut m = neutral();
    m.risk_metrics.vpin_score = d(70_000_000);
    let alerts = check_alerts(&m);
    assert_eq!(alerts.len(), 1);
    assert_eq!(alerts[0].level, AlertLevel::Warning);
    assert_eq!(alerts[0].threshold.units, 50_000_000);
    m.risk_metrics.vpin_score = d(50_000_000);
    m.vault_metrics.utilization_rate = d(90_000_000);
    m.liquidity_metrics.cancel_rate = d(50_000_000);
    m.performance_metrics.sharpe_ratio = d(SCALE);
    assert!(check_alerts(&m).is_empty());
}

#[test]
fn every_metric_in_order() {
    let mut m = GlobalMetrics::default();
    m.risk_metrics.vpin_score = d(60_000_000);
    m.risk_metrics.phantom_liquidity_index = d(65_000_000);
    m.risk_metrics.liquidation_risk_score = d(75_000_000);
    m.risk_metrics.max_drawdown = d(30_000_000);
    m.vault_metrics.utilization_rate = d(95_000_000);
    m.risk_metrics.position_concentration = vec![("BTC".to_string(), d(10_000_000)), ("ETH".to_string(), d(20_000_000))];
    m.liquidity_metrics.cancel_rate = d(60_000_000);
    m.liquidity_metrics.fleeting_order_ratio = d(25_000_000);
    m.performance_metrics.sharpe_ratio = d(-50_000_000);
    let alerts = check_alerts(&m);
    let tags: Vec<&str> = alerts.iter().map(|a| a.metric.as_str()).collect();
    assert_eq!(
        tags,
        vec![
            "VPIN",
            "Phantom Liquidity",
            "Liquidation Risk",
            "Max Drawdown",
            "Utilization",
            "Position Concentration",
            "Cancel Rate",
            "Fleeting Orders",
            "Sharpe Ratio"
        ]
    );
    assert_eq!(alerts[0].message, "High toxic flow detected: 0.600");
    assert_eq!(alerts[1].level, AlertLevel::Critical);
    assert_eq!(alerts[1].message, "Severely compromised liquidity: 65.0%");
    assert_eq!(alerts[2].message, "Elevated liquidation risk: 0.75");
    assert_eq!(alerts[3].message, "Excessive drawdown: 30.0%");
    assert_eq!(alerts[5].value.units, 20_000_000);
    assert_eq!(alerts[5].message, "High position concentration: 20.0%");
    assert_eq!(alerts[8].level, AlertLevel::Info);
    assert_eq!(alerts[8].message, "Low Sharpe ratio: -0.50");
}

#[test]
fn create_alert_keeps_fields() {
    let a = create_alert(AlertLevel::Warning, "X".to_string(), "m".to_string(), d(3), d(4));
    assert_eq!(a.level, AlertLevel::Warning);
    assert_eq!(a.metric, "X");
    assert_eq!(a.value.units, 3);
    assert_eq!(a.threshold.units, 4);
    let b = create_alert(AlertLevel::Warning, "X".to_string(), "m".to_string(), d(3), d(4));
    assert_ne!(a.id, b.id);
    assert!(a.timestamp > 1_600_000_000_000);
}

fn numbered(n: usize) -> Vec<Alert> {
    (0..n).map(|i| create_alert(AlertLevel::Info, format!("{}", i), String::new(), d(0), d(0))).collect()
}

#[test]
fn log_compacts_oldest_half() {
    let mut log = numbered(1000);
    append_alerts(&mut log, vec![], ALERT_LOG_CAPACITY);
    assert_eq!(log.len(), 1000);
    let extra = vec![create_alert(AlertLevel::Info, "1000".to_string(), String::new(), d(0), d(0))];
    append_alerts(&mut log, extra, ALERT_LOG_CAPACITY);
    assert_eq!(log.len(), 501);
    assert_eq!(log[0].metric, "500");
    assert_eq!(log[500].metric, "1000");
    for (i, a) in log.iter().enumerate() {
        assert_eq!(a.metric, format!("{}", 500 + i));
    }
}
