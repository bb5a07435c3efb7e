//! Runtime configuration: its defaults and its validation.

use crate::fixed::Dec;
use vstd::prelude::*;

verus! {

/// Where the data comes from.
#[derive(Clone, Copy, Debug, PartialEq, Eq, Structural)]
pub enum OperatingMode {
    Live,
    Demo,
}

/// Alert thresholds.
#[derive(Clone, Copy, Debug)]
pub struct AlertThresholds {
    pub vpin_warning: Dec,
    pub vpin_critical: Dec,
    pub phantom_liquidity_warning: Dec,
    pub phantom_liquidity_critical: Dec,
    pub liquidation_risk_warning: Dec,
    pub liquidation_risk_critical: Dec,
    pub max_drawdown_warning: Dec,
    pub max_drawdown_critical: Dec,
}

/// Terminal settings.
#[derive(Clone, Debug)]
pub struct UiSettings {
    pub refresh_rate_ms: u64,
    pub theme: String,
    pub show_debug_info: bool,
    pub auto_scroll_alerts: bool,
}

/// The whole configuration.
#[derive(Clone, Debug)]
pub struct Config {
    pub operating_mode: OperatingMode,
    pub hyperliquid_api_url: String,
    pub hyperliquid_ws_url: String,
    pub user_address: String,
    pub vault_address: Option<String>,
    pub enable_websocket: bool,
    pub update_interval_ms: u64,
    pub alert_thresholds: AlertThresholds,
    pub ui_settings: UiSettings,
}

/// Why a configuration is refused.
#[derive(Clone, Copy, Debug, PartialEq, Eq, Structural)]
pub enum ConfigError {
    /// The user address is the bare placeholder `0x`.
    PlaceholderAddress,
    /// The update interval is below 100 ms.
    UpdateIntervalTooShort,
    /// The terminal refresh rate is below 50 ms.
    RefreshRateTooShort,
}

impl Default for AlertThresholds {
    fn default() -> (r: Self)
        ensures
            r.vpin_warning.units == 30_000_000,
            r.vpin_critical.units == 50_000_000,
            r.phantom_liquidity_warning.units == 40_000_000,
            r.phantom_liquidity_critical.units == 60_000_000,
            r.liquidation_risk_warning.units == 70_000_000,
            r.liquidation_risk_critical.units == 85_000_000,
            r.max_drawdown_warning.units == 15_000_000,
            r.max_drawdown_critical.units == 25_000_000,
    {
        AlertThresholds {
            vpin_warning: Dec { units: 30_000_000 },
            vpin_critical: Dec { units: 50_000_000 },
            phantom_liquidity_warning: Dec { units: 40_000_000 },
            phantom_liquidity_critical: Dec { units: 60_000_000 },
            liquidation_risk_warning: Dec { units: 70_000_000 },
            liquidation_risk_critical: Dec { units: 85_000_000 },
            max_drawdown_warning: Dec { units: 15_000_000 },
            max_drawdown_critical: Dec { units: 25_000_000 },
        }
    }
}

impl Default for UiSettings {
    fn default() -> (r: Self)
        ensures
            r.refresh_rate_ms == 100,
            r.theme@ == "dark"@,
            !r.show_debug_info,
            r.auto_scroll_alerts,
    {
        UiSettings {
            refresh_rate_ms: 100,
            theme: "dark".to_owned(),
            show_debug_info: false,
            auto_scroll_alerts: true,
        }
    }
}

impl Default for Config {
    fn default() -> (r: Self)
        ensures
            r.operating_mode == OperatingMode::Live,
            r.hyperliquid_api_url@ == "https://api.hyperliquid.xyz"@,
            r.hyperliquid_ws_url@ == "wss://api.hyperliquid.xyz/ws"@,
            r.user_address@ == "0xdfc24b077bc1425ad1dea75bcb6f8158e10df303"@,
            r.vault_address is None,
            r.enable_websocket,
            r.update_interval_ms == 1000,
            r.alert_thresholds.vpin_warning.units == 30_000_000,
            r.ui_settings.refresh_rate_ms == 100,
    {
        Config {
            operating_mode: OperatingMode::Live,
            hyperliquid_api_url: "https://api.hyperliquid.xyz".to_owned(),
            hyperliquid_ws_url: "wss://api.hyperliquid.xyz/ws".to_owned(),
            user_address: "0xdfc24b077bc1425ad1dea75bcb6f8158e10df303".to_owned(),
            vault_address: None,
            enable_websocket: true,
            update_interval_ms: 1000,
            alert_thresholds: AlertThresholds::default(),
            ui_settings: UiSettings::default(),
        }
    }
}

/// Accepts a configuration unless its user address is the bare `0x`, its
/// update interval is below 100 ms or its refresh rate below 50 ms; the checks
/// run in that order.
pub fn validate_config(config: &Config) -> (r: Result<(), ConfigError>)
    ensures
        config.user_address@ == "0x"@ ==> r == Err::<(), ConfigError>(ConfigError::PlaceholderAddress),
        config.user_address@ != "0x"@ && config.update_interval_ms < 100 ==> r == Err::<(), ConfigError>(
            ConfigError::UpdateIntervalTooShort,
        ),
        config.user_address@ != "0x"@ && config.update_interval_ms >= 100
            && config.ui_settings.refresh_rate_ms < 50 ==> r == Err::<(), ConfigError>(
            ConfigError::RefreshRateTooShort,
        ),
        r is Ok <==> (config.user_address@ != "0x"@ && config.update_interval_ms >= 100
            && config.ui_settings.refresh_rate_ms >= 50),
{
    let placeholder = "0x".to_owned();
    if config.user_address == placeholder {
        return Err(ConfigError::PlaceholderAddress);
    }
    if config.update_interval_ms < 100 {
        return Err(ConfigError::UpdateIntervalTooShort);
    }
    if config.ui_settings.refresh_rate_ms < 50 {
        return Err(ConfigError::RefreshRateTooShort);
    }
    Ok(())
}

} // verus!
