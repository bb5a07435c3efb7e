//! Domain values: fills, order books, order events, account and vault state,
//! and the published metric records and alerts.
//!
//! Prices, sizes, money and scores are `Dec` values (eight decimals). Sums of
//! them are `i128` counts of 10^-8; notional values (price times size) are
//! `i128` counts of 10^-16, which keeps every product exact.

use crate::fixed::Dec;
use vstd::prelude::*;

verus! {

/// Side of a trade or order.
#[derive(Clone, Copy, Debug, PartialEq, Eq, Structural)]
pub enum Side {
    Buy,
    Sell,
}

/// One executed trade.
#[derive(Clone, Debug)]
pub struct Fill {
    pub coin: String,
    pub px: Dec,
    pub sz: Dec,
    pub side: Side,
    pub time: u64,
    pub start_position: Dec,
    pub dir: String,
    pub closed_pnl: Dec,
    pub hash: String,
    pub oid: u64,
    pub crossed: bool,
    pub fee: Dec,
}

impl Fill {
    /// A fill's price is never negative.
    pub open spec fn wf(self) -> bool {
        self.px.units >= 0
    }
}

/// Every fill of a sequence is well formed.
pub open spec fn fills_wf(fills: Seq<Fill>) -> bool {
    forall|i: int| 0 <= i < fills.len() ==> #[trigger] fills[i].wf()
}

/// One price level of an order book.
#[derive(Clone, Copy, Debug, PartialEq, Eq, Structural)]
pub struct OrderBookLevel {
    pub px: Dec,
    pub sz: Dec,
    pub n: u32,
}

/// An order book of one coin: bids and asks, best level first.
#[derive(Clone, Debug)]
pub struct L2Snapshot {
    pub coin: String,
    pub time: u64,
    pub bids: Vec<OrderBookLevel>,
    pub asks: Vec<OrderBookLevel>,
}

impl L2Snapshot {
    /// No level of the book has a negative size.
    pub open spec fn wf(self) -> bool {
        &&& forall|i: int| 0 <= i < self.bids@.len() ==> 0 <= #[trigger] self.bids@[i].sz.units
        &&& forall|i: int| 0 <= i < self.asks@.len() ==> 0 <= #[trigger] self.asks@[i].sz.units
    }
}

/// What happened to an order.
#[derive(Clone, Copy, Debug, PartialEq, Eq, Structural)]
pub enum OrderAction {
    New,
    Filled,
    Cancelled,
}

/// One step in the life of an order; `timestamp` is in milliseconds.
#[derive(Clone, Debug)]
pub struct OrderEvent {
    pub id: u64,
    pub action: OrderAction,
    pub coin: String,
    pub side: Side,
    pub px: Dec,
    pub sz: Dec,
    pub timestamp: u64,
}

/// One tradable asset.
#[derive(Clone, Debug)]
pub struct AssetInfo {
    pub name: String,
    pub sz_decimals: u8,
    pub max_leverage: u32,
    pub only_isolated: bool,
}

/// The universe of tradable assets.
#[derive(Clone, Debug)]
pub struct Meta {
    pub universe: Vec<AssetInfo>,
}

/// Account-level summary of a vault. `all_time_pnl` and `idle_liquidity`
/// count 10^-8.
#[derive(Clone, Debug)]
pub struct VaultSummary {
    pub vault_address: String,
    pub tvl: Dec,
    pub equity: Dec,
    pub apr: Dec,
    pub all_time_pnl: i128,
    pub max_drawdown: Dec,
    pub num_depositors: u64,
    pub portfolio_value: Dec,
    pub deployed_liquidity: Dec,
    pub idle_liquidity: i128,
}

/// Margin state of an account.
#[derive(Clone, Debug)]
pub struct UserState {
    pub account_value: Dec,
    pub total_margin_used: Dec,
    pub total_ntl_pos: Dec,
    pub total_raw_usd: Dec,
    pub positions: Vec<Position>,
}

/// One open position.
#[derive(Clone, Debug)]
pub struct Position {
    pub symbol: String,
    pub size: Dec,
    pub entry_px: Option<Dec>,
    pub position_value: Dec,
    pub unrealized_pnl: Dec,
    pub margin_used: Dec,
}

/// The published snapshot; `last_update` is in milliseconds since the epoch.
#[derive(Clone, Debug)]
pub struct GlobalMetrics {
    pub vault_metrics: VaultMetrics,
    pub performance_metrics: PerformanceMetrics,
    pub liquidity_metrics: LiquidityMetrics,
    pub risk_metrics: RiskMetrics,
    pub last_update: Option<i64>,
}

/// Vault figures; `idle_liquidity` counts 10^-8.
#[derive(Clone, Debug)]
pub struct VaultMetrics {
    pub tvl: Dec,
    pub equity: Dec,
    pub apr: Dec,
    pub utilization_rate: Dec,
    pub deployed_liquidity: Dec,
    pub idle_liquidity: i128,
}

/// Performance figures; `daily_pnl` and `unrealized_pnl` count 10^-8,
/// `total_volume` counts 10^-16.
#[derive(Clone, Debug)]
pub struct PerformanceMetrics {
    pub daily_pnl: i128,
    pub unrealized_pnl: i128,
    pub total_volume: i128,
    pub sharpe_ratio: Dec,
    pub sortino_ratio: Dec,
    pub realized_spread: Vec<(String, Dec)>,
    pub adverse_selection_cost: Dec,
}

/// Liquidity figures; the depth of each coin counts 10^-8.
#[derive(Clone, Debug)]
pub struct LiquidityMetrics {
    pub bid_ask_spread_bps: Vec<(String, Dec)>,
    pub depth_at_50bps: Vec<(String, i128)>,
    pub order_book_imbalance: Vec<(String, Dec)>,
    pub avg_order_lifetime_ms: Dec,
    pub cancel_rate: Dec,
    pub fleeting_order_ratio: Dec,
    pub layering_detection_score: Dec,
    pub spoofing_detection_index: Dec,
    pub liquidity_realization_rate: Dec,
    pub fill_probability_by_distance: Vec<(String, Dec)>,
}

/// Risk figures.
#[derive(Clone, Debug)]
pub struct RiskMetrics {
    pub vpin_score: Dec,
    pub phantom_liquidity_index: Dec,
    pub liquidation_risk_score: Dec,
    pub cascade_risk_score: Dec,
    pub position_concentration: Vec<(String, Dec)>,
    pub max_drawdown: Dec,
    pub cross_exchange_manipulation_score: Dec,
}

/// Severity of an alert.
#[derive(Clone, Copy, Debug, PartialEq, Eq, Structural)]
pub enum AlertLevel {
    Info,
    Warning,
    Critical,
}

/// One raised alert; `timestamp` is in milliseconds since the epoch.
#[derive(Clone, Debug)]
pub struct Alert {
    pub id: String,
    pub level: AlertLevel,
    pub metric: String,
    pub message: String,
    pub timestamp: i64,
    pub value: Dec,
    pub threshold: Dec,
}

/// Static description of a vault.
#[derive(Clone, Debug)]
pub struct VaultDetails {
    pub vault_address: String,
    pub name: String,
    pub description: String,
    pub manager: String,
    pub max_capacity: Dec,
    pub min_deposit: Dec,
    pub management_fee: Dec,
    pub performance_fee: Dec,
    pub inception_date: u64,
    pub status: VaultStatus,
}

/// Whether a vault takes deposits.
#[derive(Clone, Copy, Debug, PartialEq, Eq, Structural)]
pub enum VaultStatus {
    Active,
    Paused,
    Closed,
}

/// Return history of a vault.
#[derive(Clone, Debug)]
pub struct VaultPerformance {
    pub daily_returns: Vec<Dec>,
    pub weekly_returns: Vec<Dec>,
    pub monthly_returns: Vec<Dec>,
    pub cumulative_return: Dec,
    pub volatility: Dec,
    pub beta: Dec,
    pub alpha: Dec,
    pub information_ratio: Dec,
}

/// Holdings of a vault.
#[derive(Clone, Debug)]
pub struct VaultHoldings {
    pub cash: Dec,
    pub positions: Vec<VaultPosition>,
    pub total_exposure: Dec,
    pub net_exposure: Dec,
    pub gross_exposure: Dec,
}

/// One holding of a vault.
#[derive(Clone, Debug)]
pub struct VaultPosition {
    pub symbol: String,
    pub quantity: Dec,
    pub market_value: Dec,
    pub weight: Dec,
    pub unrealized_pnl: Dec,
    pub entry_price: Dec,
    pub current_price: Dec,
}

impl Default for VaultMetrics {
    fn default() -> (r: Self)
        ensures
            r.tvl.units == 0 && r.equity.units == 0 && r.apr.units == 0,
            r.utilization_rate.units == 0 && r.deployed_liquidity.units == 0 && r.idle_liquidity == 0,
    {
        VaultMetrics {
            tvl: Dec::zero(),
            equity: Dec::zero(),
            apr: Dec::zero(),
            utilization_rate: Dec::zero(),
            deployed_liquidity: Dec::zero(),
            idle_liquidity: 0,
        }
    }
}

impl Default for PerformanceMetrics {
    fn default() -> (r: Self)
        ensures
            r.daily_pnl == 0 && r.unrealized_pnl == 0 && r.total_volume == 0,
            r.sharpe_ratio.units == 0 && r.sortino_ratio.units == 0,
            r.realized_spread@.len() == 0 && r.adverse_selection_cost.units == 0,
    {
        PerformanceMetrics {
            daily_pnl: 0,
            unrealized_pnl: 0,
            total_volume: 0,
            sharpe_ratio: Dec::zero(),
            sortino_ratio: Dec::zero(),
            realized_spread: Vec::new(),
            adverse_selection_cost: Dec::zero(),
        }
    }
}

impl Default for LiquidityMetrics {
    fn default() -> (r: Self)
        ensures
            r.bid_ask_spread_bps@.len() == 0 && r.depth_at_50bps@.len() == 0,
            r.order_book_imbalance@.len() == 0 && r.fill_probability_by_distance@.len() == 0,
            r.avg_order_lifetime_ms.units == 0 && r.cancel_rate.units == 0,
            r.fleeting_order_ratio.units == 0 && r.layering_detection_score.units == 0,
            r.spoofing_detection_index.units == 0 && r.liquidity_realization_rate.units == 0,
    {
        LiquidityMetrics {
            bid_ask_spread_bps: Vec::new(),
            depth_at_50bps: Vec::new(),
            order_book_imbalance: Vec::new(),
            avg_order_lifetime_ms: Dec::zero(),
            cancel_rate: Dec::zero(),
            fleeting_order_ratio: Dec::zero(),
            layering_detection_score: Dec::zero(),
            spoofing_detection_index: Dec::zero(),
            liquidity_realization_rate: Dec::zero(),
            fill_probability_by_distance: Vec::new(),
        }
    }
}

impl Default for RiskMetrics {
    fn default() -> (r: Self)
        ensures
            r.vpin_score.units == 0 && r.phantom_liquidity_index.units == 0,
            r.liquidation_risk_score.units == 0 && r.cascade_risk_score.units == 0,
            r.position_concentration@.len() == 0 && r.max_drawdown.units == 0,
            r.cross_exchange_manipulation_score.units == 0,
    {
        RiskMetrics {
            vpin_score: Dec::zero(),
            phantom_liquidity_index: Dec::zero(),
            liquidation_risk_score: Dec::zero(),
            cascade_risk_score: Dec::zero(),
            position_concentration: Vec::new(),
            max_drawdown: Dec::zero(),
            cross_exchange_manipulation_score: Dec::zero(),
        }
    }
}

impl Default for GlobalMetrics {
    /// The snapshot published before the first update: all zero, no timestamp.
    fn default() -> (r: Self)
        ensures
            r.risk_metrics.vpin_score.units == 0,
            r.risk_metrics.phantom_liquidity_index.units == 0,
            r.risk_metrics.liquidation_risk_score.units == 0,
            r.risk_metrics.cascade_risk_score.units == 0,
            r.risk_metrics.cross_exchange_manipulation_score.units == 0,
            r.risk_metrics.max_drawdown.units == 0,
            r.risk_metrics.position_concentration@.len() == 0,
            r.vault_metrics.utilization_rate.units == 0,
            r.liquidity_metrics.cancel_rate.units == 0,
            r.liquidity_metrics.fleeting_order_ratio.units == 0,
            r.performance_metrics.sharpe_ratio.units == 0,
            r.last_update is None,
    {
        GlobalMetrics {
            vault_metrics: VaultMetrics::default(),
            performance_metrics: PerformanceMetrics::default(),
            liquidity_metrics: LiquidityMetrics::default(),
            risk_metrics: RiskMetrics::default(),
            last_update: None,
        }
    }
}

} // verus!
