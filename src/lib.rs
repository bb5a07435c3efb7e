//! Market-microstructure risk analytics: a streaming metrics engine, batch
//! risk and liquidity calculators, the policy that merges the two into one
//! published snapshot, and a threshold alert evaluator.

pub mod alert;
pub mod coin_map;
pub mod config;
pub mod demo;
pub mod fixed;
pub mod merge;
pub mod metrics;
pub mod model;
pub mod provider;
pub mod risk;
pub mod streaming;
pub mod text;
