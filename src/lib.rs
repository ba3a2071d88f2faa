//! A trading-signal pipeline over fixed-point price data: series math,
//! indicator snapshots, signal fusion, merge-latest decision context, risk
//! sizing and trade gating.

pub mod fixed;
pub mod roots;
pub mod series;
pub mod market;
pub mod indicators;
pub mod history;
pub mod signals;
pub mod merger;
pub mod risk;
pub mod gate;
pub mod timestamps;
pub mod encoding;
pub mod signing;
