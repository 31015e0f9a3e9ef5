//! Trading-cycle engine for a periodically resetting binary-outcome market.
//!
//! The library computes rolling trend indicators (RSI, MACD, momentum) over a
//! price stream, decides directional entries, manages the single allowed
//! position per asset through take-profit / stop-loss / settlement exits, and
//! drives the balance-polling fill-confirmation protocol of the live trading
//! mode.  All prices, sizes and thresholds are fixed-point values in
//! micro-units (one unit = `num::SCALE` micro-units).

pub mod config;
pub mod confirm;
pub mod engine;
pub mod history;
pub mod indicators;
pub mod num;
pub mod simulation;
pub mod strategies;
pub mod types;
