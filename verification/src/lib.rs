//! A concurrent trading engine core: per-market trader event loops around a
//! shared, lock-guarded portfolio, remote command routing, and a streaming
//! drawdown statistics engine over equity observations.
//!
//! Equity is carried as unsigned fixed-point units, timestamps and durations
//! as signed epoch milliseconds, and drawdown fractions as exact reduced
//! rationals, so every statistic has an exact arithmetic specification.

pub mod clock;
pub mod commander;
pub mod data;
pub mod dispersion;
pub mod drawdown;
pub mod engine;
pub mod event;
pub mod execution;
pub mod ids;
pub mod portfolio;
pub mod position;
pub mod ratio;
pub mod strategy;
pub mod summary;
pub mod trader;
pub mod welford_online;
