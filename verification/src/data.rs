//! Market data: the event type and the source interface a market feed
//! implements. A source is owned by exactly one trader and drives its loop.

use vstd::prelude::*;

verus! {

/// One unit of market input for a single market, in fixed-point price units
/// at an epoch-millisecond timestamp.
#[derive(Clone, Copy, PartialEq, Eq, Structural, Debug)]
pub struct MarketEvent {
    /// Epoch milliseconds of the observation.
    pub timestamp_ms: i64,
    /// Traded price, in fixed-point price units.
    pub price: u64,
}

/// Asked before every trader loop iteration; `false` signals exhaustion and
/// ends the loop organically.
pub trait Continuer {
    /// Whether the source can still produce events.
    fn should_continue(&mut self) -> bool;
}

/// Produces the next market event. Only called after [`Continuer`] answered
/// `true`; may block until input is available.
pub trait MarketGenerator {
    /// The next market event of this source's market.
    fn next_event(&mut self) -> MarketEvent;
}

} // verus!
