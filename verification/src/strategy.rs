//! Signal generation: the strategy interface a trading strategy implements.

use vstd::prelude::*;

verus! {

use crate::data::MarketEvent;

/// Advice derived from market input; zero or one per market event.
#[derive(Clone, Copy, PartialEq, Eq, Structural, Debug)]
pub struct Signal {
    /// Epoch milliseconds of the originating market event.
    pub timestamp_ms: i64,
    /// Signed signal strength; positive buys, negative sells.
    pub strength: i64,
}

/// Maps a market event to at most one trade signal. Owned by exactly one
/// trader.
pub trait SignalGenerator {
    /// The signal this market event gives rise to, if any.
    fn generate_signal(&mut self, market: &MarketEvent) -> Option<Signal>;
}

} // verus!
