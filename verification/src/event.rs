//! Events a trader emits while it runs, and the transmitter interface that
//! carries them to an external consumer (for audit, or to feed the drawdown
//! engine with equity observations).

use vstd::prelude::*;

verus! {

use crate::data::MarketEvent;
use crate::execution::Fill;
use crate::portfolio::Order;
use crate::position::EquityPoint;
use crate::strategy::Signal;

/// Everything a trader reports while trading one market.
#[derive(Clone, Copy, PartialEq, Eq, Structural, Debug)]
pub enum Event {
    /// A market event was consumed.
    Market(MarketEvent),
    /// The strategy produced a signal.
    Signal(Signal),
    /// The portfolio sized a new order.
    OrderNew(Order),
    /// The venue produced a fill.
    Fill(Fill),
    /// The portfolio's equity changed.
    Equity(EquityPoint),
}

/// Carries messages out of a trader to any number of remote consumers.
pub trait MessageTransmitter<Message> {
    /// Sends one message; delivery is fire-and-forget.
    fn send(&mut self, message: Message);
}

} // verus!
