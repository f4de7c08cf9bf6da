//! Order execution: the fill type and the venue adapter interface.

use vstd::prelude::*;

verus! {

use crate::portfolio::Order;

/// The execution result of submitting an order to a venue.
#[derive(Clone, Copy, PartialEq, Eq, Structural, Debug)]
pub struct Fill {
    /// Signed executed quantity; positive bought, negative sold.
    pub quantity: i64,
    /// Execution price, in fixed-point price units.
    pub price: u64,
    /// Epoch milliseconds of the execution.
    pub timestamp_ms: i64,
}

/// Turns an order into a fill. Owned by exactly one trader.
pub trait FillGenerator {
    /// The fill obtained for `order`.
    fn generate_fill(&mut self, order: &Order) -> Fill;
}

} // verus!
