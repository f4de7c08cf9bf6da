//! Portfolio position data consumed by the statistics engine.

use vstd::prelude::*;

verus! {

/// Identifies one position across the engine; routing of position-targeted
/// commands keys on it.
pub type PositionId = u64;

/// One observation of total portfolio equity, in fixed-point equity units,
/// taken at an epoch-millisecond timestamp. Produced by the portfolio
/// whenever realized equity changes; consumed by the drawdown engine.
#[derive(Clone, Copy, PartialEq, Eq, Structural, Debug)]
pub struct EquityPoint {
    /// Total mark-to-market portfolio value, in fixed-point equity units.
    pub equity: u64,
    /// Epoch milliseconds at which the equity was observed.
    pub timestamp_ms: i64,
}

impl EquityPoint {
    /// Well-formedness: timestamps are epoch milliseconds, never negative.
    pub open spec fn wf(self) -> bool {
        0 <= self.timestamp_ms
    }
}

/// A position closed during the run, as handed back by the portfolio for the
/// end-of-run summary.
#[derive(Clone, Copy, PartialEq, Eq, Structural, Debug)]
pub struct ClosedPosition {
    /// Identifier of the closed position.
    pub position_id: PositionId,
    /// Realized profit or loss, in fixed-point equity units.
    pub realized_pnl: i64,
}

} // verus!
