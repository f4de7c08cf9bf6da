//! The statistics component interface: summarises closed positions at the
//! end of a run and renders the result to an external sink.

use vstd::prelude::*;

verus! {

use crate::position::ClosedPosition;

/// Builds a trading summary from the positions closed during a run.
pub trait PositionSummariser {
    /// Absorbs all closed positions into the summary.
    fn generate_summary(&mut self, positions: &Vec<ClosedPosition>);
}

/// Renders a summary to an external sink.
pub trait TablePrinter {
    /// Prints the current summary.
    fn print(&self);
}

} // verus!
