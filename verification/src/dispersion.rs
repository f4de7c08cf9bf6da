//! Dispersion primitives over a stream of equity observations.

use vstd::prelude::*;

verus! {

/// Tracks the high/low bounds of a single drawdown episode.
/// `activated == false` is the uninitialised state; once activated,
/// `high >= low` holds after every update.
#[derive(Clone, Copy, PartialEq, Eq, Structural, Debug)]
pub struct Range {
    /// Whether any value has been absorbed yet.
    pub activated: bool,
    /// Highest value seen.
    pub high: u64,
    /// Lowest value seen.
    pub low: u64,
}

impl Default for Range {
    /// The uninitialised range.
    fn default() -> (r: Self)
        ensures
            r == (Range { activated: false, high: 0, low: 0 }),
    {
        Range { activated: false, high: 0, low: 0 }
    }
}

impl Range {
    /// The range after absorbing `value`: the first value initialises both
    /// bounds, later values widen them.
    pub open spec fn spec_update(self, value: u64) -> Range {
        if !self.activated {
            Range { activated: true, high: value, low: value }
        } else {
            Range {
                activated: true,
                high: if value > self.high {
                    value
                } else {
                    self.high
                },
                low: if value < self.low {
                    value
                } else {
                    self.low
                },
            }
        }
    }

    /// Absorbs one value into the bounds.
    pub fn update(&mut self, value: u64)
        ensures
            *final(self) == old(self).spec_update(value),
    {
        if !self.activated {
            self.activated = true;
            self.high = value;
            self.low = value;
        } else {
            if value > self.high {
                self.high = value;
            }
            if value < self.low {
                self.low = value;
            }
        }
    }

    /// The spread `low - high`, a nonpositive delta.
    pub fn calculate(&self) -> (r: i128)
        ensures
            r as int == self.low - self.high,
    {
        (self.low as i128) - (self.high as i128)
    }
}

} // verus!
