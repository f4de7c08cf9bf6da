//! Streaming drawdown statistics: peak-to-trough episodes over a stream of
//! equity observations, the largest episode seen, and the running mean of
//! completed episodes.
//!
//! All values are exact: equity is carried in fixed-point units, drawdown
//! fractions as reduced rationals, timestamps and durations as epoch / delta
//! milliseconds.

use vstd::prelude::*;

verus! {

use crate::clock;
use crate::dispersion::Range;
use crate::position::EquityPoint;
use crate::ratio::Ratio;
use crate::welford_online;

/// One peak-to-trough decline episode of the equity curve.
///
/// The live tracker is mutated once per incoming [`EquityPoint`]; when an
/// episode closes (equity exceeds the prior peak) the caller receives a
/// completed snapshot and the live instance resets. While waiting for a new
/// peak (`drawdown == 0`), `equity_range.low` and `start_timestamp` are stale
/// leftovers of the previous episode and must not be read.
#[derive(Clone, Copy, PartialEq, Eq, Structural, Debug)]
pub struct Drawdown {
    /// High/low bounds of the tracked episode.
    pub equity_range: Range,
    /// The episode's decline, `(low - high) / high`, a nonpositive fraction;
    /// exactly zero while waiting for a new peak.
    pub drawdown: Ratio,
    /// Epoch milliseconds at which the episode started.
    pub start_timestamp: i64,
    /// Elapsed milliseconds since `start_timestamp`, as of the last update.
    pub duration: i64,
}

impl Drawdown {
    /// Waiting for the next equity peak: no episode is in progress.
    pub open spec fn is_waiting_spec(self) -> bool {
        self.drawdown.num == 0
    }

    /// The episode's decline computed from the tracked range,
    /// `(low - high) / high` in reduced form.
    pub open spec fn spec_calculate(self) -> Ratio {
        Ratio::from_frac(
            self.equity_range.low - self.equity_range.high,
            self.equity_range.high as int,
        )
    }

    /// Well-formedness of a live tracker: an activated range with a positive
    /// peak, a well-formed fraction, and—whenever an episode is in
    /// progress—a fraction that matches the tracked range exactly.
    pub open spec fn wf(self) -> bool {
        &&& self.equity_range.activated
        &&& 1 <= self.equity_range.high
        &&& self.equity_range.low <= self.equity_range.high
        &&& 0 <= self.start_timestamp
        &&& self.drawdown.inv()
        &&& self.is_waiting_spec() || self.drawdown == self.spec_calculate()
    }

    /// The four-way state transition on one equity observation, classified by
    /// `(waiting_for_peak, equity rose above the peak)`, together with the
    /// completed episode it emits, if any:
    /// still at peak / episode begins / episode continues / episode ends.
    pub open spec fn spec_update(self, current: EquityPoint) -> (Drawdown, Option<Drawdown>) {
        let waiting = self.is_waiting_spec();
        let new_peak = current.equity > self.equity_range.high;
        if waiting && new_peak {
            // Still at peak: raise the peak, emit nothing.
            (
                Drawdown {
                    equity_range: Range {
                        activated: true,
                        high: current.equity,
                        low: self.equity_range.low,
                    },
                    ..self
                },
                None,
            )
        } else if waiting && !new_peak {
            // Episode begins below the standing peak.
            let range = Range {
                activated: true,
                high: self.equity_range.high,
                low: current.equity,
            };
            (
                Drawdown {
                    equity_range: range,
                    drawdown: Ratio::from_frac(range.low - range.high, range.high as int),
                    start_timestamp: current.timestamp_ms,
                    ..self
                },
                None,
            )
        } else if !waiting && !new_peak {
            // Episode continues: widen the range, refresh duration and value.
            // Equality with the peak does not end an episode.
            let range = self.equity_range.spec_update(current.equity);
            (
                Drawdown {
                    equity_range: range,
                    drawdown: Ratio::from_frac(range.low - range.high, range.high as int),
                    duration: (current.timestamp_ms - self.start_timestamp) as i64,
                    ..self
                },
                None,
            )
        } else {
            // Episode ends: emit the completed snapshot, reset to waiting,
            // rebase the peak. `low` and `start_timestamp` stay stale.
            (
                Drawdown {
                    equity_range: Range {
                        activated: true,
                        high: current.equity,
                        low: self.equity_range.low,
                    },
                    drawdown: Ratio::spec_zero(),
                    duration: 0,
                    ..self
                },
                Some(self),
            )
        }
    }

    /// A fresh tracker whose first peak is the starting equity.
    pub fn init(starting_equity: u64) -> (r: Self)
        requires
            starting_equity >= 1,
        ensures
            r.equity_range == (Range {
                activated: true,
                high: starting_equity,
                low: starting_equity,
            }),
            r.drawdown == Ratio::spec_zero(),
            r.duration == 0,
            r.wf(),
    {
        Drawdown {
            equity_range: Range { activated: true, high: starting_equity, low: starting_equity },
            drawdown: Ratio::zero(),
            start_timestamp: clock::now_epoch_ms(),
            duration: 0,
        }
    }

    /// Applies one equity observation; returns the completed episode when
    /// this observation ends one.
    pub fn update(&mut self, current: &EquityPoint) -> (r: Option<Drawdown>)
        requires
            old(self).wf(),
            current.wf(),
        ensures
            *final(self) == old(self).spec_update(*current).0,
            r == old(self).spec_update(*current).1,
            final(self).wf(),
            r is Some ==> r->Some_0 == *old(self) && r->Some_0.wf(),
    {
        if self.is_waiting_for_peak() {
            if current.equity > self.equity_range.high {
                // Still at peak.
                self.equity_range.high = current.equity;
                None
            } else {
                // Episode begins.
                self.start_timestamp = current.timestamp_ms;
                self.equity_range.low = current.equity;
                self.drawdown = self.calculate();
                None
            }
        } else {
            if current.equity > self.equity_range.high {
                // Episode ends.
                let finished = *self;
                self.drawdown = Ratio::zero();
                self.duration = 0;
                self.equity_range.high = current.equity;
                Some(finished)
            } else {
                // Episode continues.
                self.duration = current.timestamp_ms - self.start_timestamp;
                self.equity_range.update(current.equity);
                self.drawdown = self.calculate();
                None
            }
        }
    }

    /// Whether the tracker is waiting for the next equity peak.
    fn is_waiting_for_peak(&self) -> (r: bool)
        ensures
            r == self.is_waiting_spec(),
    {
        self.drawdown.num == 0
    }

    /// The episode's decline, `(low - high) / high`, in reduced form.
    fn calculate(&self) -> (r: Ratio)
        requires
            1 <= self.equity_range.high,
            self.equity_range.low <= self.equity_range.high,
        ensures
            r == self.spec_calculate(),
            r.inv(),
    {
        let diff: i128 = self.equity_range.calculate();
        Ratio::new(diff, self.equity_range.high as u128)
    }
}

impl Default for Drawdown {
    /// An inert tracker: inactive range, zero drawdown, zero duration.
    fn default() -> (r: Self)
        ensures
            r.equity_range == (Range { activated: false, high: 0, low: 0 }),
            r.drawdown == Ratio::spec_zero(),
            r.duration == 0,
            0 <= r.start_timestamp,
    {
        Drawdown {
            equity_range: Range::default(),
            drawdown: Ratio::zero(),
            start_timestamp: clock::now_epoch_ms(),
            duration: 0,
        }
    }
}

/// The largest-magnitude completed episode seen so far. Comparison is by
/// absolute drawdown value; ties keep the existing, earlier maximum.
#[derive(Clone, Copy, PartialEq, Eq, Structural, Debug)]
pub struct MaxDrawdown {
    /// The stored maximum episode.
    pub drawdown: Drawdown,
}

impl MaxDrawdown {
    /// The stored maximum after offering `next`: replaced exactly when the
    /// candidate's magnitude strictly exceeds the stored one.
    pub open spec fn spec_updated(self, next: Drawdown) -> MaxDrawdown {
        if Ratio::abs_gt(next.drawdown, self.drawdown.drawdown) {
            MaxDrawdown { drawdown: next }
        } else {
            self
        }
    }

    /// Starts from the inert zero episode, which any real episode beats.
    pub fn init() -> (r: Self)
        ensures
            r.drawdown.equity_range == (Range { activated: false, high: 0, low: 0 }),
            r.drawdown.drawdown == Ratio::spec_zero(),
            r.drawdown.duration == 0,
            r.drawdown.drawdown.inv(),
    {
        MaxDrawdown { drawdown: Drawdown::default() }
    }

    /// Offers a completed episode; it supersedes the stored one only if its
    /// magnitude is strictly larger.
    pub fn update(&mut self, next_drawdown: &Drawdown)
        requires
            old(self).drawdown.drawdown.inv(),
            next_drawdown.drawdown.inv(),
        ensures
            *final(self) == old(self).spec_updated(*next_drawdown),
    {
        if next_drawdown.drawdown.abs_greater(&self.drawdown.drawdown) {
            self.drawdown = *next_drawdown;
        }
    }
}

/// Reported when the exact running mean can no longer be carried in 128-bit
/// arithmetic with a 64-bit reduced denominator.
#[derive(Clone, Copy, PartialEq, Eq, Structural, Debug)]
pub enum StatisticError {
    /// An intermediate of the incremental mean overflowed its machine bounds.
    MeanOverflow,
}

/// Incrementally updated arithmetic mean of completed episodes' magnitude
/// and duration, via Welford's online mean formula; no history is retained.
/// The duration mean is accumulated in integer milliseconds.
#[derive(Clone, Copy, PartialEq, Eq, Structural, Debug)]
pub struct AvgDrawdown {
    /// How many completed episodes have been absorbed.
    pub count: u64,
    /// Exact running mean of the episodes' drawdown fractions.
    pub mean_drawdown: Ratio,
    /// Running mean of the episodes' durations, in milliseconds, with
    /// machine-truncating division.
    pub mean_duration: i64,
}

impl AvgDrawdown {
    /// The zeroed accumulator.
    pub open spec fn spec_init() -> AvgDrawdown {
        AvgDrawdown { count: 0, mean_drawdown: Ratio::spec_zero(), mean_duration: 0 }
    }

    /// The machine-limit side condition of absorbing one more episode.
    pub open spec fn spec_fits(self, dd: Drawdown) -> bool {
        &&& self.count < u64::MAX
        &&& Ratio::welford_fits(self.mean_drawdown, dd.drawdown, self.count + 1)
    }

    /// The accumulator after absorbing one completed episode.
    pub open spec fn spec_updated(self, dd: Drawdown) -> AvgDrawdown {
        AvgDrawdown {
            count: (self.count + 1) as u64,
            mean_drawdown: Ratio::welford_step(self.mean_drawdown, dd.drawdown, self.count + 1),
            mean_duration: welford_online::welford_mean_int(
                self.mean_duration as int,
                dd.duration as int,
                self.count + 1,
            ) as i64,
        }
    }

    /// Starts from zero values for all fields.
    pub fn init() -> (r: Self)
        ensures
            r == Self::spec_init(),
            r.mean_drawdown.inv(),
    {
        Self::default()
    }

    /// Absorbs one completed episode into both running means. Fails, leaving
    /// the accumulator unchanged, exactly when the exact rational mean would
    /// overflow its machine bounds.
    pub fn update(&mut self, drawdown: &Drawdown) -> (r: Result<(), StatisticError>)
        requires
            old(self).mean_drawdown.inv(),
            drawdown.drawdown.inv(),
        ensures
            r is Ok <==> old(self).spec_fits(*drawdown),
            r is Ok ==> *final(self) == old(self).spec_updated(*drawdown),
            r is Err ==> *final(self) == *old(self) && r == Err::<(), StatisticError>(
                StatisticError::MeanOverflow,
            ),
            final(self).mean_drawdown.inv(),
    {
        if self.count == u64::MAX {
            return Err(StatisticError::MeanOverflow);
        }
        let n = self.count + 1;
        match Ratio::welford_mean(&self.mean_drawdown, &drawdown.drawdown, n) {
            None => Err(StatisticError::MeanOverflow),
            Some(mean) => {
                self.count = n;
                self.mean_drawdown = mean;
                self.mean_duration = welford_online::calculate_mean(
                    self.mean_duration,
                    drawdown.duration,
                    n,
                );
                Ok(())
            },
        }
    }
}

impl Default for AvgDrawdown {
    /// Zero values for all fields.
    fn default() -> (r: Self)
        ensures
            r == AvgDrawdown::spec_init(),
            r.mean_drawdown.inv(),
    {
        AvgDrawdown { count: 0, mean_drawdown: Ratio::zero(), mean_duration: 0 }
    }
}

/// A well-formed tracker never reports a decline of larger magnitude than
/// the tracked range's relative spread `(high - low) / high`, and its
/// drawdown is zero exactly while it waits for a new peak.
pub proof fn lemma_drawdown_bounded(d: Drawdown)
    requires
        d.wf(),
    ensures
        (-d.drawdown.num) * (d.equity_range.high as int) <= (d.equity_range.high
            - d.equity_range.low) * (d.drawdown.den as int),
        d.is_waiting_spec() <==> d.drawdown.num == 0,
{
    if d.is_waiting_spec() {
        vstd::arithmetic::mul::lemma_mul_nonnegative(
            d.equity_range.high - d.equity_range.low,
            d.drawdown.den as int,
        );
    } else {
        Ratio::lemma_from_frac(
            d.equity_range.low - d.equity_range.high,
            d.equity_range.high as int,
        );
        let high = d.equity_range.high as int;
        let low = d.equity_range.low as int;
        let den = d.drawdown.den as int;
        assert((-d.drawdown.num) * high == (high - low) * den) by (nonlinear_arith)
            requires
                d.drawdown.num * high == (low - high) * den,
        ;
    }
}

/// The tracker state and the completed episodes emitted after feeding the
/// observations of `ps`, in order.
pub open spec fn run_updates(d: Drawdown, ps: Seq<EquityPoint>) -> (Drawdown, Seq<Drawdown>)
    decreases ps.len(),
{
    if ps.len() == 0 {
        (d, Seq::empty())
    } else {
        let prev = run_updates(d, ps.drop_last());
        let step = prev.0.spec_update(ps.last());
        (
            step.0,
            if step.1 is Some {
                prev.1.push(step.1->Some_0)
            } else {
                prev.1
            },
        )
    }
}

/// Strictly rising equity never completes an episode: a waiting tracker fed
/// observations that climb above its peak, each higher than the one before,
/// stays waiting, emits no completed episode, and only raises its peak — so
/// a `MaxDrawdown` or `AvgDrawdown` fed from this stream stays at its
/// initial zero state.
pub proof fn lemma_monotonic_equity_completes_nothing(d: Drawdown, ps: Seq<EquityPoint>)
    requires
        d.wf(),
        d.is_waiting_spec(),
        ps.len() > 0 ==> d.equity_range.high < ps[0].equity,
        forall|i: int| 0 <= i < ps.len() - 1 ==> (#[trigger] ps[i].equity) < ps[i + 1].equity,
    ensures
        run_updates(d, ps).1 == Seq::<Drawdown>::empty(),
        run_updates(d, ps).0.is_waiting_spec(),
        run_updates(d, ps).0.equity_range.high == if ps.len() == 0 {
            d.equity_range.high
        } else {
            ps.last().equity
        },
    decreases ps.len(),
{
    if ps.len() > 0 {
        let prefix = ps.drop_last();
        assert(forall|i: int| 0 <= i < prefix.len() ==> prefix[i] == ps[i]);
        lemma_monotonic_equity_completes_nothing(d, prefix);
        if prefix.len() > 0 {
            assert(ps[ps.len() - 2].equity < ps[ps.len() - 1].equity);
        }
    }
}

/// Offering `MaxDrawdown` an episode whose magnitude does not exceed the
/// stored one — in particular re-submitting the stored episode itself —
/// leaves it unchanged: `update` is idempotent for non-larger candidates.
pub proof fn lemma_max_drawdown_idempotent(m: MaxDrawdown, next: Drawdown)
    requires
        !Ratio::abs_gt(next.drawdown, m.drawdown.drawdown),
    ensures
        m.spec_updated(next) == m,
        m.spec_updated(m.drawdown) == m,
{
}

/// The accumulator after absorbing the completed episodes of `ds`, in order.
pub open spec fn avg_after(ds: Seq<Drawdown>) -> AvgDrawdown
    decreases ds.len(),
{
    if ds.len() == 0 {
        AvgDrawdown::spec_init()
    } else {
        avg_after(ds.drop_last()).spec_updated(ds.last())
    }
}

/// Whether every step of absorbing `ds` stays within machine bounds.
pub open spec fn avg_all_fit(ds: Seq<Drawdown>) -> bool
    decreases ds.len(),
{
    if ds.len() == 0 {
        true
    } else {
        avg_all_fit(ds.drop_last()) && avg_after(ds.drop_last()).spec_fits(ds.last())
    }
}

/// Numerator of the exact fraction sum of the episodes' drawdown values.
pub open spec fn episodes_sum_num(ds: Seq<Drawdown>) -> int
    decreases ds.len(),
{
    if ds.len() == 0 {
        0
    } else {
        episodes_sum_num(ds.drop_last()) * ds.last().drawdown.den + ds.last().drawdown.num
            * episodes_sum_den(ds.drop_last())
    }
}

/// Denominator of the exact fraction sum of the episodes' drawdown values.
pub open spec fn episodes_sum_den(ds: Seq<Drawdown>) -> int
    decreases ds.len(),
{
    if ds.len() == 0 {
        1
    } else {
        episodes_sum_den(ds.drop_last()) * ds.last().drawdown.den
    }
}

/// The fraction-sum denominator of well-formed episodes is positive.
proof fn lemma_episodes_sum_den_pos(ds: Seq<Drawdown>)
    requires
        forall|i: int| 0 <= i < ds.len() ==> (#[trigger] ds[i]).drawdown.inv(),
    ensures
        episodes_sum_den(ds) >= 1,
    decreases ds.len(),
{
    if ds.len() > 0 {
        let prefix = ds.drop_last();
        assert(forall|i: int| 0 <= i < prefix.len() ==> prefix[i] == ds[i]);
        lemma_episodes_sum_den_pos(prefix);
        assert(episodes_sum_den(prefix) * (ds.last().drawdown.den as int) >= 1)
            by (nonlinear_arith)
            requires
                episodes_sum_den(prefix) >= 1,
                ds.last().drawdown.den as int >= 1,
        ;
    }
}

/// After absorbing `n` completed episodes, `mean_drawdown` is exactly the
/// arithmetic mean of their drawdown fractions: Welford's incremental
/// formula over exact rationals loses nothing, in whatever order the
/// episodes complete. Stated by cross-multiplication against the exact
/// fraction sum of the episodes.
pub proof fn lemma_avg_drawdown_is_arithmetic_mean(ds: Seq<Drawdown>)
    requires
        forall|i: int| 0 <= i < ds.len() ==> (#[trigger] ds[i]).drawdown.inv(),
        avg_all_fit(ds),
    ensures
        avg_after(ds).count == ds.len(),
        avg_after(ds).mean_drawdown.inv(),
        avg_after(ds).mean_drawdown.num * (episodes_sum_den(ds) * ds.len())
            == episodes_sum_num(ds) * (avg_after(ds).mean_drawdown.den as int),
    decreases ds.len(),
{
    if ds.len() == 0 {
    } else {
        let prefix = ds.drop_last();
        assert(forall|i: int| 0 <= i < prefix.len() ==> prefix[i] == ds[i]);
        lemma_avg_drawdown_is_arithmetic_mean(prefix);
        lemma_episodes_sum_den_pos(prefix);
        let m = avg_after(prefix).mean_drawdown;
        let x = ds.last().drawdown;
        Ratio::lemma_welford_step_mean(
            m,
            x,
            ds.len() as int,
            episodes_sum_num(prefix),
            episodes_sum_den(prefix),
        );
    }
}

} // verus!
