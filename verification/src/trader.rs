//! The per-market trader: one independently running unit that drives a
//! single market's full signal-to-fill cycle, sharing only the portfolio
//! with its siblings.

use vstd::prelude::*;

verus! {

use crate::data::{Continuer, MarketGenerator};
use crate::event::{Event, MessageTransmitter};
use crate::execution::FillGenerator;
use crate::portfolio::{FillUpdater, MarketUpdater, MarketUpdateOutcome, OrderGenerator,
    SharedPortfolio};
use crate::strategy::SignalGenerator;

/// Trades one market end-to-end. Owns its data source, strategy and
/// execution adapter exclusively; shares one handle to the portfolio, whose
/// lock it holds only for the single call of each cycle step — never across
/// the strategy or venue calls — so concurrent traders interleave freely at
/// order/fill granularity.
#[verifier::reject_recursive_types(Portfolio)]
pub struct Trader<EventTx, Portfolio, Data, Strategy, Execution> {
    event_tx: EventTx,
    portfolio: SharedPortfolio<Portfolio>,
    data: Data,
    strategy: Strategy,
    execution: Execution,
}

impl<EventTx, Portfolio, Data, Strategy, Execution> Trader<
    EventTx,
    Portfolio,
    Data,
    Strategy,
    Execution,
> where
    EventTx: MessageTransmitter<Event>,
    Portfolio: MarketUpdater + OrderGenerator + FillUpdater,
    Data: Continuer + MarketGenerator,
    Strategy: SignalGenerator,
    Execution: FillGenerator,
{
    /// Assembles a trader from its exclusively-owned collaborators and a
    /// shared portfolio handle.
    pub fn new(
        event_tx: EventTx,
        portfolio: SharedPortfolio<Portfolio>,
        data: Data,
        strategy: Strategy,
        execution: Execution,
    ) -> Self {
        Trader { event_tx, portfolio, data, strategy, execution }
    }

    /// One iteration of the market's event loop; the embedding run loop
    /// repeats it until it returns `false`, which signals organic completion
    /// (the data source is exhausted).
    ///
    /// A cycle asks the source whether to continue, pulls the next event and
    /// applies it to the shared portfolio; when the event moved a position,
    /// the strategy advises, the portfolio sizes an order, the venue fills
    /// it, and the portfolio absorbs the fill. Each step and every equity
    /// observation is reported on the event transmitter. A stalled source or
    /// venue stalls this trader only; no timeouts are imposed here.
    pub fn run_cycle(&mut self) -> (keep_running: bool) {
        if !self.data.should_continue() {
            return false;
        }
        let market = self.data.next_event();
        self.event_tx.send(Event::Market(market));

        let outcome = self.portfolio.update_from_market(&market);
        if matches!(outcome, MarketUpdateOutcome::NoPositionImpact) {
            return true;
        }

        if let Some(signal) = self.strategy.generate_signal(&market) {
            self.event_tx.send(Event::Signal(signal));
            if let Some(order) = self.portfolio.generate_order(&signal) {
                self.event_tx.send(Event::OrderNew(order));
                let fill = self.execution.generate_fill(&order);
                self.event_tx.send(Event::Fill(fill));
                let observations = self.portfolio.update_from_fill(&fill);
                let mut i: usize = 0;
                while i < observations.len()
                    decreases observations.len() - i,
                {
                    self.event_tx.send(Event::Equity(observations[i]));
                    i += 1;
                }
            }
        }
        true
    }
}

} // verus!
