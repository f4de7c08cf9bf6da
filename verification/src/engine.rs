//! The trading engine: owns the trader set, the command inbox, the command
//! router, the statistics component and the shared portfolio handle.
//!
//! The engine's coordinating loop races two awaitables — all traders
//! finishing organically, and the next remote command — and proceeds on
//! whichever resolves first; that outer async loop is I/O plumbing and lives
//! with the embedding application. The decisions it takes are pure and live
//! here: [`arbitrate`] maps each observed event to the action taken, and
//! [`summarize`] / [`conclude_run`] perform the one-shot end-of-run summary
//! extraction.

use vstd::prelude::*;

verus! {

use crate::commander::Commander;
use crate::portfolio::{PositionHandler, SharedPortfolio};
use crate::position::{ClosedPosition, PositionId};
use crate::summary::{PositionSummariser, TablePrinter};
use crate::trader::Trader;

/// Declares tokio's mpsc `Receiver` so the command inbox can stand in
/// fields; the value is opaque and only carried through to the run loop.
#[verifier::external_type_specification]
#[verifier::external_body]
#[verifier::reject_recursive_types(T)]
pub struct ExReceiver<T>(tokio::sync::mpsc::Receiver<T>);

/// A message associated with a [`Command`].
pub type Message = String;

/// Out-of-band control instructions, delivered remotely to the engine and
/// routed to traders. This vocabulary is exhaustive.
#[derive(Clone, Eq, PartialEq, Ord, PartialOrd, Hash, Debug)]
pub enum Command {
    /// Stop the run engine-wide, with a reason.
    Terminate(Message),
    /// Exit every open position, engine-wide.
    ExitAllPositions,
    /// Exit one position, owned by exactly one trader.
    ExitPosition(PositionId),
}

/// Construction failures of the engine.
#[derive(Clone, Copy, PartialEq, Eq, Structural, Debug)]
pub enum EngineError {
    /// A required builder field was never supplied.
    BuilderIncomplete,
}

/// What the engine's coordinating loop observed: one of the awaitables it
/// races resolved.
#[derive(Clone, PartialEq, Eq, Debug)]
pub enum EngineEvent {
    /// Every trader finished organically.
    TradersStopped,
    /// A remote command arrived on the inbox.
    CommandReceived(Command),
    /// The inbox's sender side was dropped; treated like a terminate.
    InboxClosed,
}

/// The engine's reaction to one observed event.
#[derive(Clone, PartialEq, Eq, Debug)]
pub enum Arbitration {
    /// Stop waiting and proceed to summary extraction, with the terminate
    /// message when one was given.
    Stop(Option<Message>),
    /// A remote command the engine's top level does not handle; delivery
    /// policy rests with the [`Commander`].
    Unhandled(Command),
}

/// The reaction [`arbitrate`] takes: organic completion, a terminate, and a
/// closed inbox all stop the run; any other remote command is handed back
/// unhandled.
pub open spec fn spec_arbitrate(event: EngineEvent) -> Arbitration {
    match event {
        EngineEvent::TradersStopped => Arbitration::Stop(None),
        EngineEvent::InboxClosed => Arbitration::Stop(None),
        EngineEvent::CommandReceived(command) => match command {
            Command::Terminate(message) => Arbitration::Stop(Some(message)),
            _ => Arbitration::Unhandled(command),
        },
    }
}

/// Decides how the engine reacts to one observed event. The run resolves on
/// the earlier of organic completion and a terminate; a closed inbox counts
/// as a terminate; the remaining remote commands are not handled at this
/// level and are handed back.
pub fn arbitrate(event: EngineEvent) -> (r: Arbitration)
    ensures
        r == spec_arbitrate(event),
{
    match event {
        EngineEvent::TradersStopped => Arbitration::Stop(None),
        EngineEvent::InboxClosed => Arbitration::Stop(None),
        EngineEvent::CommandReceived(command) => match command {
            Command::Terminate(message) => Arbitration::Stop(Some(message)),
            other => Arbitration::Unhandled(other),
        },
    }
}

/// Whether the end-of-run summary was produced.
#[derive(Clone, Copy, PartialEq, Eq, Structural, Debug)]
pub enum SummaryOutcome {
    /// The run closed no positions; no trading summary is available.
    NoClosedPositions,
    /// A summary was generated and printed.
    SummaryGenerated,
}

/// Feeds the closed positions, when there are any, to the statistics
/// component and prints the summary; reports when none were available.
pub fn summarize<Statistic: PositionSummariser + TablePrinter>(
    statistics: &mut Statistic,
    positions: Option<Vec<ClosedPosition>>,
) -> (r: SummaryOutcome)
    ensures
        r == (match positions {
            Option::None => SummaryOutcome::NoClosedPositions,
            Option::Some(_) => SummaryOutcome::SummaryGenerated,
        }),
{
    match positions {
        None => SummaryOutcome::NoClosedPositions,
        Some(closed_positions) => {
            statistics.generate_summary(&closed_positions);
            statistics.print();
            SummaryOutcome::SummaryGenerated
        },
    }
}

/// The engine's one-shot end-of-run step: queries the portfolio, under its
/// lock, for the positions closed during the run, and summarises them.
pub fn conclude_run<Statistic, Portfolio>(
    statistics: &mut Statistic,
    portfolio: &SharedPortfolio<Portfolio>,
) -> SummaryOutcome where
    Statistic: PositionSummariser + TablePrinter,
    Portfolio: PositionHandler,
{
    let query_id = crate::ids::new_random_id();
    let positions = portfolio.get_exited_positions(&query_id);
    summarize(statistics, positions)
}

/// The components an [`Engine`] is assembled from, all required.
#[verifier::reject_recursive_types(Portfolio)]
pub struct EngineLego<EventTx, Statistic, Portfolio, Data, Strategy, Execution> {
    /// Unique identifier of this engine; identifier seed for its portfolio,
    /// traders and positions.
    pub engine_id: uuid::Uuid,
    /// Inbox for remote [`Command`]s: an ordered, closable channel with this
    /// engine as single consumer.
    pub command_rx: tokio::sync::mpsc::Receiver<Command>,
    /// Routes commands to the traders.
    pub trader_commander: Commander,
    /// Statistics component for the end-of-run summary.
    pub statistics: Statistic,
    /// Shared handle to the one logical portfolio instance.
    pub portfolio: SharedPortfolio<Portfolio>,
    /// The traders, one per market, each run on its own unit of execution.
    pub traders: Vec<Trader<EventTx, Portfolio, Data, Strategy, Execution>>,
}

/// A multi-trader engine: each trader runs independently against its own
/// market with shared access to one portfolio, while the engine arbitrates
/// between organic completion and remote commands, and extracts the final
/// summary on shutdown.
#[verifier::reject_recursive_types(Portfolio)]
pub struct Engine<EventTx, Statistic, Portfolio, Data, Strategy, Execution> {
    engine_id: uuid::Uuid,
    command_rx: tokio::sync::mpsc::Receiver<Command>,
    trader_commander: Commander,
    statistics: Statistic,
    portfolio: SharedPortfolio<Portfolio>,
    traders: Vec<Trader<EventTx, Portfolio, Data, Strategy, Execution>>,
}

impl<EventTx, Statistic, Portfolio, Data, Strategy, Execution> Engine<
    EventTx,
    Statistic,
    Portfolio,
    Data,
    Strategy,
    Execution,
> {
    /// The engine's identifier.
    pub closed spec fn spec_engine_id(self) -> uuid::Uuid {
        self.engine_id
    }

    /// The engine's command inbox.
    pub closed spec fn spec_command_rx(self) -> tokio::sync::mpsc::Receiver<Command> {
        self.command_rx
    }

    /// The engine's command router.
    pub closed spec fn spec_trader_commander(self) -> Commander {
        self.trader_commander
    }

    /// The engine's statistics component.
    pub closed spec fn spec_statistics(self) -> Statistic {
        self.statistics
    }

    /// The engine's shared portfolio handle.
    pub closed spec fn spec_portfolio(self) -> SharedPortfolio<Portfolio> {
        self.portfolio
    }

    /// The engine's traders.
    pub closed spec fn spec_traders(self) -> Vec<
        Trader<EventTx, Portfolio, Data, Strategy, Execution>,
    > {
        self.traders
    }

    /// Assembles an engine from a complete set of components.
    pub fn new(lego: EngineLego<EventTx, Statistic, Portfolio, Data, Strategy, Execution>) -> (r:
        Self)
        ensures
            r.spec_engine_id() == lego.engine_id,
            r.spec_command_rx() == lego.command_rx,
            r.spec_trader_commander() == lego.trader_commander,
            r.spec_statistics() == lego.statistics,
            r.spec_portfolio() == lego.portfolio,
            r.spec_traders() == lego.traders,
    {
        Engine {
            engine_id: lego.engine_id,
            command_rx: lego.command_rx,
            trader_commander: lego.trader_commander,
            statistics: lego.statistics,
            portfolio: lego.portfolio,
            traders: lego.traders,
        }
    }

    /// A builder for [`Engine`] instances.
    pub fn builder() -> (r: EngineBuilder<EventTx, Statistic, Portfolio, Data, Strategy, Execution>)
        ensures
            !r.is_complete(),
            r.spec_engine_id() is None,
            r.spec_command_rx() is None,
            r.spec_trader_commander() is None,
            r.spec_statistics() is None,
            r.spec_portfolio() is None,
            r.spec_traders() is None,
    {
        EngineBuilder::new()
    }

    /// Takes the engine apart again, for the embedding run loop: the inverse
    /// of [`Engine::new`].
    pub fn into_lego(self) -> (r: EngineLego<
        EventTx,
        Statistic,
        Portfolio,
        Data,
        Strategy,
        Execution,
    >)
        ensures
            r.engine_id == self.spec_engine_id(),
            r.command_rx == self.spec_command_rx(),
            r.trader_commander == self.spec_trader_commander(),
            r.statistics == self.spec_statistics(),
            r.portfolio == self.spec_portfolio(),
            r.traders == self.spec_traders(),
    {
        EngineLego {
            engine_id: self.engine_id,
            command_rx: self.command_rx,
            trader_commander: self.trader_commander,
            statistics: self.statistics,
            portfolio: self.portfolio,
            traders: self.traders,
        }
    }
}

/// A staged configuration accumulator for [`Engine`]: every field is
/// required, and finalisation either yields a fully-populated engine or
/// reports incompleteness — no partially-usable engine exists.
#[verifier::reject_recursive_types(Portfolio)]
pub struct EngineBuilder<EventTx, Statistic, Portfolio, Data, Strategy, Execution> {
    engine_id: Option<uuid::Uuid>,
    command_rx: Option<tokio::sync::mpsc::Receiver<Command>>,
    trader_commander: Option<Commander>,
    statistics: Option<Statistic>,
    portfolio: Option<SharedPortfolio<Portfolio>>,
    traders: Option<Vec<Trader<EventTx, Portfolio, Data, Strategy, Execution>>>,
}

impl<EventTx, Statistic, Portfolio, Data, Strategy, Execution> EngineBuilder<
    EventTx,
    Statistic,
    Portfolio,
    Data,
    Strategy,
    Execution,
> {
    /// The staged engine identifier.
    pub closed spec fn spec_engine_id(self) -> Option<uuid::Uuid> {
        self.engine_id
    }

    /// The staged command inbox.
    pub closed spec fn spec_command_rx(self) -> Option<tokio::sync::mpsc::Receiver<Command>> {
        self.command_rx
    }

    /// The staged command router.
    pub closed spec fn spec_trader_commander(self) -> Option<Commander> {
        self.trader_commander
    }

    /// The staged statistics component.
    pub closed spec fn spec_statistics(self) -> Option<Statistic> {
        self.statistics
    }

    /// The staged portfolio handle.
    pub closed spec fn spec_portfolio(self) -> Option<SharedPortfolio<Portfolio>> {
        self.portfolio
    }

    /// The staged traders.
    pub closed spec fn spec_traders(self) -> Option<
        Vec<Trader<EventTx, Portfolio, Data, Strategy, Execution>>,
    > {
        self.traders
    }

    /// Whether every required field has been supplied.
    pub open spec fn is_complete(self) -> bool {
        &&& self.spec_engine_id() is Some
        &&& self.spec_command_rx() is Some
        &&& self.spec_trader_commander() is Some
        &&& self.spec_statistics() is Some
        &&& self.spec_portfolio() is Some
        &&& self.spec_traders() is Some
    }

    fn new() -> (r: Self)
        ensures
            r.spec_engine_id() is None,
            r.spec_command_rx() is None,
            r.spec_trader_commander() is None,
            r.spec_statistics() is None,
            r.spec_portfolio() is None,
            r.spec_traders() is None,
    {
        EngineBuilder {
            engine_id: None,
            command_rx: None,
            trader_commander: None,
            statistics: None,
            portfolio: None,
            traders: None,
        }
    }

    /// Supplies the engine identifier.
    pub fn engine_id(self, value: uuid::Uuid) -> (r: Self)
        ensures
            r.spec_engine_id() == Some(value),
            r.spec_command_rx() == self.spec_command_rx(),
            r.spec_trader_commander() == self.spec_trader_commander(),
            r.spec_statistics() == self.spec_statistics(),
            r.spec_portfolio() == self.spec_portfolio(),
            r.spec_traders() == self.spec_traders(),
    {
        EngineBuilder { engine_id: Some(value), ..self }
    }

    /// Supplies the command inbox.
    pub fn command_rx(self, value: tokio::sync::mpsc::Receiver<Command>) -> (r: Self)
        ensures
            r.spec_command_rx() == Some(value),
            r.spec_engine_id() == self.spec_engine_id(),
            r.spec_trader_commander() == self.spec_trader_commander(),
            r.spec_statistics() == self.spec_statistics(),
            r.spec_portfolio() == self.spec_portfolio(),
            r.spec_traders() == self.spec_traders(),
    {
        EngineBuilder { command_rx: Some(value), ..self }
    }

    /// Supplies the command router.
    pub fn trader_commander(self, value: Commander) -> (r: Self)
        ensures
            r.spec_trader_commander() == Some(value),
            r.spec_engine_id() == self.spec_engine_id(),
            r.spec_command_rx() == self.spec_command_rx(),
            r.spec_statistics() == self.spec_statistics(),
            r.spec_portfolio() == self.spec_portfolio(),
            r.spec_traders() == self.spec_traders(),
    {
        EngineBuilder { trader_commander: Some(value), ..self }
    }

    /// Supplies the statistics component.
    pub fn statistics(self, value: Statistic) -> (r: Self)
        ensures
            r.spec_statistics() == Some(value),
            r.spec_engine_id() == self.spec_engine_id(),
            r.spec_command_rx() == self.spec_command_rx(),
            r.spec_trader_commander() == self.spec_trader_commander(),
            r.spec_portfolio() == self.spec_portfolio(),
            r.spec_traders() == self.spec_traders(),
    {
        EngineBuilder { statistics: Some(value), ..self }
    }

    /// Supplies the shared portfolio handle.
    pub fn portfolio(self, value: SharedPortfolio<Portfolio>) -> (r: Self)
        ensures
            r.spec_portfolio() == Some(value),
            r.spec_engine_id() == self.spec_engine_id(),
            r.spec_command_rx() == self.spec_command_rx(),
            r.spec_trader_commander() == self.spec_trader_commander(),
            r.spec_statistics() == self.spec_statistics(),
            r.spec_traders() == self.spec_traders(),
    {
        EngineBuilder { portfolio: Some(value), ..self }
    }

    /// Supplies the traders.
    pub fn traders(
        self,
        value: Vec<Trader<EventTx, Portfolio, Data, Strategy, Execution>>,
    ) -> (r: Self)
        ensures
            r.spec_traders() == Some(value),
            r.spec_engine_id() == self.spec_engine_id(),
            r.spec_command_rx() == self.spec_command_rx(),
            r.spec_trader_commander() == self.spec_trader_commander(),
            r.spec_statistics() == self.spec_statistics(),
            r.spec_portfolio() == self.spec_portfolio(),
    {
        EngineBuilder { traders: Some(value), ..self }
    }

    /// Finalises construction: succeeds exactly when every required field
    /// was supplied, and then populates the engine with precisely the staged
    /// components; otherwise reports incompleteness and no engine exists.
    pub fn build(self) -> (r: Result<
        Engine<EventTx, Statistic, Portfolio, Data, Strategy, Execution>,
        EngineError,
    >)
        ensures
            r is Ok <==> self.is_complete(),
            r is Err ==> r->Err_0 == EngineError::BuilderIncomplete,
            r is Ok ==> {
                let e = r->Ok_0;
                &&& e.spec_engine_id() == self.spec_engine_id()->Some_0
                &&& e.spec_command_rx() == self.spec_command_rx()->Some_0
                &&& e.spec_trader_commander() == self.spec_trader_commander()->Some_0
                &&& e.spec_statistics() == self.spec_statistics()->Some_0
                &&& e.spec_portfolio() == self.spec_portfolio()->Some_0
                &&& e.spec_traders() == self.spec_traders()->Some_0
            },
    {
        let engine_id = match self.engine_id {
            Some(value) => value,
            None => {
                return Err(EngineError::BuilderIncomplete);
            },
        };
        let command_rx = match self.command_rx {
            Some(value) => value,
            None => {
                return Err(EngineError::BuilderIncomplete);
            },
        };
        let trader_commander = match self.trader_commander {
            Some(value) => value,
            None => {
                return Err(EngineError::BuilderIncomplete);
            },
        };
        let statistics = match self.statistics {
            Some(value) => value,
            None => {
                return Err(EngineError::BuilderIncomplete);
            },
        };
        let portfolio = match self.portfolio {
            Some(value) => value,
            None => {
                return Err(EngineError::BuilderIncomplete);
            },
        };
        let traders = match self.traders {
            Some(value) => value,
            None => {
                return Err(EngineError::BuilderIncomplete);
            },
        };
        Ok(
            Engine {
                engine_id,
                command_rx,
                trader_commander,
                statistics,
                portfolio,
                traders,
            },
        )
    }
}

} // verus!
