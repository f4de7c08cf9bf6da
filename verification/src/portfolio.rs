//! The shared portfolio: the update interfaces it exposes, and the
//! shared-ownership, lock-serialised handle through which the engine and
//! every trader reach the one logical portfolio instance.

use vstd::prelude::*;

verus! {

use vstd::rwlock::RwLock;
use crate::data::MarketEvent;
use crate::execution::Fill;
use crate::position::{ClosedPosition, EquityPoint};
use crate::strategy::Signal;

/// A sized order the portfolio wants executed.
#[derive(Clone, Copy, PartialEq, Eq, Structural, Debug)]
pub struct Order {
    /// Signed quantity to trade; positive buys, negative sells.
    pub quantity: i64,
    /// Limit price, in fixed-point price units.
    pub price: u64,
}

/// What a market update did to the portfolio: whether it touched an open
/// position (and so warrants a strategy pass) or not.
#[derive(Clone, Copy, PartialEq, Eq, Structural, Debug)]
pub enum MarketUpdateOutcome {
    /// The event moved an open position; continue the cycle.
    PositionAffected,
    /// The event was absorbed without position impact.
    NoPositionImpact,
}

/// Applies market input to positions and the equity curve.
pub trait MarketUpdater {
    /// Absorbs one market event.
    fn update_from_market(&mut self, market: &MarketEvent) -> MarketUpdateOutcome;
}

/// Sizes orders from signals, against current positions and cash.
pub trait OrderGenerator {
    /// The order this signal warrants, if any.
    fn generate_order(&mut self, signal: &Signal) -> Option<Order>;
}

/// Applies fills to positions, cash and the equity curve.
pub trait FillUpdater {
    /// Absorbs one fill; returns the equity observations it produced.
    fn update_from_fill(&mut self, fill: &Fill) -> Vec<EquityPoint>;
}

/// Hands out the positions closed during a run, for the end-of-run summary.
pub trait PositionHandler {
    /// All positions closed so far, or `None` when none were recorded.
    fn get_exited_positions(&mut self, query_id: &uuid::Uuid) -> Option<Vec<ClosedPosition>>;
}

/// A shared-ownership handle to the single logical portfolio, guarded by one
/// verified reader-writer lock. Every mutation is one short critical
/// section: each method acquires the lock, makes exactly one portfolio call,
/// and releases it, so no two traders ever update the portfolio
/// concurrently and the lock is never held across venue or strategy calls.
/// The lock cannot be poisoned: it is released only by these methods, on
/// every path.
#[verifier::reject_recursive_types(P)]
pub struct SharedPortfolio<P> {
    lock: std::sync::Arc<RwLock<P, spec_fn(P) -> bool>>,
}

impl<P> SharedPortfolio<P> {
    /// The lock admits every portfolio value: the portfolio's own invariants
    /// are the trait implementors' business, not the lock's.
    #[verifier::type_invariant]
    spec fn lock_admits_all(self) -> bool {
        forall|p: P| #[trigger] self.lock.inv(p)
    }

    /// Takes sole ownership of the portfolio and wraps it for shared,
    /// lock-serialised access.
    pub fn new(portfolio: P) -> Self {
        let lock = RwLock::new(portfolio, Ghost(|p: P| true));
        proof {
            assert(forall|p: P| #[trigger] lock.inv(p));
        }
        SharedPortfolio { lock: std::sync::Arc::new(lock) }
    }

    /// Relies on std's `Arc::clone`: a second handle to the same lock and
    /// portfolio.
    #[verifier::external_body]
    pub fn clone_handle(&self) -> (r: Self)
        ensures
            r == *self,
    {
        SharedPortfolio { lock: std::sync::Arc::clone(&self.lock) }
    }
}

impl<P: MarketUpdater> SharedPortfolio<P> {
    /// Applies one market event under the lock.
    pub fn update_from_market(&self, market: &MarketEvent) -> MarketUpdateOutcome {
        proof {
            use_type_invariant(self);
        }
        let (mut portfolio, handle) = self.lock.acquire_write();
        let outcome = portfolio.update_from_market(market);
        handle.release_write(portfolio);
        outcome
    }
}

impl<P: OrderGenerator> SharedPortfolio<P> {
    /// Sizes an order from a signal under the lock.
    pub fn generate_order(&self, signal: &Signal) -> Option<Order> {
        proof {
            use_type_invariant(self);
        }
        let (mut portfolio, handle) = self.lock.acquire_write();
        let order = portfolio.generate_order(signal);
        handle.release_write(portfolio);
        order
    }
}

impl<P: FillUpdater> SharedPortfolio<P> {
    /// Applies one fill under the lock.
    pub fn update_from_fill(&self, fill: &Fill) -> Vec<EquityPoint> {
        proof {
            use_type_invariant(self);
        }
        let (mut portfolio, handle) = self.lock.acquire_write();
        let observations = portfolio.update_from_fill(fill);
        handle.release_write(portfolio);
        observations
    }
}

impl<P: PositionHandler> SharedPortfolio<P> {
    /// Queries the positions closed during the run, under the lock.
    pub fn get_exited_positions(&self, query_id: &uuid::Uuid) -> Option<Vec<ClosedPosition>> {
        proof {
            use_type_invariant(self);
        }
        let (mut portfolio, handle) = self.lock.acquire_write();
        let positions = portfolio.get_exited_positions(query_id);
        handle.release_write(portfolio);
        positions
    }
}

} // verus!
