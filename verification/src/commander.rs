//! Command routing: translates an out-of-band command into a delivery —
//! engine-wide commands to every trader, position-targeted commands to
//! exactly the trader owning the position.

use vstd::prelude::*;

verus! {

use crate::engine::Command;
use crate::position::PositionId;

/// Identifies one trader within the engine's trader set, by index.
pub type TraderId = usize;

/// Where a routed command goes.
#[derive(Clone, PartialEq, Eq, Debug)]
pub enum Delivery {
    /// Deliver to every trader.
    Broadcast(Command),
    /// Deliver to exactly the one trader owning the targeted position.
    ToTrader(TraderId, Command),
    /// The targeted position is unknown; report, do not stop the run.
    UnknownPosition(PositionId),
}

/// The first registered route for `position`, if any.
pub open spec fn find_route(routes: Seq<(PositionId, TraderId)>, position: PositionId) -> Option<
    TraderId,
>
    decreases routes.len(),
{
    if routes.len() == 0 {
        None
    } else if routes[0].0 == position {
        Some(routes[0].1)
    } else {
        find_route(routes.drop_first(), position)
    }
}

/// How a command is delivered, given the registered routes: engine-wide
/// commands are broadcast; a position exit goes to the owning trader, or is
/// reported as unknown.
pub open spec fn spec_route(routes: Seq<(PositionId, TraderId)>, command: Command) -> Delivery {
    if command is ExitPosition {
        let position = command->ExitPosition_0;
        if find_route(routes, position) is Some {
            Delivery::ToTrader(
                find_route(routes, position)->Some_0,
                Command::ExitPosition(position),
            )
        } else {
            Delivery::UnknownPosition(position)
        }
    } else {
        Delivery::Broadcast(command)
    }
}

/// Routes commands to traders via a position-to-trader mapping.
#[derive(Debug)]
pub struct Commander {
    /// The position-to-trader mapping, in registration order; the earliest
    /// registration for a position wins.
    pub routes: Vec<(PositionId, TraderId)>,
}

impl Commander {
    /// A commander with no registered routes.
    pub fn new() -> (r: Self)
        ensures
            r.routes@ == Seq::<(PositionId, TraderId)>::empty(),
    {
        Commander { routes: Vec::new() }
    }

    /// Registers `position` as owned by `trader`.
    pub fn register(&mut self, position: PositionId, trader: TraderId)
        ensures
            final(self).routes@ == old(self).routes@.push((position, trader)),
    {
        self.routes.push((position, trader));
    }

    /// Translates one command into its delivery.
    pub fn route(&self, command: Command) -> (d: Delivery)
        ensures
            d == spec_route(self.routes@, command),
    {
        match &command {
            Command::ExitPosition(position_ref) => {
                let position = *position_ref;
                proof {
                    assert(self.routes@.skip(0) =~= self.routes@);
                }
                let mut i: usize = 0;
                while i < self.routes.len()
                    invariant
                        i <= self.routes.len(),
                        command == Command::ExitPosition(position),
                        find_route(self.routes@, position) == find_route(
                            self.routes@.skip(i as int),
                            position,
                        ),
                    decreases self.routes.len() - i,
                {
                    let (candidate, trader) = self.routes[i];
                    if candidate == position {
                        proof {
                            assert(self.routes@.skip(i as int).len() > 0);
                            assert(self.routes@.skip(i as int)[0] == self.routes@[i as int]);
                            assert(find_route(self.routes@.skip(i as int), position)
                                == Some(trader));
                        }
                        return Delivery::ToTrader(trader, Command::ExitPosition(position));
                    }
                    proof {
                        assert(self.routes@.skip(i as int).drop_first() =~= self.routes@.skip(
                            i as int + 1,
                        ));
                    }
                    i += 1;
                }
                Delivery::UnknownPosition(position)
            },
            _ => Delivery::Broadcast(command),
        }
    }
}

} // verus!
