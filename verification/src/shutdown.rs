//! The shutdown coordinator.
//!
//! Each drain loop polls its own shutdown flag; the controller waits on a
//! race among three events: the operator interrupt and either loop
//! returning on its own.  Only the interrupt sets the flags — a loop that
//! returns by itself is observed and logged but does not stop its sibling.
//! A flag moves from false to true once and is never reset.

use vstd::prelude::*;

use crate::image::MapRole;

verus! {

/// The two shutdown flags, one per event channel.
#[derive(Clone, Copy, Debug, PartialEq, Eq, Structural)]
pub struct ShutdownFlags {
    pub net_stop: bool,
    pub veth_stop: bool,
}

/// One of the three events the controller's shutdown race can resolve
/// with.
#[derive(Clone, Copy, Debug, PartialEq, Eq, Structural)]
pub enum RaceEvent {
    /// The operator interrupt arrived.
    Interrupt,
    /// The drain loop of this channel returned on its own.
    LoopReturned(MapRole),
}

/// The flags after the race resolved: the interrupt sets both; a loop
/// returning on its own changes nothing.
pub open spec fn spec_after_race(flags: ShutdownFlags, ev: RaceEvent) -> ShutdownFlags {
    match ev {
        RaceEvent::Interrupt => ShutdownFlags { net_stop: true, veth_stop: true },
        RaceEvent::LoopReturned(_) => flags,
    }
}

impl ShutdownFlags {
    /// The flag of one channel.
    pub open spec fn flag(self, channel: MapRole) -> bool {
        match channel {
            MapRole::NetworkEvents => self.net_stop,
            MapRole::VethEvents => self.veth_stop,
        }
    }

    /// Both drain loops running, nothing asked to stop.
    pub fn new() -> (r: ShutdownFlags)
        ensures
            r == (ShutdownFlags { net_stop: false, veth_stop: false }),
    {
        ShutdownFlags { net_stop: false, veth_stop: false }
    }

    /// Resolve the shutdown race.  Only the interrupt path sets the
    /// flags, and it sets both; a drain loop returning on its own leaves
    /// its sibling's flag — and its own — untouched.
    pub fn resolve_race(&mut self, ev: RaceEvent)
        ensures
            *final(self) == spec_after_race(*old(self), ev),
            ev is Interrupt ==> final(self).net_stop && final(self).veth_stop,
            !(ev is Interrupt) ==> *final(self) == *old(self),
    {
        match ev {
            RaceEvent::Interrupt => {
                self.net_stop = true;
                self.veth_stop = true;
            }
            RaceEvent::LoopReturned(_) => {}
        }
    }
}

/// Flag monotonicity: a shutdown flag moves from false to true at most
/// once and is never reset — whatever event resolves the race, a flag
/// that was true stays true.
pub proof fn lemma_flag_monotonic(flags: ShutdownFlags, ev: RaceEvent, channel: MapRole)
    ensures
        flags.flag(channel) ==> spec_after_race(flags, ev).flag(channel),
{
}

} // verus!
