//! Choice of the server connection when several addresses are tried at once.
use vstd::prelude::*;

verus! {

/// Seconds that one connection attempt may take.
pub const CONNECT_TIMEOUT_SECS: u64 = 5;

/// What a connection race does after an attempt finished.
#[derive(Debug, PartialEq, Eq, Clone, Copy)]
pub enum RaceStep {
    /// Keep the connection of this attempt; the others are left to finish unheard.
    Winner,
    /// Wait for the next attempt to finish.
    Wait,
    /// Every attempt failed.
    NoneConnected,
}

/// A race of connection attempts, one per server address: the first attempt that connects
/// wins.
pub struct IchikaConnector {
    pending: usize,
    won: bool,
}

impl IchikaConnector {
    /// Attempts started and not yet finished.
    pub closed spec fn pending_view(&self) -> nat {
        self.pending as nat
    }

    /// Whether an attempt has already connected.
    pub closed spec fn won_view(&self) -> bool {
        self.won
    }

    /// A race over `addresses` attempts, each limited to [`CONNECT_TIMEOUT_SECS`].
    pub fn new(addresses: usize) -> (r: Self)
        ensures
            r.pending_view() == addresses,
            !r.won_view(),
    {
        IchikaConnector { pending: addresses, won: false }
    }

    /// The step at the start, before any attempt finished: with no address nothing connects.
    pub fn begin(&self) -> (r: RaceStep)
        ensures
            r == (if self.won_view() {
                RaceStep::Winner
            } else if self.pending_view() == 0 {
                RaceStep::NoneConnected
            } else {
                RaceStep::Wait
            }),
    {
        if self.won {
            RaceStep::Winner
        } else if self.pending == 0 {
            RaceStep::NoneConnected
        } else {
            RaceStep::Wait
        }
    }

    /// Records that one attempt finished, connected or not.
    pub fn finished(&mut self, connected: bool) -> (r: RaceStep)
        requires
            old(self).pending_view() > 0,
            !old(self).won_view(),
        ensures
            final(self).pending_view() == old(self).pending_view() - 1,
            final(self).won_view() == connected,
            connected ==> r == RaceStep::Winner,
            !connected && final(self).pending_view() == 0 ==> r == RaceStep::NoneConnected,
            !connected && final(self).pending_view() > 0 ==> r == RaceStep::Wait,
    {
        self.pending = self.pending - 1;
        if connected {
            self.won = true;
            RaceStep::Winner
        } else if self.pending == 0 {
            RaceStep::NoneConnected
        } else {
            RaceStep::Wait
        }
    }
}

} // verus!
