//! The event handler: one converted record per event, handed to every subscriber.
use vstd::prelude::*;

use crate::cache::ClientCache;
use crate::events::{
    convert, delivered, failure_of, first_missing, invalidated, invalidation_of, lookups_of,
    skipped, ConvertError, DisconnectReason, Event, Lookup, NetworkStatus, RawEvent, Step,
};
use crate::login::should_reconnect;

verus! {

/// What the handler does with one raw event.
#[derive(Debug, PartialEq, Eq)]
pub enum HandlerAction {
    /// Nothing is delivered.
    Ignore,
    /// The connection dropped; `reconnect` tells whether the cause calls for reconnecting.
    Disconnected { reason: DisconnectReason, reconnect: bool },
    /// Fetch this entity into the cache, then handle the event again.
    Fetch(Lookup),
    /// The event could not be converted; it is reported and the stream goes on.
    ConversionFailed(ConvertError),
    /// Hand a copy of `event` to each of `subscribers` queues, all of them even when some
    /// fail.
    Deliver { event: Event, subscribers: usize },
}

/// Hands the events of one connection, converted, to its subscriber queues.
pub struct PyHandler {
    pub subscribers: usize,
    pub uin: i64,
}

impl PyHandler {
    pub fn new(subscribers: usize, uin: i64) -> (r: Self)
        ensures
            r.subscribers == subscribers,
            r.uin == uin,
    {
        PyHandler { subscribers, uin }
    }

    /// Decides what happens to `event`, converting it with what `cache` holds at `now`.
    pub fn handle(&self, cache: &mut ClientCache, event: &RawEvent, now: u64) -> (r: HandlerAction)
        requires
            old(cache).wf(),
        ensures
            final(cache).wf(),
            match *event {
                RawEvent::ClientDisconnect(reason) => invalidated(*old(cache), *final(cache), None)
                    && r == HandlerAction::Disconnected {
                    reason,
                    reconnect: reason == DisconnectReason::Network || reason
                        == DisconnectReason::Actively(NetworkStatus::NetworkOffline),
                },
                _ => match first_missing(*old(cache), lookups_of(*event, self.uin), now) {
                    Some(l) => r == HandlerAction::Fetch(l) && invalidated(
                        *old(cache),
                        *final(cache),
                        None,
                    ),
                    None => invalidated(*old(cache), *final(cache), invalidation_of(*event)) && if skipped(
                        *event,
                        self.uin,
                    ) {
                        r == HandlerAction::Ignore
                    } else {
                        match failure_of(*event, *old(cache), now) {
                            Some(err) => r == HandlerAction::ConversionFailed(err),
                            None => r matches HandlerAction::Deliver { event: e, subscribers: n } && n
                                == self.subscribers && delivered(*event, e, *old(cache), now),
                        }
                    },
                },
            },
    {
        if let RawEvent::ClientDisconnect(reason) = event {
            return HandlerAction::Disconnected { reason: *reason, reconnect: should_reconnect(*reason) };
        }
        match convert(cache, event, self.uin, now) {
            Step::Fetch(l) => HandlerAction::Fetch(l),
            Step::Skip => HandlerAction::Ignore,
            Step::Fail(err) => HandlerAction::ConversionFailed(err),
            Step::Deliver(e) => HandlerAction::Deliver { event: e, subscribers: self.subscribers },
        }
    }
}

/// Positions of the subscribers whose delivery failed, in order.
pub open spec fn failed_positions(outcomes: Seq<bool>) -> Seq<int>
    decreases outcomes.len(),
{
    if outcomes.len() == 0 {
        Seq::empty()
    } else if outcomes.last() {
        failed_positions(outcomes.drop_last())
    } else {
        failed_positions(outcomes.drop_last()).push(outcomes.len() - 1)
    }
}

/// The subscribers whose delivery failed, given each one's outcome (`true` when delivered).
/// Each failure is reported on its own; none stops the others.
pub fn delivery_failures(outcomes: &Vec<bool>) -> (r: Vec<usize>)
    ensures
        r@.map_values(|i: usize| i as int) == failed_positions(outcomes@),
{
    let n = outcomes.len();
    let mut failed: Vec<usize> = Vec::new();
    let mut i: usize = 0;
    while i < n
        invariant
            n == outcomes@.len(),
            0 <= i <= n,
            failed@.map_values(|k: usize| k as int) == failed_positions(
                outcomes@.subrange(0, i as int),
            ),
        decreases n - i,
    {
        let ghost prefix = outcomes@.subrange(0, i as int + 1);
        assert(prefix.drop_last() =~= outcomes@.subrange(0, i as int));
        assert(prefix.last() == outcomes@[i as int]);
        if !outcomes[i] {
            let ghost before = failed@;
            failed.push(i);
            assert(failed@.map_values(|k: usize| k as int) =~= before.map_values(
                |k: usize| k as int,
            ).push(i as int));
        }
        i = i + 1;
    }
    assert(outcomes@.subrange(0, n as int) =~= outcomes@);
    failed
}

} // verus!
