//! A whole run: a feed of events is processed from its start, up to its end
//! or up to the first item that the feed failed to deliver.

use super::ledger::{lemma_run_push, Ledger};
use super::processor::Processor;
use crate::error::ProcessError;
use crate::model::{Client, ClientID, Event};
use std::collections::HashMap;
use vstd::prelude::*;

verus! {

/// What a run leaves behind: the account of every client seen, and the
/// rejections in the order in which they occurred.
pub struct Summary {
    pub clients: HashMap<ClientID, Client>,
    pub errors: Vec<ProcessError>,
}

/// A run that the feed cut short. The events before the failure were
/// processed, and `summary` holds what they left behind.
pub struct Aborted<E> {
    /// The position in the feed of the item that failed.
    pub position: usize,
    /// The failure that the feed reported there.
    pub cause: E,
    pub summary: Summary,
}

/// Whether every item of the feed is an event.
pub open spec fn intact<E>(feed: Seq<Result<Event, E>>) -> bool {
    forall|i: int| 0 <= i < feed.len() ==> (#[trigger] feed[i]) is Ok
}

/// The events of an intact feed.
pub open spec fn events_of<E>(feed: Seq<Result<Event, E>>) -> Seq<Event>
    recommends
        intact(feed),
{
    Seq::new(feed.len(), |i: int| feed[i]->Ok_0)
}

impl Summary {
    /// Whether this is what processing `events` from an empty ledger leaves
    /// behind.
    pub open spec fn is_result_of(self, events: Seq<Event>) -> bool {
        &&& self.clients@ == Ledger::empty().run(events).clients
        &&& self.errors@ == Ledger::empty().rejections(events)
    }
}

/// Processes a feed of events from an empty ledger.
///
/// Business rejections do not stop the run: they are collected. An item that
/// the feed failed to deliver stops it at once; the result then says where,
/// hands the failure back and still holds what the events before it left
/// behind.
pub fn process_events<E>(events: Vec<Result<Event, E>>) -> (res: Result<Summary, Aborted<E>>)
    ensures
        match res {
            Ok(summary) => intact(events@) && summary.is_result_of(events_of(events@)),
            Err(aborted) => {
                &&& aborted.position < events@.len()
                &&& intact(events@.take(aborted.position as int))
                &&& events@[aborted.position as int] == Err::<Event, E>(aborted.cause)
                &&& aborted.summary.is_result_of(
                    events_of(events@.take(aborted.position as int)),
                )
            },
        },
{
    let ghost feed = events@;
    let length = events.len();
    let mut processor = Processor::new();
    let mut errors: Vec<ProcessError> = Vec::new();
    let mut position: usize = 0;
    for item in it: events
        invariant
            it.seq() == feed,
            feed.len() == length,
            position == it.index(),
            intact(feed.take(position as int)),
            processor@ == Ledger::empty().run(events_of(feed.take(position as int))),
            errors@ == Ledger::empty().rejections(events_of(feed.take(position as int))),
    {
        let ghost done = events_of(feed.take(position as int));
        assert(position < feed.len());
        match item {
            Err(cause) => {
                return Err(
                    Aborted {
                        position,
                        cause,
                        summary: Summary { clients: processor.clients_by_id(), errors },
                    },
                );
            },
            Ok(event) => {
                proof {
                    assert(events_of(feed.take(position + 1)) =~= done.push(event));
                    lemma_run_push(Ledger::empty(), done, event);
                }
                match processor.process_event(event) {
                    Err(e) => {
                        errors.push(e);
                    },
                    Ok(()) => {},
                }
            },
        }
        position = position + 1;
    }
    assert(feed.take(position as int) =~= feed);
    Ok(Summary { clients: processor.clients_by_id(), errors })
}

} // verus!
