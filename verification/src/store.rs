//! The in-memory ledger: the store of committed events and the writer that
//! is the only way to add to it.

use vstd::prelude::*;
use crate::event::{EventData, EventKind};
use crate::history::{
    events_of, first_of_kind, latest_of, lookup, timestamps_increasing, transitions_legal,
    verdict_in, LedgerState, Request,
};
use crate::laws::{
    lemma_latest_is_last, lemma_latest_of, lemma_lookup, lemma_record_preserves_validity,
};
use crate::ledger::{validate, Event, Rejection};
use crate::time::Timestamp;

verus! {

/// The position in `events` of the event that `lookup` returns for `id`.
fn position_of_id(events: &Vec<Event>, id: i64) -> (found: Option<usize>)
    ensures
        match found {
            Some(i) => i < events.len() && lookup(events@, id) == Some(events@[i as int]),
            None => lookup(events@, id) is None,
        },
{
    let mut found: Option<usize> = None;
    let mut i: usize = 0;
    while i < events.len()
        invariant
            i <= events.len(),
            match found {
                Some(k) => k < i && lookup(events@.take(i as int), id) == Some(events@[k as int]),
                None => lookup(events@.take(i as int), id) is None,
            },
        decreases events.len() - i,
    {
        proof {
            assert(events@.take(i + 1).drop_last() == events@.take(i as int));
        }
        if events[i].id == id {
            found = Some(i);
        }
        i += 1;
    }
    proof {
        assert(events@.take(events.len() as int) == events@);
    }
    found
}

/// The position in `events` of the event that `first_of_kind` returns.
fn position_of_kind(events: &Vec<Event>, item_id: i64, kind: EventKind) -> (found: Option<usize>)
    ensures
        match found {
            Some(i) => i < events.len() && first_of_kind(events@, item_id, kind) == Some(
                events@[i as int],
            ),
            None => first_of_kind(events@, item_id, kind) is None,
        },
{
    let mut found: Option<usize> = None;
    let mut i: usize = 0;
    while i < events.len()
        invariant
            i <= events.len(),
            match found {
                Some(k) => k < i && first_of_kind(events@.take(i as int), item_id, kind) == Some(
                    events@[k as int],
                ),
                None => first_of_kind(events@.take(i as int), item_id, kind) is None,
            },
        decreases events.len() - i,
    {
        proof {
            assert(events@.take(i + 1).drop_last() == events@.take(i as int));
        }
        if found.is_none() && events[i].item_id == item_id && events[i].data.kind() == kind {
            found = Some(i);
        }
        i += 1;
    }
    proof {
        assert(events@.take(events.len() as int) == events@);
    }
    found
}

/// The position in `events` of the event that `latest_of` returns.
fn position_of_latest(events: &Vec<Event>, item_id: i64) -> (found: Option<usize>)
    ensures
        match found {
            Some(i) => i < events.len() && latest_of(events@, item_id) == Some(events@[i as int]),
            None => latest_of(events@, item_id) is None,
        },
{
    let mut found: Option<usize> = None;
    let mut i: usize = 0;
    while i < events.len()
        invariant
            i <= events.len(),
            match found {
                Some(k) => k < i && latest_of(events@.take(i as int), item_id) == Some(
                    events@[k as int],
                ),
                None => latest_of(events@.take(i as int), item_id) is None,
            },
        decreases events.len() - i,
    {
        proof {
            assert(events@.take(i + 1).drop_last() == events@.take(i as int));
        }
        if events[i].item_id == item_id {
            found = match found {
                Some(k) => if events[i].ts.precedes(events[k].ts) {
                    Some(k)
                } else {
                    Some(i)
                },
                None => Some(i),
            };
        }
        i += 1;
    }
    proof {
        assert(events@.take(events.len() as int) == events@);
    }
    found
}

/// The event at an optional position.
fn event_at(events: &Vec<Event>, position: Option<usize>) -> (event: Option<&Event>)
    requires
        position matches Some(i) ==> i < events.len(),
    ensures
        match position {
            Some(i) => event == Some(&events@[i as int]),
            None => event is None,
        },
{
    match position {
        Some(i) => Some(&events[i]),
        None => None,
    }
}

/// An append-only store of events with its writer. Events enter through
/// [`Ledger::record`] alone, and nothing changes or removes an event that has
/// entered.
pub struct Ledger {
    events: Vec<Event>,
    last_id: i64,
}

impl View for Ledger {
    type V = LedgerState;

    closed spec fn view(&self) -> LedgerState {
        LedgerState { events: self.events@, last_id: self.last_id }
    }
}

impl Default for Ledger {
    /// A ledger that holds nothing. Its first event gets the id 1.
    fn default() -> (ledger: Ledger)
        ensures
            ledger@ == LedgerState::starting_after(0),
            ledger@.valid(),
    {
        Ledger::new()
    }
}

impl Ledger {
    #[verifier::type_invariant]
    spec fn well_formed(&self) -> bool {
        self@.valid()
    }

    /// A ledger that holds nothing. Its first event gets the id 1.
    pub fn new() -> (ledger: Ledger)
        ensures
            ledger@ == LedgerState::starting_after(0),
            ledger@.valid(),
    {
        Ledger { events: Vec::new(), last_id: 0 }
    }

    /// A ledger that holds nothing and whose first event gets the id after
    /// `last_id`.
    pub fn starting_after(last_id: i64) -> (ledger: Ledger)
        ensures
            ledger@ == LedgerState::starting_after(last_id),
            ledger@.valid(),
    {
        Ledger { events: Vec::new(), last_id }
    }

    /// The number of committed events. The ledger is valid whenever it is
    /// looked at.
    pub fn len(&self) -> (n: usize)
        ensures
            n == self@.events.len(),
            self@.valid(),
    {
        proof {
            use_type_invariant(self);
        }
        self.events.len()
    }

    /// The event with the given id: an event of the ledger that has this
    /// id, or nothing where no event has it.
    pub fn find(&self, event_id: i64) -> (found: Option<Event>)
        ensures
            found == lookup(self@.events, event_id),
            found matches Some(event) ==> event.id == event_id && self@.events.contains(event),
            found is None ==> forall|i: int|
                0 <= i < self@.events.len() ==> (#[trigger] self@.events[i]).id != event_id,
            self@.valid(),
    {
        proof {
            use_type_invariant(self);
            lemma_lookup(self@.events, event_id);
        }
        match position_of_id(&self.events, event_id) {
            Some(i) => Some(self.events[i].clone()),
            None => None,
        }
    }

    /// The most recent event of an item: the one with the greatest
    /// timestamp, which is also the last of the item's chain. Nothing where
    /// the item has no event.
    pub fn latest(&self, item_id: i64) -> (found: Option<Event>)
        ensures
            found == latest_of(self@.events, item_id),
            found == if events_of(self@.events, item_id).len() == 0 {
                None
            } else {
                Some(events_of(self@.events, item_id).last())
            },
            found matches Some(event) ==> {
                &&& event.item_id == item_id
                &&& self@.events.contains(event)
                &&& forall|i: int|
                    0 <= i < self@.events.len() && (#[trigger] self@.events[i]).item_id == item_id
                        ==> !event.ts.spec_precedes(self@.events[i].ts)
            },
            found is None ==> forall|i: int|
                0 <= i < self@.events.len() ==> (#[trigger] self@.events[i]).item_id != item_id,
            self@.valid(),
    {
        proof {
            use_type_invariant(self);
            lemma_latest_is_last(self@.events, item_id);
            lemma_latest_of(self@.events, item_id);
        }
        match position_of_latest(&self.events, item_id) {
            Some(i) => Some(self.events[i].clone()),
            None => None,
        }
    }

    /// The events of an item in the order of their commit, which is also the
    /// order of their timestamps.
    pub fn all(&self, item_id: i64) -> (chain: Vec<Event>)
        ensures
            chain@ == events_of(self@.events, item_id),
            timestamps_increasing(chain@),
            transitions_legal(chain@),
            self@.valid(),
    {
        proof {
            use_type_invariant(self);
        }
        let mut chain: Vec<Event> = Vec::new();
        let mut i: usize = 0;
        while i < self.events.len()
            invariant
                i <= self.events.len(),
                chain@ == events_of(self.events@.take(i as int), item_id),
            decreases self.events.len() - i,
        {
            proof {
                assert(self.events@.take(i + 1).drop_last() == self.events@.take(i as int));
            }
            if self.events[i].item_id == item_id {
                chain.push(self.events[i].clone());
            }
            i += 1;
        }
        proof {
            assert(self.events@.take(self.events.len() as int) == self.events@);
        }
        chain
    }

    /// Validates the candidate against the history and, where it passes,
    /// commits it under the next id and returns the committed event. Where
    /// it does not pass, or the store has run out of ids, the ledger stays as
    /// it was.
    pub fn record(
        &mut self,
        item_id: i64,
        ts: Timestamp,
        data: EventData,
        parent_id: Option<i64>,
    ) -> (result: Result<Event, Rejection>)
        ensures
            result == old(self)@.outcome((Request { item_id, ts, data, parent_id })),
            final(self)@ == old(self)@.record((Request { item_id, ts, data, parent_id })),
            final(self)@.valid(),
    {
        proof {
            use_type_invariant(&*self);
            lemma_record_preserves_validity(self@, Request { item_id, ts, data, parent_id });
        }
        let parent_position = match parent_id {
            Some(p) => position_of_id(&self.events, p),
            None => None,
        };
        let kind_position = position_of_kind(&self.events, item_id, data.kind());
        let latest_position = position_of_latest(&self.events, item_id);
        let verdict = validate(
            item_id,
            ts,
            &data,
            parent_id,
            event_at(&self.events, parent_position),
            event_at(&self.events, kind_position),
            event_at(&self.events, latest_position),
        );
        match verdict {
            Err(rejection) => Err(rejection),
            Ok(_) => self.append(item_id, parent_id, ts, data),
        }
    }

    /// Commits an event that has passed validation under the next id, or
    /// fails where the ids have run out.
    fn append(&mut self, item_id: i64, parent_id: Option<i64>, ts: Timestamp, data: EventData) -> (result:
        Result<Event, Rejection>)
        requires
            verdict_in(old(self)@.events, item_id, ts, data.spec_kind(), parent_id) is Ok,
        ensures
            result == old(self)@.outcome((Request { item_id, ts, data, parent_id })),
            final(self)@ == old(self)@.record((Request { item_id, ts, data, parent_id })),
    {
        proof {
            use_type_invariant(&*self);
            lemma_record_preserves_validity(self@, Request { item_id, ts, data, parent_id });
        }
        if self.last_id == i64::MAX {
            return Err(Rejection::StorageFailure);
        }
        let id = self.last_id + 1;
        let event = Event { id, item_id, parent_id, ts, data };
        let committed = event.clone();
        let mut events: Vec<Event> = Vec::new();
        std::mem::swap(&mut events, &mut self.events);
        events.push(event);
        *self = Ledger { events, last_id: id };
        Ok(committed)
    }
}

impl Event {
    /// Records in `ledger` an event that names no parent: validates it
    /// against the history of its item and, where it passes, commits it.
    pub fn insert_event(ledger: &mut Ledger, item_id: i64, ts: Timestamp, data: EventData) -> (result:
        Result<Event, Rejection>)
        ensures
            result == old(ledger)@.outcome((Request { item_id, ts, data, parent_id: None })),
            final(ledger)@ == old(ledger)@.record((Request { item_id, ts, data, parent_id: None })),
            final(ledger)@.valid(),
    {
        ledger.record(item_id, ts, data, None)
    }
}

} // verus!
