//! The mathematical model of the ledger: a history is the sequence of
//! committed events in the order of their commit. This module says what the
//! store's queries return on a history, what the writer decides on it, and
//! which histories are valid.

use vstd::prelude::*;
use crate::event::{may_follow, EventData, EventKind};
use crate::ledger::{verdict, Event, Rejection};
use crate::time::Timestamp;

verus! {

/// The event with the given id, if the history holds one.
pub open spec fn lookup(s: Seq<Event>, id: i64) -> Option<Event>
    decreases s.len(),
{
    if s.len() == 0 {
        None
    } else if s.last().id == id {
        Some(s.last())
    } else {
        lookup(s.drop_last(), id)
    }
}

/// The earliest committed event of `item_id` that has kind `kind`, if any.
pub open spec fn first_of_kind(s: Seq<Event>, item_id: i64, kind: EventKind) -> Option<Event>
    decreases s.len(),
{
    if s.len() == 0 {
        None
    } else {
        match first_of_kind(s.drop_last(), item_id, kind) {
            Some(e) => Some(e),
            None => if s.last().item_id == item_id && s.last().kind() == kind {
                Some(s.last())
            } else {
                None
            },
        }
    }
}

/// The event of `item_id` with the greatest timestamp, if the item has any.
/// Of several events that share the greatest timestamp, the one committed
/// last.
pub open spec fn latest_of(s: Seq<Event>, item_id: i64) -> Option<Event>
    decreases s.len(),
{
    if s.len() == 0 {
        None
    } else if s.last().item_id != item_id {
        latest_of(s.drop_last(), item_id)
    } else {
        match latest_of(s.drop_last(), item_id) {
            Some(e) => if s.last().ts.spec_precedes(e.ts) {
                Some(e)
            } else {
                Some(s.last())
            },
            None => Some(s.last()),
        }
    }
}

/// The events of `item_id`, in the order of their commit.
pub open spec fn events_of(s: Seq<Event>, item_id: i64) -> Seq<Event>
    decreases s.len(),
{
    if s.len() == 0 {
        Seq::empty()
    } else if s.last().item_id == item_id {
        events_of(s.drop_last(), item_id).push(s.last())
    } else {
        events_of(s.drop_last(), item_id)
    }
}

/// The writer's verdict on a candidate against the history `s`.
pub open spec fn verdict_in(
    s: Seq<Event>,
    item_id: i64,
    ts: Timestamp,
    kind: EventKind,
    parent_id: Option<i64>,
) -> Result<(), Rejection> {
    verdict(
        item_id,
        ts,
        kind,
        parent_id,
        match parent_id {
            Some(p) => lookup(s, p),
            None => None,
        },
        first_of_kind(s, item_id, kind),
        latest_of(s, item_id),
    )
}

/// Ids grow along the history: the store hands them out in commit order.
pub open spec fn ids_increasing(s: Seq<Event>) -> bool {
    forall|i: int, j: int| #![trigger s[i], s[j]] 0 <= i < j < s.len() ==> s[i].id < s[j].id
}

/// No item holds two events of one once-only kind.
pub open spec fn unique_kinds_once(s: Seq<Event>) -> bool {
    forall|i: int, j: int|
        #![trigger s[i], s[j]]
        0 <= i < j < s.len() && s[i].item_id == s[j].item_id && s[i].kind() == s[j].kind()
            ==> !s[i].kind().spec_is_unique()
}

/// The event `e` names a parent exactly when its kind takes one, and the
/// parent is an event of the same item that has the required kind.
pub open spec fn parent_linked(s: Seq<Event>, e: Event) -> bool {
    match e.kind().spec_required_parent() {
        Some(required) => {
            &&& e.parent_id matches Some(p)
            &&& lookup(s, p) matches Some(parent)
            &&& parent.item_id == e.item_id
            &&& parent.kind() == required
        },
        None => e.parent_id is None,
    }
}

/// Every event of the history is linked to its parent as its kind demands.
pub open spec fn parents_linked(s: Seq<Event>) -> bool {
    forall|i: int| 0 <= i < s.len() ==> parent_linked(s, #[trigger] s[i])
}

/// Timestamps grow strictly along the chain `c`.
pub open spec fn timestamps_increasing(c: Seq<Event>) -> bool {
    forall|i: int, j: int|
        #![trigger c[i], c[j]]
        0 <= i < j < c.len() ==> c[i].ts.spec_precedes(c[j].ts)
}

/// The chain `c` starts with a kind that may open a history, and each event
/// of it may directly follow the one before.
pub open spec fn transitions_legal(c: Seq<Event>) -> bool {
    &&& c.len() > 0 ==> may_follow(None, c[0].kind())
    &&& forall|i: int, j: int|
        #![trigger c[i], c[j]]
        0 <= i && i + 1 == j && j < c.len() ==> may_follow(Some(c[i].kind()), c[j].kind())
}

/// The events of every item, in commit order, have strictly growing
/// timestamps and follow the transition table.
pub open spec fn chains_valid(s: Seq<Event>) -> bool {
    forall|item_id: i64|
        timestamps_increasing(#[trigger] events_of(s, item_id)) && transitions_legal(
            events_of(s, item_id),
        )
}

/// A valid history: what holds of the committed events at all times.
pub open spec fn history_valid(s: Seq<Event>) -> bool {
    &&& ids_increasing(s)
    &&& unique_kinds_once(s)
    &&& parents_linked(s)
    &&& chains_valid(s)
}

/// A request to record an event.
#[derive(Debug, PartialEq, Eq)]
pub struct Request {
    pub item_id: i64,
    pub ts: Timestamp,
    pub data: EventData,
    pub parent_id: Option<i64>,
}

/// The abstract state of a ledger: its history and the last id that the store
/// has handed out.
pub struct LedgerState {
    pub events: Seq<Event>,
    pub last_id: i64,
}

impl LedgerState {
    /// The state of a ledger that holds nothing and whose first event will
    /// get the id after `last_id`.
    pub open spec fn starting_after(last_id: i64) -> LedgerState {
        LedgerState { events: Seq::empty(), last_id }
    }

    /// The history is valid and no event has an id beyond the last one
    /// handed out.
    pub open spec fn valid(self) -> bool {
        &&& history_valid(self.events)
        &&& forall|i: int| 0 <= i < self.events.len() ==> (#[trigger] self.events[i]).id <= self.last_id
    }

    /// What recording `req` returns: the verdict of the validation where it
    /// rejects, a storage failure where the store has run out of ids, else
    /// the new event under the next id.
    pub open spec fn outcome(self, req: Request) -> Result<Event, Rejection> {
        match verdict_in(self.events, req.item_id, req.ts, req.data.spec_kind(), req.parent_id) {
            Err(rejection) => Err(rejection),
            Ok(_) => if self.last_id < i64::MAX {
                Ok(
                    Event {
                        id: (self.last_id + 1) as i64,
                        item_id: req.item_id,
                        parent_id: req.parent_id,
                        ts: req.ts,
                        data: req.data,
                    },
                )
            } else {
                Err(Rejection::StorageFailure)
            },
        }
    }

    /// The state after recording `req`: the history with the new event at
    /// its end where the request is accepted, the same state where it is not.
    pub open spec fn record(self, req: Request) -> LedgerState {
        match self.outcome(req) {
            Ok(event) => LedgerState { events: self.events.push(event), last_id: event.id },
            Err(_) => self,
        }
    }

    /// The state after recording the requests `reqs` one after the other.
    pub open spec fn replay(self, reqs: Seq<Request>) -> LedgerState
        decreases reqs.len(),
    {
        if reqs.len() == 0 {
            self
        } else {
            self.replay(reqs.drop_last()).record(reqs.last())
        }
    }
}

} // verus!
