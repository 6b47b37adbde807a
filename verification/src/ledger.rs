//! The event record, the rejection taxonomy and the validation rules of the
//! ledger writer.

use vstd::prelude::*;
use crate::event::{may_follow, EventData, EventKind};
use crate::time::Timestamp;

verus! {

/// An immutable record of the ledger.
#[derive(Debug, PartialEq, Eq)]
pub struct Event {
    /// Assigned by the store on insert
    pub id: i64,
    /// The item that owns the event
    pub item_id: i64,
    /// The event this one answers to, for kinds that take a parent
    pub parent_id: Option<i64>,
    /// Supplied by the caller; not the time of insertion
    pub ts: Timestamp,
    pub data: EventData,
}

impl Event {
    /// The kind of the event.
    pub open spec fn kind(&self) -> EventKind {
        self.data.spec_kind()
    }
}

impl Clone for Event {
    fn clone(&self) -> (copy: Self)
        ensures
            copy == *self,
    {
        Event {
            id: self.id,
            item_id: self.item_id,
            parent_id: self.parent_id,
            ts: self.ts,
            data: self.data.clone(),
        }
    }
}

/// Why the writer refused a candidate event.
///
/// Every variant but `StorageFailure` is a verdict on the candidate against
/// the history: the same candidate against the same history is refused again.
#[derive(Clone, Copy, Debug, PartialEq, Eq, Structural)]
pub enum Rejection {
    /// `to` may not directly follow the item's most recent event, of kind
    /// `from` (`None`: the item has no event yet)
    IllegalTransition { from: Option<EventKind>, to: EventKind },
    /// The candidate is not strictly later than the item's most recent event
    OutOfOrderTimestamp { latest: Timestamp, attempted: Timestamp },
    /// The item already holds the event `existing_id` of this once-only kind
    DuplicateUniqueEvent { kind: EventKind, existing_id: i64 },
    /// The kind takes a parent of kind `required` and none was named
    ParentRequired { kind: EventKind, required: EventKind },
    /// The kind takes no parent and one was named
    UnexpectedParent { kind: EventKind, parent_id: i64 },
    /// The named parent does not exist, or belongs to another item
    ParentNotFound { parent_id: i64 },
    /// The named parent is not of the kind that the candidate's kind requires
    InvalidParentKind { parent_id: i64, required: EventKind, found: EventKind },
    /// The store could not take the event
    StorageFailure,
}

impl Rejection {
    /// Whether the rejection is a verdict on the candidate, as opposed to a
    /// failure of the store.
    pub open spec fn spec_is_validation(self) -> bool {
        self != Rejection::StorageFailure
    }

    /// Whether the rejection is a verdict on the candidate: every rejection
    /// but `StorageFailure` is.
    #[verifier::when_used_as_spec(spec_is_validation)]
    pub fn is_validation(self) -> (b: bool)
        ensures
            b == self.spec_is_validation(),
    {
        match self {
            Rejection::StorageFailure => false,
            _ => true,
        }
    }

    /// Whether the same call may succeed when tried again: only a failure of
    /// the store is transient.
    pub fn is_retryable(self) -> (b: bool)
        ensures
            b == !self.spec_is_validation(),
    {
        !self.is_validation()
    }
}

/// The value behind an optional reference.
pub open spec fn owned<T>(r: Option<&T>) -> Option<T> {
    match r {
        Some(v) => Some(*v),
        None => None,
    }
}

/// The kind of an optional event.
pub open spec fn kind_of_event(e: Option<Event>) -> Option<EventKind> {
    match e {
        Some(ev) => Some(ev.kind()),
        None => None,
    }
}

/// The verdict on the parent reference of a candidate of kind `kind` for
/// `item_id`, where `parent` is the event that `parent_id` resolves to.
pub open spec fn parent_verdict(
    item_id: i64,
    kind: EventKind,
    parent_id: Option<i64>,
    parent: Option<Event>,
) -> Result<(), Rejection> {
    match (kind.spec_required_parent(), parent_id) {
        (Some(required), None) => Err(Rejection::ParentRequired { kind, required }),
        (None, Some(p)) => Err(Rejection::UnexpectedParent { kind, parent_id: p }),
        (None, None) => Ok(()),
        (Some(required), Some(p)) => match parent {
            None => Err(Rejection::ParentNotFound { parent_id: p }),
            Some(event) => if event.item_id != item_id {
                Err(Rejection::ParentNotFound { parent_id: p })
            } else if event.kind() != required {
                Err(Rejection::InvalidParentKind { parent_id: p, required, found: event.kind() })
            } else {
                Ok(())
            },
        },
    }
}

/// The verdict on a candidate of kind `kind` for `item_id` at `ts`, given what
/// the store holds: `parent`, the event that `parent_id` resolves to;
/// `existing`, an event of the item that already has this kind; `latest`, the
/// item's most recent event. The checks run in this order: parent reference,
/// once-only kinds, timestamp order, transition table. Every candidate goes
/// through all of them: a kind that takes a parent must fit the chain of its
/// item as well.
pub open spec fn verdict(
    item_id: i64,
    ts: Timestamp,
    kind: EventKind,
    parent_id: Option<i64>,
    parent: Option<Event>,
    existing: Option<Event>,
    latest: Option<Event>,
) -> Result<(), Rejection> {
    if parent_verdict(item_id, kind, parent_id, parent) is Err {
        parent_verdict(item_id, kind, parent_id, parent)
    } else if kind.spec_is_unique() && existing is Some {
        Err(Rejection::DuplicateUniqueEvent { kind, existing_id: existing->0.id })
    } else if latest is Some && !latest->0.ts.spec_precedes(ts) {
        Err(Rejection::OutOfOrderTimestamp { latest: latest->0.ts, attempted: ts })
    } else if !may_follow(kind_of_event(latest), kind) {
        Err(Rejection::IllegalTransition { from: kind_of_event(latest), to: kind })
    } else {
        Ok(())
    }
}

/// Decides whether a candidate event may be appended, from what the store
/// returned for it: `parent` is the event found under `parent_id` (`None` if
/// there is none), `existing` an event of the item that already has the
/// candidate's kind (consulted for once-only kinds), `latest` the item's most
/// recent event.
pub fn validate(
    item_id: i64,
    ts: Timestamp,
    data: &EventData,
    parent_id: Option<i64>,
    parent: Option<&Event>,
    existing: Option<&Event>,
    latest: Option<&Event>,
) -> (r: Result<(), Rejection>)
    ensures
        r == verdict(
            item_id,
            ts,
            data.spec_kind(),
            parent_id,
            owned(parent),
            owned(existing),
            owned(latest),
        ),
{
    let kind = data.kind();
    match (kind.required_parent(), parent_id) {
        (Some(required), None) => {
            return Err(Rejection::ParentRequired { kind, required });
        },
        (None, Some(p)) => {
            return Err(Rejection::UnexpectedParent { kind, parent_id: p });
        },
        (None, None) => {},
        (Some(required), Some(p)) => match parent {
            None => {
                return Err(Rejection::ParentNotFound { parent_id: p });
            },
            Some(event) => {
                if event.item_id != item_id {
                    return Err(Rejection::ParentNotFound { parent_id: p });
                }
                let found = event.data.kind();
                if found != required {
                    return Err(Rejection::InvalidParentKind { parent_id: p, required, found });
                }
            },
        },
    }
    if kind.is_unique() {
        if let Some(event) = existing {
            return Err(Rejection::DuplicateUniqueEvent { kind, existing_id: event.id });
        }
    }
    match latest {
        Some(event) => {
            if !event.ts.precedes(ts) {
                return Err(Rejection::OutOfOrderTimestamp { latest: event.ts, attempted: ts });
            }
            if !EventData::check_transition(Some(&event.data), data) {
                return Err(
                    Rejection::IllegalTransition { from: Some(event.data.kind()), to: kind },
                );
            }
        },
        None => {
            if !EventData::check_transition(None, data) {
                return Err(Rejection::IllegalTransition { from: None, to: kind });
            }
        },
    }
    Ok(())
}

} // verus!
