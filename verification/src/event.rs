//! Event kinds, their payloads, and the table of legal successions.

use vstd::prelude::*;

verus! {

/// Verdict of an inspection.
#[derive(Clone, Copy, Debug, PartialEq, Eq, Structural, Hash)]
pub enum InspectionResult {
    /// Item is new or in very good condition
    Good,
    /// Item shows signs of normal use
    NormalWear,
    /// Item seems close to end of life
    Warning,
    /// Item must be retired
    Danger,
}

/// The kind of a lifecycle event, without its payload.
#[derive(Clone, Copy, Debug, PartialEq, Eq, Structural, Hash)]
pub enum EventKind {
    Manufactured,
    PutIntoService,
    Inspected,
    Borrowed,
    Returned,
    Retired,
    Lost,
}

/// A lifecycle fact about an item, with the payload of its kind.
#[derive(Debug, PartialEq, Eq)]
pub enum EventData {
    /// Event indicating when the item was produced
    Manufactured {},
    /// Event when someone puts the item in service
    PutIntoService {},
    /// Event when someone inspects the item
    Inspected {
        /// Name of the person who inspected the item
        inspector: String,
        /// Result of the inspection
        result: InspectionResult,
        /// Optional comment of the inspector
        comment: Option<String>,
    },
    /// Event logged when someone borrows an item
    Borrowed {
        /// Person who borrowed the item
        borrower: String,
        /// Person who validated the borrow
        validator: String,
    },
    /// Event logged when an item is returned after a borrow
    Returned {
        /// Person who validated the return
        validator: String,
    },
    /// Event logged when the item is retired
    Retired {},
    /// Event logged when the item is lost
    Lost {},
}

/// The transition table: whether an event of kind `to` may directly follow an
/// item's most recent event of kind `from` (`None`: the item has no event yet).
pub open spec fn may_follow(from: Option<EventKind>, to: EventKind) -> bool {
    match from {
        None => to == EventKind::Manufactured,
        Some(EventKind::Manufactured) => {
            to == EventKind::PutIntoService || to == EventKind::Retired || to == EventKind::Lost
        },
        Some(EventKind::PutIntoService) | Some(EventKind::Inspected) | Some(EventKind::Returned) => {
            to == EventKind::Inspected || to == EventKind::Borrowed || to == EventKind::Retired
                || to == EventKind::Lost
        },
        Some(EventKind::Borrowed) => to == EventKind::Returned || to == EventKind::Lost,
        Some(EventKind::Retired) | Some(EventKind::Lost) => false,
    }
}

/// The kind of an optional event payload.
pub open spec fn kind_of(data: Option<&EventData>) -> Option<EventKind> {
    match data {
        Some(d) => Some(d.spec_kind()),
        None => None,
    }
}

impl EventKind {
    /// Kinds of which an item holds at most one event.
    pub open spec fn spec_is_unique(self) -> bool {
        self == EventKind::Manufactured || self == EventKind::PutIntoService
            || self == EventKind::Retired || self == EventKind::Lost
    }

    /// The kind that the parent of an event of this kind must have, if the
    /// kind takes a parent at all.
    pub open spec fn spec_required_parent(self) -> Option<EventKind> {
        if self == EventKind::Returned {
            Some(EventKind::Borrowed)
        } else {
            None
        }
    }

    /// Kinds after which nothing may follow.
    pub open spec fn spec_is_terminal(self) -> bool {
        self == EventKind::Retired || self == EventKind::Lost
    }

    /// The stable number of the kind.
    pub open spec fn spec_discriminant(self) -> u8 {
        match self {
            EventKind::Manufactured => 0,
            EventKind::PutIntoService => 1,
            EventKind::Inspected => 2,
            EventKind::Borrowed => 3,
            EventKind::Returned => 4,
            EventKind::Retired => 5,
            EventKind::Lost => 6,
        }
    }

    /// The stable tag under which the kind is persisted.
    pub open spec fn spec_name(self) -> Seq<char> {
        match self {
            EventKind::Manufactured => "Manufactured"@,
            EventKind::PutIntoService => "PutIntoService"@,
            EventKind::Inspected => "Inspected"@,
            EventKind::Borrowed => "Borrowed"@,
            EventKind::Returned => "Returned"@,
            EventKind::Retired => "Retired"@,
            EventKind::Lost => "Lost"@,
        }
    }

    /// Whether an item holds at most one event of this kind.
    #[verifier::when_used_as_spec(spec_is_unique)]
    pub fn is_unique(self) -> (b: bool)
        ensures
            b == self.spec_is_unique(),
    {
        match self {
            EventKind::Manufactured | EventKind::PutIntoService | EventKind::Retired
            | EventKind::Lost => true,
            EventKind::Inspected | EventKind::Borrowed | EventKind::Returned => false,
        }
    }

    /// The kind that the parent of an event of this kind must have; `None`
    /// where events of this kind take no parent.
    #[verifier::when_used_as_spec(spec_required_parent)]
    pub fn required_parent(self) -> (p: Option<EventKind>)
        ensures
            p == self.spec_required_parent(),
    {
        match self {
            EventKind::Returned => Some(EventKind::Borrowed),
            _ => None,
        }
    }

    /// Whether nothing may follow an event of this kind.
    #[verifier::when_used_as_spec(spec_is_terminal)]
    pub fn is_terminal(self) -> (b: bool)
        ensures
            b == self.spec_is_terminal(),
    {
        match self {
            EventKind::Retired | EventKind::Lost => true,
            _ => false,
        }
    }

    /// The stable number of the kind, from 0 for `Manufactured` to 6 for
    /// `Lost`.
    #[verifier::when_used_as_spec(spec_discriminant)]
    pub fn discriminant(self) -> (d: u8)
        ensures
            d == self.spec_discriminant(),
    {
        match self {
            EventKind::Manufactured => 0,
            EventKind::PutIntoService => 1,
            EventKind::Inspected => 2,
            EventKind::Borrowed => 3,
            EventKind::Returned => 4,
            EventKind::Retired => 5,
            EventKind::Lost => 6,
        }
    }

    /// The kind with the given number, if there is one.
    pub fn from_discriminant(d: u8) -> (k: Option<EventKind>)
        ensures
            d <= 6 <==> k is Some,
            k matches Some(kind) ==> kind.spec_discriminant() == d,
    {
        match d {
            0 => Some(EventKind::Manufactured),
            1 => Some(EventKind::PutIntoService),
            2 => Some(EventKind::Inspected),
            3 => Some(EventKind::Borrowed),
            4 => Some(EventKind::Returned),
            5 => Some(EventKind::Retired),
            6 => Some(EventKind::Lost),
            _ => None,
        }
    }

    /// The stable tag under which the kind is persisted: the name of the
    /// variant.
    pub fn name(self) -> (s: &'static str)
        ensures
            s@ == self.spec_name(),
    {
        match self {
            EventKind::Manufactured => "Manufactured",
            EventKind::PutIntoService => "PutIntoService",
            EventKind::Inspected => "Inspected",
            EventKind::Borrowed => "Borrowed",
            EventKind::Returned => "Returned",
            EventKind::Retired => "Retired",
            EventKind::Lost => "Lost",
        }
    }
}

/// The set of kinds that may follow an item's most recent event, one flag per
/// kind.
#[derive(Clone, Copy, Debug, PartialEq, Eq, Structural)]
pub struct Transition {
    pub manufactured: bool,
    pub put_into_service: bool,
    pub inspected: bool,
    pub borrowed: bool,
    pub returned: bool,
    pub retired: bool,
    pub lost: bool,
}

impl Transition {
    /// The row of the transition table for the state `from`.
    pub open spec fn after(from: Option<EventKind>) -> Transition {
        Transition {
            manufactured: may_follow(from, EventKind::Manufactured),
            put_into_service: may_follow(from, EventKind::PutIntoService),
            inspected: may_follow(from, EventKind::Inspected),
            borrowed: may_follow(from, EventKind::Borrowed),
            returned: may_follow(from, EventKind::Returned),
            retired: may_follow(from, EventKind::Retired),
            lost: may_follow(from, EventKind::Lost),
        }
    }

    /// Whether the set holds `kind`.
    pub open spec fn allows(&self, kind: EventKind) -> bool {
        match kind {
            EventKind::Manufactured => self.manufactured,
            EventKind::PutIntoService => self.put_into_service,
            EventKind::Inspected => self.inspected,
            EventKind::Borrowed => self.borrowed,
            EventKind::Returned => self.returned,
            EventKind::Retired => self.retired,
            EventKind::Lost => self.lost,
        }
    }

    /// Whether the set holds the kind of `event`.
    pub fn get_value(&self, event: &EventData) -> (b: bool)
        ensures
            b == self.allows(event.spec_kind()),
    {
        match event {
            EventData::Manufactured {  } => self.manufactured,
            EventData::PutIntoService {  } => self.put_into_service,
            EventData::Inspected { .. } => self.inspected,
            EventData::Borrowed { .. } => self.borrowed,
            EventData::Returned { .. } => self.returned,
            EventData::Retired {  } => self.retired,
            EventData::Lost {  } => self.lost,
        }
    }
}

impl Default for Transition {
    /// The empty set: nothing may follow.
    fn default() -> (t: Transition)
        ensures
            t == (Transition {
                manufactured: false,
                put_into_service: false,
                inspected: false,
                borrowed: false,
                returned: false,
                retired: false,
                lost: false,
            }),
            forall|kind: EventKind| !t.allows(kind),
    {
        Transition {
            manufactured: false,
            put_into_service: false,
            inspected: false,
            borrowed: false,
            returned: false,
            retired: false,
            lost: false,
        }
    }
}

impl EventData {
    /// The kind of the event.
    pub open spec fn spec_kind(&self) -> EventKind {
        match self {
            EventData::Manufactured {  } => EventKind::Manufactured,
            EventData::PutIntoService {  } => EventKind::PutIntoService,
            EventData::Inspected { .. } => EventKind::Inspected,
            EventData::Borrowed { .. } => EventKind::Borrowed,
            EventData::Returned { .. } => EventKind::Returned,
            EventData::Retired {  } => EventKind::Retired,
            EventData::Lost {  } => EventKind::Lost,
        }
    }

    /// The kind of the event.
    #[verifier::when_used_as_spec(spec_kind)]
    pub fn kind(&self) -> (k: EventKind)
        ensures
            k == self.spec_kind(),
    {
        match self {
            EventData::Manufactured {  } => EventKind::Manufactured,
            EventData::PutIntoService {  } => EventKind::PutIntoService,
            EventData::Inspected { .. } => EventKind::Inspected,
            EventData::Borrowed { .. } => EventKind::Borrowed,
            EventData::Returned { .. } => EventKind::Returned,
            EventData::Retired {  } => EventKind::Retired,
            EventData::Lost {  } => EventKind::Lost,
        }
    }

    /// The kinds that may follow `last_event`, the item's most recent event
    /// (`None`: the item has no event yet).
    pub fn get_transition(last_event: Option<&Self>) -> (t: Transition)
        ensures
            t == Transition::after(kind_of(last_event)),
            forall|kind: EventKind| t.allows(kind) == may_follow(kind_of(last_event), kind),
    {
        match last_event {
            None => Transition {
                manufactured: true,
                put_into_service: false,
                inspected: false,
                borrowed: false,
                returned: false,
                retired: false,
                lost: false,
            },
            Some(EventData::Manufactured {  }) => Transition {
                manufactured: false,
                put_into_service: true,
                inspected: false,
                borrowed: false,
                returned: false,
                retired: true,
                lost: true,
            },
            Some(EventData::PutIntoService {  })
            | Some(EventData::Inspected { .. })
            | Some(EventData::Returned { .. }) => Transition {
                manufactured: false,
                put_into_service: false,
                inspected: true,
                borrowed: true,
                returned: false,
                retired: true,
                lost: true,
            },
            Some(EventData::Borrowed { .. }) => Transition {
                manufactured: false,
                put_into_service: false,
                inspected: false,
                borrowed: false,
                returned: true,
                retired: false,
                lost: true,
            },
            Some(EventData::Retired {  }) | Some(EventData::Lost {  }) => Transition::default(),
        }
    }

    /// Whether `next_event` may directly follow `last_event`.
    pub fn check_transition(last_event: Option<&Self>, next_event: &Self) -> (b: bool)
        ensures
            b == may_follow(kind_of(last_event), next_event.spec_kind()),
    {
        Self::get_transition(last_event).get_value(next_event)
    }
}

impl Clone for EventData {
    fn clone(&self) -> (copy: Self)
        ensures
            copy == *self,
    {
        match self {
            EventData::Manufactured {  } => EventData::Manufactured {  },
            EventData::PutIntoService {  } => EventData::PutIntoService {  },
            EventData::Inspected { inspector, result, comment } => {
                let comment = match comment {
                    Some(text) => Some(text.clone()),
                    None => None,
                };
                EventData::Inspected { inspector: inspector.clone(), result: *result, comment }
            },
            EventData::Borrowed { borrower, validator } => EventData::Borrowed {
                borrower: borrower.clone(),
                validator: validator.clone(),
            },
            EventData::Returned { validator } => EventData::Returned {
                validator: validator.clone(),
            },
            EventData::Retired {  } => EventData::Retired {  },
            EventData::Lost {  } => EventData::Lost {  },
        }
    }
}

} // verus!
