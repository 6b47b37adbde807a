//! What holds of every history that the writer produces.

use vstd::prelude::*;
use crate::event::{may_follow, EventKind};
use crate::history::{
    chains_valid, events_of, first_of_kind, ids_increasing, latest_of, lookup,
    parent_linked, parents_linked, timestamps_increasing, transitions_legal, unique_kinds_once,
    verdict_in, LedgerState, Request,
};
use crate::ledger::{Event, Rejection};

verus! {

/// `lookup` returns an event of the history that has the id asked for, and
/// returns nothing only where no event has it.
pub proof fn lemma_lookup(s: Seq<Event>, id: i64)
    ensures
        lookup(s, id) matches Some(e) ==> e.id == id && s.contains(e),
        lookup(s, id) is None ==> forall|i: int| 0 <= i < s.len() ==> (#[trigger] s[i]).id != id,
    decreases s.len(),
{
    if s.len() > 0 {
        let rest = s.drop_last();
        lemma_lookup(rest, id);
        if s.last().id != id && lookup(rest, id) is None {
            assert forall|i: int| 0 <= i < s.len() implies (#[trigger] s[i]).id != id by {
                if i < rest.len() {
                    assert(rest[i] == s[i]);
                }
            }
        }
    }
}

/// `first_of_kind` returns an event of the item and kind asked for, and
/// returns nothing only where the item has no event of that kind.
pub proof fn lemma_first_of_kind(s: Seq<Event>, item_id: i64, kind: EventKind)
    ensures
        first_of_kind(s, item_id, kind) matches Some(e) ==> e.item_id == item_id && e.kind()
            == kind && s.contains(e),
        first_of_kind(s, item_id, kind) is None ==> forall|i: int|
            0 <= i < s.len() ==> !((#[trigger] s[i]).item_id == item_id && s[i].kind() == kind),
    decreases s.len(),
{
    if s.len() > 0 {
        let rest = s.drop_last();
        lemma_first_of_kind(rest, item_id, kind);
        if first_of_kind(rest, item_id, kind) is None {
            assert forall|i: int| 0 <= i < s.len() - 1 implies !((#[trigger] s[i]).item_id
                == item_id && s[i].kind() == kind) by {
                assert(rest[i] == s[i]);
            }
        }
    }
}

/// `latest_of` returns an event of the item that no other event of the item
/// is later than, and returns nothing only where the item has no event.
pub proof fn lemma_latest_of(s: Seq<Event>, item_id: i64)
    ensures
        latest_of(s, item_id) matches Some(e) ==> {
            &&& e.item_id == item_id
            &&& s.contains(e)
            &&& forall|i: int|
                0 <= i < s.len() && (#[trigger] s[i]).item_id == item_id ==> !e.ts.spec_precedes(
                    s[i].ts,
                )
        },
        latest_of(s, item_id) is None ==> forall|i: int|
            0 <= i < s.len() ==> (#[trigger] s[i]).item_id != item_id,
    decreases s.len(),
{
    if s.len() > 0 {
        let rest = s.drop_last();
        lemma_latest_of(rest, item_id);
        assert forall|i: int| 0 <= i < s.len() - 1 implies rest[i] == #[trigger] s[i] by {}
    }
}

/// Committing an event adds it to the chain of its item and leaves the
/// chains of all other items as they were.
pub proof fn lemma_events_of_push(s: Seq<Event>, e: Event, item_id: i64)
    ensures
        events_of(s.push(e), item_id) == if e.item_id == item_id {
            events_of(s, item_id).push(e)
        } else {
            events_of(s, item_id)
        },
{
    assert(s.push(e).drop_last() == s);
}

/// The chain of an item holds events of that item, all taken from the
/// history.
pub proof fn lemma_events_of_members(s: Seq<Event>, item_id: i64)
    ensures
        forall|k: int|
            0 <= k < events_of(s, item_id).len() ==> (#[trigger] events_of(s, item_id)[k]).item_id
                == item_id && s.contains(events_of(s, item_id)[k]),
        forall|i: int|
            0 <= i < s.len() && (#[trigger] s[i]).item_id == item_id ==> events_of(
                s,
                item_id,
            ).contains(s[i]),
        events_of(s, item_id).len() <= s.len(),
    decreases s.len(),
{
    if s.len() > 0 {
        let rest = s.drop_last();
        let chain = events_of(s, item_id);
        let before = events_of(rest, item_id);
        lemma_events_of_members(rest, item_id);
        assert forall|k: int| 0 <= k < chain.len() implies (#[trigger] chain[k]).item_id
            == item_id && s.contains(chain[k]) by {}
        assert forall|i: int| 0 <= i < s.len() && (#[trigger] s[i]).item_id
            == item_id implies chain.contains(s[i]) by {
            if i < rest.len() {
                let k = choose|k: int| 0 <= k < before.len() && before[k] == rest[i];
                assert(chain[k] == s[i]);
            } else {
                assert(chain[chain.len() - 1] == s[i]);
            }
        }
    }
}

/// Where the timestamps of an item's chain grow strictly, the item's latest
/// event is the last of its chain.
pub proof fn lemma_latest_is_last(s: Seq<Event>, item_id: i64)
    requires
        timestamps_increasing(events_of(s, item_id)),
    ensures
        latest_of(s, item_id) == if events_of(s, item_id).len() == 0 {
            None
        } else {
            Some(events_of(s, item_id).last())
        },
    decreases s.len(),
{
    if s.len() > 0 {
        let rest = s.drop_last();
        let chain = events_of(s, item_id);
        let before = events_of(rest, item_id);
        assert forall|i: int, j: int|
            #![trigger before[i], before[j]]
            0 <= i < j < before.len() implies before[i].ts.spec_precedes(before[j].ts) by {
            assert(chain[i] == before[i]);
            assert(chain[j] == before[j]);
        }
        lemma_latest_is_last(rest, item_id);
        if s.last().item_id == item_id && before.len() > 0 {
            assert(chain[before.len() - 1] == before.last());
        }
    }
}

/// A history stays free of repeated once-only kinds when the event committed
/// last is of a kind that its item did not have yet, or of a kind that may
/// repeat.
pub proof fn lemma_push_keeps_unique(s: Seq<Event>, e: Event)
    requires
        unique_kinds_once(s),
        e.kind().spec_is_unique() ==> first_of_kind(s, e.item_id, e.kind()) is None,
    ensures
        unique_kinds_once(s.push(e)),
{
    let after = s.push(e);
    lemma_first_of_kind(s, e.item_id, e.kind());
    assert forall|i: int, j: int|
        #![trigger after[i], after[j]]
        0 <= i < j < after.len() && after[i].item_id == after[j].item_id && after[i].kind()
            == after[j].kind() implies !after[i].kind().spec_is_unique() by {}
}

/// A history stays linked when the event committed last has an id above all
/// others and is itself linked.
pub proof fn lemma_push_keeps_parents(s: Seq<Event>, e: Event)
    requires
        parents_linked(s),
        parent_linked(s, e),
        forall|i: int| 0 <= i < s.len() ==> (#[trigger] s[i]).id < e.id,
    ensures
        parents_linked(s.push(e)),
{
    let after = s.push(e);
    assert(after.drop_last() == s);
    assert forall|i: int| 0 <= i < after.len() implies parent_linked(after, #[trigger] after[i]) by {
        if let Some(p) = after[i].parent_id {
            lemma_lookup(s, p);
        }
    }
}

/// The chains of a history stay valid when the event committed last is
/// strictly later than the latest event of its item and may follow it.
pub proof fn lemma_push_keeps_chains(s: Seq<Event>, e: Event)
    requires
        chains_valid(s),
        latest_of(s, e.item_id) matches Some(latest) ==> latest.ts.spec_precedes(e.ts),
        may_follow(
            match latest_of(s, e.item_id) {
                Some(latest) => Some(latest.kind()),
                None => None,
            },
            e.kind(),
        ),
    ensures
        chains_valid(s.push(e)),
{
    let after = s.push(e);
    assert forall|item_id: i64|
        timestamps_increasing(#[trigger] events_of(after, item_id)) && transitions_legal(
            events_of(after, item_id),
        ) by {
        lemma_events_of_push(s, e, item_id);
        if item_id == e.item_id {
            lemma_latest_is_last(s, item_id);
            lemma_chain_push(events_of(s, item_id), e);
        }
    }
}

/// A chain stays valid when an event is put at its end that is strictly
/// later than its last event and may follow it.
pub proof fn lemma_chain_push(c: Seq<Event>, e: Event)
    requires
        timestamps_increasing(c),
        transitions_legal(c),
        c.len() > 0 ==> c.last().ts.spec_precedes(e.ts) && may_follow(
            Some(c.last().kind()),
            e.kind(),
        ),
        c.len() == 0 ==> may_follow(None, e.kind()),
    ensures
        timestamps_increasing(c.push(e)),
        transitions_legal(c.push(e)),
{
    let chain = c.push(e);
    assert forall|i: int, j: int|
        #![trigger chain[i], chain[j]]
        0 <= i < j < chain.len() implies chain[i].ts.spec_precedes(chain[j].ts) by {}
    assert forall|i: int, j: int|
        #![trigger chain[i], chain[j]]
        0 <= i && i + 1 == j && j < chain.len() implies may_follow(
        Some(chain[i].kind()),
        chain[j].kind(),
    ) by {}
}

/// Recording a request keeps a valid state valid.
pub proof fn lemma_record_preserves_validity(state: LedgerState, req: Request)
    requires
        state.valid(),
    ensures
        state.record(req).valid(),
{
    if let Ok(event) = state.outcome(req) {
        lemma_push_keeps_unique(state.events, event);
        lemma_push_keeps_parents(state.events, event);
        lemma_push_keeps_chains(state.events, event);
    }
}

/// A ledger that holds nothing is valid, whatever id it starts after.
pub proof fn lemma_empty_is_valid(last_id: i64)
    ensures
        LedgerState::starting_after(last_id).valid(),
{
    let s = LedgerState::starting_after(last_id).events;
    assert forall|item_id: i64|
        timestamps_increasing(#[trigger] events_of(s, item_id)) && transitions_legal(
            events_of(s, item_id),
        ) by {}
}

/// Whatever requests are recorded one after the other, in whatever order
/// they arrive, a valid ledger stays valid: no item holds a once-only kind
/// twice, every event is linked to its parent as its kind demands, and the
/// chain of every item has strictly growing timestamps and follows the
/// transition table.
pub proof fn lemma_replay_preserves_validity(start: LedgerState, reqs: Seq<Request>)
    requires
        start.valid(),
    ensures
        start.replay(reqs).valid(),
    decreases reqs.len(),
{
    if reqs.len() > 0 {
        lemma_replay_preserves_validity(start, reqs.drop_last());
        lemma_record_preserves_validity(start.replay(reqs.drop_last()), reqs.last());
    }
}

/// No duplicate of a once-only kind: after any sequence of requests, two
/// distinct committed events of one item never share a once-only kind.
pub proof fn law_once_only_kinds(start: LedgerState, reqs: Seq<Request>, i: int, j: int)
    requires
        start.valid(),
        0 <= i < start.replay(reqs).events.len(),
        0 <= j < start.replay(reqs).events.len(),
        i != j,
        start.replay(reqs).events[i].item_id == start.replay(reqs).events[j].item_id,
        start.replay(reqs).events[i].kind().spec_is_unique(),
    ensures
        start.replay(reqs).events[i].kind() != start.replay(reqs).events[j].kind(),
{
    lemma_replay_preserves_validity(start, reqs);
}

/// Ids grow along the chain of an item, as they do along the history.
pub proof fn lemma_chain_ids_increasing(s: Seq<Event>, item_id: i64)
    requires
        ids_increasing(s),
    ensures
        ids_increasing(events_of(s, item_id)),
    decreases s.len(),
{
    if s.len() > 0 {
        let rest = s.drop_last();
        let chain = events_of(s, item_id);
        assert forall|i: int, j: int|
            #![trigger rest[i], rest[j]]
            0 <= i < j < rest.len() implies rest[i].id < rest[j].id by {}
        lemma_chain_ids_increasing(rest, item_id);
        lemma_events_of_members(rest, item_id);
        assert forall|i: int, j: int|
            #![trigger chain[i], chain[j]]
            0 <= i < j < chain.len() implies chain[i].id < chain[j].id by {}
    }
}

/// Monotonic timestamps: after any sequence of requests, the events of an
/// item taken in the order of their ids have strictly growing timestamps.
pub proof fn law_monotonic_timestamps(
    start: LedgerState,
    reqs: Seq<Request>,
    item_id: i64,
    i: int,
    j: int,
)
    requires
        start.valid(),
        0 <= i < j < events_of(start.replay(reqs).events, item_id).len(),
    ensures
        events_of(start.replay(reqs).events, item_id)[i].id < events_of(
            start.replay(reqs).events,
            item_id,
        )[j].id,
        events_of(start.replay(reqs).events, item_id)[i].ts.spec_precedes(
            events_of(start.replay(reqs).events, item_id)[j].ts,
        ),
{
    lemma_replay_preserves_validity(start, reqs);
    lemma_chain_ids_increasing(start.replay(reqs).events, item_id);
}

/// Legal chain: after any sequence of requests, the first event of an item
/// is of a kind that may open a history, and of two events of an item that
/// are neighbours in the order of their timestamps the later may directly
/// follow the earlier.
pub proof fn law_legal_chain(start: LedgerState, reqs: Seq<Request>, item_id: i64, i: int)
    requires
        start.valid(),
        0 <= i < events_of(start.replay(reqs).events, item_id).len(),
    ensures
        i == 0 ==> may_follow(None, events_of(start.replay(reqs).events, item_id)[0].kind()),
        i > 0 ==> may_follow(
            Some(events_of(start.replay(reqs).events, item_id)[i - 1].kind()),
            events_of(start.replay(reqs).events, item_id)[i].kind(),
        ),
{
    lemma_replay_preserves_validity(start, reqs);
}

/// Parent integrity: after any sequence of requests, every committed return
/// names as its parent a borrowing of the same item, and an event of any
/// other kind names no parent.
pub proof fn law_parent_integrity(start: LedgerState, reqs: Seq<Request>, i: int)
    requires
        start.valid(),
        0 <= i < start.replay(reqs).events.len(),
    ensures
        start.replay(reqs).events[i].kind() == EventKind::Returned ==> {
            &&& start.replay(reqs).events[i].parent_id matches Some(p)
            &&& lookup(start.replay(reqs).events, p) matches Some(parent)
            &&& parent.id == p
            &&& parent.kind() == EventKind::Borrowed
            &&& parent.item_id == start.replay(reqs).events[i].item_id
        },
        start.replay(reqs).events[i].kind() != EventKind::Returned ==> start.replay(
            reqs,
        ).events[i].parent_id is None,
{
    lemma_replay_preserves_validity(start, reqs);
    let s = start.replay(reqs).events;
    if let Some(p) = s[i].parent_id {
        lemma_lookup(s, p);
    }
}

/// Append-only, one request: recording a request changes or removes no
/// committed event. The history after it is the history before it, with at
/// most one event more at its end; a rejected request leaves the ledger as it
/// was; and the chain of every item but the request's own is what it was.
pub proof fn law_append_only(state: LedgerState, req: Request, item_id: i64)
    ensures
        state.events.is_prefix_of(state.record(req).events),
        state.record(req).events.len() <= state.events.len() + 1,
        state.outcome(req) is Err ==> state.record(req) == state,
        state.outcome(req) matches Ok(event) ==> state.record(req).events == state.events.push(
            event,
        ),
        item_id != req.item_id || state.outcome(req) is Err ==> events_of(
            state.record(req).events,
            item_id,
        ) == events_of(state.events, item_id),
{
    if let Ok(event) = state.outcome(req) {
        lemma_events_of_push(state.events, event, item_id);
    }
}

/// Append-only, any sequence of requests: the history before is a prefix of
/// the history after.
pub proof fn law_replay_append_only(start: LedgerState, reqs: Seq<Request>)
    ensures
        start.events.is_prefix_of(start.replay(reqs).events),
    decreases reqs.len(),
{
    if reqs.len() > 0 {
        law_replay_append_only(start, reqs.drop_last());
        law_append_only(start.replay(reqs.drop_last()), reqs.last(), 0);
    }
}

/// A rejection repeats: a rejected request leaves the ledger as it was, so
/// the same request is rejected again in the same way.
pub proof fn law_rejection_repeats(state: LedgerState, req: Request)
    requires
        state.outcome(req) is Err,
    ensures
        state.record(req) == state,
        state.record(req).outcome(req) == state.outcome(req),
{
}

/// The terminal kinds are those that nothing may follow.
pub proof fn law_terminal_kinds(kind: EventKind)
    ensures
        kind.spec_is_terminal() <==> forall|to: EventKind| !may_follow(Some(kind), to),
{
    if !kind.spec_is_terminal() {
        assert(may_follow(Some(kind), EventKind::Lost));
    }
}

/// An item whose latest event is of a terminal kind takes no further event:
/// every request for it is rejected by the validation, and as an illegal
/// transition wherever it names its parent as its kind demands, does not
/// repeat a once-only kind and is later than the latest event.
pub proof fn law_terminal_item_rejects(state: LedgerState, req: Request)
    requires
        latest_of(state.events, req.item_id) matches Some(latest) && latest.kind().spec_is_terminal(),
    ensures
        state.outcome(req) matches Err(rejection) && rejection.spec_is_validation(),
        state.record(req) == state,
        ({
            let kind = req.data.spec_kind();
            let latest = latest_of(state.events, req.item_id)->0;
            let parent = match req.parent_id {
                Some(p) => lookup(state.events, p),
                None => None,
            };
            &&& crate::ledger::parent_verdict(req.item_id, kind, req.parent_id, parent) is Ok
            &&& !(kind.spec_is_unique() && first_of_kind(state.events, req.item_id, kind) is Some)
            &&& latest.ts.spec_precedes(req.ts)
        }) ==> state.outcome(req) == Err::<Event, Rejection>(
            Rejection::IllegalTransition {
                from: Some(latest_of(state.events, req.item_id)->0.kind()),
                to: req.data.spec_kind(),
            },
        ),
{
}

/// Items are independent: an event committed for one item changes the
/// verdict on no candidate for another item, unless that candidate names the
/// new event as its parent.
pub proof fn law_items_independent(
    s: Seq<Event>,
    e: Event,
    item_id: i64,
    ts: crate::time::Timestamp,
    kind: EventKind,
    parent_id: Option<i64>,
)
    requires
        e.item_id != item_id,
        parent_id != Some(e.id),
    ensures
        verdict_in(s.push(e), item_id, ts, kind, parent_id) == verdict_in(
            s,
            item_id,
            ts,
            kind,
            parent_id,
        ),
{
    assert(s.push(e).drop_last() == s);
}

} // verus!
