use gear_ledger::event::{EventData, EventKind, InspectionResult};
use gear_ledger::ledger::{validate, Event, Rejection};
use gear_ledger::store::Ledger;
use gear_ledger::time::Timestamp;

const ITEM: i64 = 7;
const OTHER: i64 = 8;

fn at(secs: i64) -> Timestamp {
    Timestamp::from_secs(secs)
}

fn inspected() -> EventData {
    EventData::Inspected {
        inspector: "Hugo".to_string(),
        result: InspectionResult::Good,
        comment: Some("Nice gear".to_string()),
    }
}

fn borrowed() -> EventData {
    EventData::Borrowed { borrower: "A".to_string(), validator: "B".to_string() }
}

fn returned() -> EventData {
    EventData::Returned { validator: "B".to_string() }
}

/// A ledger in which `ITEM` was manufactured at 10 and put into service at 20.
fn in_service() -> Ledger {
    let mut ledger = Ledger::new();
    ledger.record(ITEM, at(10), EventData::Manufactured {}, None).unwrap();
    ledger.record(ITEM, at(20), EventData::PutIntoService {}, None).unwrap();
    ledger
}

#[test]
fn first_manufacture_then_backdated_entry_into_service() {
    let mut ledger = Ledger::new();
    let first = ledger.record(ITEM, at(100), EventData::Manufactured {}, None);
    assert_eq!(
        first,
        Ok(Event {
            id: 1,
            item_id: ITEM,
            parent_id: None,
            ts: at(100),
            data: EventData::Manufactured {},
        })
    );
    let backdated = ledger.record(ITEM, at(50), EventData::PutIntoService {}, None);
    assert_eq!(
        backdated,
        Err(Rejection::OutOfOrderTimestamp { latest: at(100), attempted: at(50) })
    );
    assert_eq!(ledger.len(), 1);
}

#[test]
fn second_manufacture_is_a_duplicate() {
    let mut ledger = Ledger::new();
    ledger.record(ITEM, at(1), EventData::Manufactured {}, None).unwrap();
    let second = ledger.record(ITEM, at(2), EventData::PutIntoService {}, None).unwrap();
    assert_eq!(second.id, 2);
    assert_eq!(second.data, EventData::PutIntoService {});
    let again = ledger.record(ITEM, at(3), EventData::Manufactured {}, None);
    assert_eq!(
        again,
        Err(Rejection::DuplicateUniqueEvent { kind: EventKind::Manufactured, existing_id: 1 })
    );
    assert_eq!(ledger.len(), 2);
}

#[test]
fn return_needs_a_borrowing_as_parent() {
    let mut ledger = in_service();
    let inspection = ledger.record(ITEM, at(30), inspected(), None).unwrap();
    let e1 = ledger.record(ITEM, at(40), borrowed(), None).unwrap();
    assert_eq!(e1.data, borrowed());

    let wrong = ledger.record(ITEM, at(41), returned(), Some(inspection.id));
    assert_eq!(
        wrong,
        Err(Rejection::InvalidParentKind {
            parent_id: inspection.id,
            required: EventKind::Borrowed,
            found: EventKind::Inspected,
        })
    );

    let back = ledger.record(ITEM, at(41), returned(), Some(e1.id)).unwrap();
    assert_eq!(back.parent_id, Some(e1.id));
    assert_eq!(back.data, returned());
    assert_eq!(back.ts, at(41));

    let wrong_again = ledger.record(ITEM, at(41), returned(), Some(inspection.id));
    assert_eq!(
        wrong_again,
        Err(Rejection::InvalidParentKind {
            parent_id: inspection.id,
            required: EventKind::Borrowed,
            found: EventKind::Inspected,
        })
    );
}

#[test]
fn of_two_manufactures_exactly_one_commits() {
    // Whichever of two racing writers the ledger serves first wins.
    for (first, second) in [(at(5), at(6)), (at(6), at(5))] {
        let mut ledger = Ledger::new();
        let a = ledger.record(ITEM, first, EventData::Manufactured {}, None);
        let b = ledger.record(ITEM, second, EventData::Manufactured {}, None);
        assert!(a.is_ok());
        assert_eq!(
            b,
            Err(Rejection::DuplicateUniqueEvent { kind: EventKind::Manufactured, existing_id: 1 })
        );
        assert_eq!(ledger.all(ITEM).len(), 1);
    }
}

#[test]
fn retired_item_takes_nothing_more() {
    let mut ledger = in_service();
    ledger.record(ITEM, at(30), EventData::Retired {}, None).unwrap();
    for data in [inspected(), borrowed(), EventData::Lost {}] {
        let kind = data.kind();
        assert_eq!(
            ledger.record(ITEM, at(40), data, None),
            Err(Rejection::IllegalTransition { from: Some(EventKind::Retired), to: kind })
        );
    }
    assert_eq!(ledger.len(), 3);
}

#[test]
fn retired_item_rejects_every_kind() {
    let kinds = [
        (EventData::Manufactured {}, None),
        (EventData::PutIntoService {}, None),
        (inspected(), None),
        (borrowed(), None),
        (returned(), None),
        (returned(), Some(2)),
        (EventData::Retired {}, None),
        (EventData::Lost {}, None),
    ];
    for (data, parent) in kinds {
        let mut ledger = in_service();
        ledger.record(ITEM, at(30), EventData::Retired {}, None).unwrap();
        let result = ledger.record(ITEM, at(40), data, parent);
        assert!(matches!(result, Err(r) if r.is_validation()));
        assert_eq!(ledger.len(), 3);
    }
}

#[test]
fn lost_item_takes_nothing_more() {
    let mut ledger = Ledger::new();
    ledger.record(ITEM, at(1), EventData::Manufactured {}, None).unwrap();
    ledger.record(ITEM, at(2), EventData::Lost {}, None).unwrap();
    assert_eq!(
        ledger.record(ITEM, at(3), EventData::PutIntoService {}, None),
        Err(Rejection::IllegalTransition {
            from: Some(EventKind::Lost),
            to: EventKind::PutIntoService
        })
    );
}

#[test]
fn empty_history_takes_only_a_manufacture() {
    let mut ledger = Ledger::new();
    assert_eq!(
        ledger.record(ITEM, at(1), borrowed(), None),
        Err(Rejection::IllegalTransition { from: None, to: EventKind::Borrowed })
    );
    assert_eq!(
        ledger.record(ITEM, at(1), EventData::PutIntoService {}, None),
        Err(Rejection::IllegalTransition { from: None, to: EventKind::PutIntoService })
    );
    assert_eq!(ledger.len(), 0);
    assert!(ledger.record(ITEM, at(1), EventData::Manufactured {}, None).is_ok());
}

#[test]
fn equal_timestamp_is_out_of_order() {
    let mut ledger = in_service();
    assert_eq!(
        ledger.record(ITEM, at(20), inspected(), None),
        Err(Rejection::OutOfOrderTimestamp { latest: at(20), attempted: at(20) })
    );
}

#[test]
fn nanoseconds_decide_within_a_second() {
    let mut ledger = Ledger::new();
    ledger.record(ITEM, Timestamp::new(5, 100), EventData::Manufactured {}, None).unwrap();
    assert_eq!(
        ledger.record(ITEM, Timestamp::new(5, 100), EventData::PutIntoService {}, None),
        Err(Rejection::OutOfOrderTimestamp {
            latest: Timestamp::new(5, 100),
            attempted: Timestamp::new(5, 100)
        })
    );
    assert_eq!(
        ledger.record(ITEM, Timestamp::new(5, 99), EventData::PutIntoService {}, None),
        Err(Rejection::OutOfOrderTimestamp {
            latest: Timestamp::new(5, 100),
            attempted: Timestamp::new(5, 99)
        })
    );
    assert!(ledger.record(ITEM, Timestamp::new(5, 101), EventData::PutIntoService {}, None).is_ok());
}

#[test]
fn return_without_parent_is_rejected() {
    let mut ledger = in_service();
    ledger.record(ITEM, at(30), borrowed(), None).unwrap();
    assert_eq!(
        ledger.record(ITEM, at(40), returned(), None),
        Err(Rejection::ParentRequired {
            kind: EventKind::Returned,
            required: EventKind::Borrowed
        })
    );
}

#[test]
fn parent_on_a_kind_that_takes_none_is_rejected() {
    let mut ledger = in_service();
    assert_eq!(
        ledger.record(ITEM, at(30), inspected(), Some(1)),
        Err(Rejection::UnexpectedParent { kind: EventKind::Inspected, parent_id: 1 })
    );
    assert_eq!(
        ledger.record(ITEM, at(30), borrowed(), Some(99)),
        Err(Rejection::UnexpectedParent { kind: EventKind::Borrowed, parent_id: 99 })
    );
}

#[test]
fn unknown_parent_is_not_found() {
    let mut ledger = in_service();
    ledger.record(ITEM, at(30), borrowed(), None).unwrap();
    assert_eq!(
        ledger.record(ITEM, at(40), returned(), Some(99)),
        Err(Rejection::ParentNotFound { parent_id: 99 })
    );
}

#[test]
fn parent_of_another_item_is_not_found() {
    let mut ledger = in_service();
    ledger.record(OTHER, at(1), EventData::Manufactured {}, None).unwrap();
    ledger.record(OTHER, at(2), EventData::PutIntoService {}, None).unwrap();
    let foreign = ledger.record(OTHER, at(3), borrowed(), None).unwrap();
    ledger.record(ITEM, at(30), borrowed(), None).unwrap();
    assert_eq!(
        ledger.record(ITEM, at(40), returned(), Some(foreign.id)),
        Err(Rejection::ParentNotFound { parent_id: foreign.id })
    );
}

#[test]
fn parent_check_comes_before_the_timestamp_check() {
    let mut ledger = in_service();
    ledger.record(ITEM, at(30), borrowed(), None).unwrap();
    assert_eq!(
        ledger.record(ITEM, at(5), returned(), None),
        Err(Rejection::ParentRequired {
            kind: EventKind::Returned,
            required: EventKind::Borrowed
        })
    );
}

#[test]
fn duplicate_check_comes_before_the_timestamp_check() {
    let mut ledger = in_service();
    assert_eq!(
        ledger.record(ITEM, at(5), EventData::PutIntoService {}, None),
        Err(Rejection::DuplicateUniqueEvent { kind: EventKind::PutIntoService, existing_id: 2 })
    );
}

#[test]
fn timestamp_check_comes_before_the_transition_check() {
    let mut ledger = in_service();
    ledger.record(ITEM, at(30), borrowed(), None).unwrap();
    assert_eq!(
        ledger.record(ITEM, at(25), inspected(), None),
        Err(Rejection::OutOfOrderTimestamp { latest: at(30), attempted: at(25) })
    );
    assert_eq!(
        ledger.record(ITEM, at(35), inspected(), None),
        Err(Rejection::IllegalTransition {
            from: Some(EventKind::Borrowed),
            to: EventKind::Inspected
        })
    );
}

#[test]
fn return_must_follow_a_borrowing_in_the_chain_too() {
    let mut ledger = in_service();
    let loan = ledger.record(ITEM, at(30), borrowed(), None).unwrap();
    ledger.record(ITEM, at(40), returned(), Some(loan.id)).unwrap();
    // The parent is a borrowing of the item, but the item is no longer out.
    assert_eq!(
        ledger.record(ITEM, at(50), returned(), Some(loan.id)),
        Err(Rejection::IllegalTransition {
            from: Some(EventKind::Returned),
            to: EventKind::Returned
        })
    );
}

#[test]
fn storage_failure_when_the_ids_run_out() {
    let mut ledger = Ledger::starting_after(i64::MAX);
    let result = ledger.record(ITEM, at(1), EventData::Manufactured {}, None);
    assert_eq!(result, Err(Rejection::StorageFailure));
    assert!(Rejection::StorageFailure.is_retryable());
    assert!(!Rejection::StorageFailure.is_validation());
    assert_eq!(ledger.len(), 0);
}

#[test]
fn validation_comes_before_storage_failure() {
    let mut ledger = Ledger::starting_after(i64::MAX);
    assert_eq!(
        ledger.record(ITEM, at(1), EventData::Retired {}, None),
        Err(Rejection::IllegalTransition { from: None, to: EventKind::Retired })
    );
}

#[test]
fn last_id_is_still_handed_out() {
    let mut ledger = Ledger::starting_after(i64::MAX - 1);
    let first = ledger.record(ITEM, at(1), EventData::Manufactured {}, None).unwrap();
    assert_eq!(first.id, i64::MAX);
    assert_eq!(
        ledger.record(ITEM, at(2), EventData::PutIntoService {}, None),
        Err(Rejection::StorageFailure)
    );
    assert_eq!(ledger.len(), 1);
}

#[test]
fn ids_follow_the_starting_point() {
    let mut ledger = Ledger::starting_after(41);
    let first = ledger.record(ITEM, at(1), EventData::Manufactured {}, None).unwrap();
    let second = ledger.record(OTHER, at(1), EventData::Manufactured {}, None).unwrap();
    assert_eq!(first.id, 42);
    assert_eq!(second.id, 43);
}

#[test]
fn rejected_request_does_not_use_up_an_id() {
    let mut ledger = Ledger::new();
    ledger.record(ITEM, at(1), EventData::Manufactured {}, None).unwrap();
    assert!(ledger.record(ITEM, at(2), borrowed(), None).is_err());
    let next = ledger.record(ITEM, at(2), EventData::PutIntoService {}, None).unwrap();
    assert_eq!(next.id, 2);
}

#[test]
fn validation_rejections_are_not_retryable() {
    let rejections = [
        Rejection::IllegalTransition { from: None, to: EventKind::Lost },
        Rejection::OutOfOrderTimestamp { latest: at(2), attempted: at(1) },
        Rejection::DuplicateUniqueEvent { kind: EventKind::Lost, existing_id: 3 },
        Rejection::ParentRequired { kind: EventKind::Returned, required: EventKind::Borrowed },
        Rejection::UnexpectedParent { kind: EventKind::Lost, parent_id: 3 },
        Rejection::ParentNotFound { parent_id: 3 },
        Rejection::InvalidParentKind {
            parent_id: 3,
            required: EventKind::Borrowed,
            found: EventKind::Lost,
        },
    ];
    for rejection in rejections {
        assert!(rejection.is_validation());
        assert!(!rejection.is_retryable());
    }
}

#[test]
fn rejection_repeats_on_retry() {
    let mut ledger = in_service();
    let first = ledger.record(ITEM, at(15), inspected(), None);
    let second = ledger.record(ITEM, at(15), inspected(), None);
    assert!(first.is_err());
    assert_eq!(first, second);
}

#[test]
fn find_returns_the_committed_event() {
    let mut ledger = in_service();
    let loan = ledger.record(ITEM, at(30), borrowed(), None).unwrap();
    assert_eq!(ledger.find(loan.id), Some(loan));
    assert_eq!(ledger.find(1).map(|e| e.data), Some(EventData::Manufactured {}));
    assert_eq!(ledger.find(0), None);
    assert_eq!(ledger.find(4), None);
}

#[test]
fn latest_is_the_event_with_the_greatest_timestamp() {
    let mut ledger = in_service();
    assert_eq!(ledger.latest(OTHER), None);
    let latest = ledger.latest(ITEM).unwrap();
    assert_eq!(latest.id, 2);
    assert_eq!(latest.ts, at(20));
    ledger.record(OTHER, at(500), EventData::Manufactured {}, None).unwrap();
    assert_eq!(ledger.latest(ITEM).unwrap().id, 2);
    assert_eq!(ledger.latest(OTHER).unwrap().ts, at(500));
    let inspection = ledger.record(ITEM, at(30), inspected(), None).unwrap();
    assert_eq!(ledger.latest(ITEM), Some(inspection));
}

#[test]
fn all_is_sorted_by_timestamp_and_holds_only_the_item() {
    let mut ledger = Ledger::new();
    ledger.record(ITEM, at(10), EventData::Manufactured {}, None).unwrap();
    ledger.record(OTHER, at(3), EventData::Manufactured {}, None).unwrap();
    ledger.record(ITEM, at(20), EventData::PutIntoService {}, None).unwrap();
    ledger.record(OTHER, at(4), EventData::Lost {}, None).unwrap();
    ledger.record(ITEM, at(30), inspected(), None).unwrap();

    let chain = ledger.all(ITEM);
    assert_eq!(chain.iter().map(|e| e.id).collect::<Vec<_>>(), vec![1, 3, 5]);
    assert!(chain.iter().all(|e| e.item_id == ITEM));
    assert!(chain.windows(2).all(|w| w[0].ts < w[1].ts));
    assert_eq!(chain[2].data, inspected());

    let other = ledger.all(OTHER);
    assert_eq!(other.iter().map(|e| e.id).collect::<Vec<_>>(), vec![2, 4]);
    assert_eq!(ledger.all(99), Vec::<Event>::new());
}

#[test]
fn items_are_independent() {
    let mut ledger = Ledger::new();
    ledger.record(ITEM, at(100), EventData::Manufactured {}, None).unwrap();
    // Another item may be earlier in time and may be manufactured too.
    let other = ledger.record(OTHER, at(1), EventData::Manufactured {}, None).unwrap();
    assert_eq!(other.id, 2);
    ledger.record(ITEM, at(200), EventData::Retired {}, None).unwrap();
    assert!(ledger.record(OTHER, at(2), EventData::PutIntoService {}, None).is_ok());
}

#[test]
fn full_lifecycle_is_accepted() {
    let mut ledger = Ledger::new();
    ledger.record(ITEM, at(1), EventData::Manufactured {}, None).unwrap();
    ledger.record(ITEM, at(2), EventData::PutIntoService {}, None).unwrap();
    ledger.record(ITEM, at(3), inspected(), None).unwrap();
    let loan = ledger.record(ITEM, at(4), borrowed(), None).unwrap();
    ledger.record(ITEM, at(5), returned(), Some(loan.id)).unwrap();
    ledger.record(ITEM, at(6), inspected(), None).unwrap();
    let second_loan = ledger.record(ITEM, at(7), borrowed(), None).unwrap();
    ledger.record(ITEM, at(8), EventData::Lost {}, None).unwrap();
    assert_eq!(second_loan.id, 7);
    assert_eq!(ledger.len(), 8);
    assert_eq!(ledger.latest(ITEM).unwrap().data, EventData::Lost {});
}

#[test]
fn return_may_name_an_earlier_borrowing_of_the_item() {
    let mut ledger = in_service();
    let first_loan = ledger.record(ITEM, at(30), borrowed(), None).unwrap();
    ledger.record(ITEM, at(40), returned(), Some(first_loan.id)).unwrap();
    ledger.record(ITEM, at(50), borrowed(), None).unwrap();
    let back = ledger.record(ITEM, at(60), returned(), Some(first_loan.id)).unwrap();
    assert_eq!(back.parent_id, Some(first_loan.id));
}

// What holds of every history, on a concrete one.

fn busy_ledger() -> Ledger {
    let mut ledger = Ledger::new();
    let attempts = [
        (ITEM, 10, EventData::Manufactured {}, None),
        (ITEM, 11, EventData::Manufactured {}, None),
        (OTHER, 5, EventData::Manufactured {}, None),
        (ITEM, 9, EventData::PutIntoService {}, None),
        (ITEM, 20, EventData::PutIntoService {}, None),
        (ITEM, 21, EventData::PutIntoService {}, None),
        (ITEM, 30, borrowed(), None),
        (ITEM, 31, borrowed(), None),
        (ITEM, 32, returned(), None),
        (ITEM, 33, returned(), Some(2)),
        (ITEM, 34, returned(), Some(4)),
        (ITEM, 35, inspected(), Some(4)),
        (ITEM, 36, inspected(), None),
        (OTHER, 6, EventData::Retired {}, None),
        (OTHER, 7, EventData::Retired {}, None),
        (OTHER, 8, EventData::Lost {}, None),
        (ITEM, 40, EventData::Lost {}, None),
        (ITEM, 41, EventData::Lost {}, None),
        (ITEM, 42, EventData::Retired {}, None),
    ];
    for (item, secs, data, parent) in attempts {
        let _ = ledger.record(item, at(secs), data, parent);
    }
    ledger
}

#[test]
fn no_duplicate_of_a_once_only_kind() {
    let ledger = busy_ledger();
    for item in [ITEM, OTHER] {
        let chain = ledger.all(item);
        for kind in [
            EventKind::Manufactured,
            EventKind::PutIntoService,
            EventKind::Retired,
            EventKind::Lost,
        ] {
            assert!(chain.iter().filter(|e| e.data.kind() == kind).count() <= 1);
        }
    }
}

#[test]
fn timestamps_grow_with_ids() {
    let ledger = busy_ledger();
    for item in [ITEM, OTHER] {
        let chain = ledger.all(item);
        assert!(!chain.is_empty());
        assert!(chain.windows(2).all(|w| w[0].id < w[1].id && w[0].ts < w[1].ts));
    }
}

#[test]
fn neighbours_follow_the_transition_table() {
    let ledger = busy_ledger();
    for item in [ITEM, OTHER] {
        let chain = ledger.all(item);
        assert!(EventData::check_transition(None, &chain[0].data));
        assert!(chain
            .windows(2)
            .all(|w| EventData::check_transition(Some(&w[0].data), &w[1].data)));
    }
    let kinds: Vec<EventKind> = ledger.all(ITEM).iter().map(|e| e.data.kind()).collect();
    assert_eq!(
        kinds,
        vec![
            EventKind::Manufactured,
            EventKind::PutIntoService,
            EventKind::Borrowed,
            EventKind::Returned,
            EventKind::Inspected,
            EventKind::Lost
        ]
    );
}

#[test]
fn parents_are_borrowings_of_the_same_item() {
    let ledger = busy_ledger();
    for item in [ITEM, OTHER] {
        for event in ledger.all(item) {
            if event.data.kind() == EventKind::Returned {
                let parent = ledger.find(event.parent_id.unwrap()).unwrap();
                assert_eq!(parent.data.kind(), EventKind::Borrowed);
                assert_eq!(parent.item_id, event.item_id);
            } else {
                assert_eq!(event.parent_id, None);
            }
        }
    }
}

#[test]
fn committed_events_never_change() {
    let mut ledger = in_service();
    let before = ledger.all(ITEM);
    assert_eq!(ledger.all(ITEM), before);

    // A rejected request and a request for another item leave the chain alone.
    assert!(ledger.record(ITEM, at(1), inspected(), None).is_err());
    ledger.record(OTHER, at(1), EventData::Manufactured {}, None).unwrap();
    assert_eq!(ledger.all(ITEM), before);

    // An accepted request adds one event at the end.
    let added = ledger.record(ITEM, at(30), inspected(), None).unwrap();
    let after = ledger.all(ITEM);
    assert_eq!(after[..before.len()], before[..]);
    assert_eq!(after.len(), before.len() + 1);
    assert_eq!(after.last(), Some(&added));
}

// The decision on its own, on what a store returned.

fn event(id: i64, item_id: i64, secs: i64, data: EventData) -> Event {
    Event { id, item_id, parent_id: None, ts: at(secs), data }
}

#[test]
fn validate_accepts_a_legal_candidate() {
    let latest = event(2, ITEM, 20, EventData::PutIntoService {});
    assert_eq!(validate(ITEM, at(30), &borrowed(), None, None, None, Some(&latest)), Ok(()));
    assert_eq!(validate(ITEM, at(1), &EventData::Manufactured {}, None, None, None, None), Ok(()));
}

#[test]
fn validate_accepts_a_return_with_its_borrowing() {
    let loan = event(3, ITEM, 30, borrowed());
    assert_eq!(validate(ITEM, at(40), &returned(), Some(3), Some(&loan), None, Some(&loan)), Ok(()));
}

#[test]
fn validate_reports_each_rejection() {
    let service = event(2, ITEM, 20, EventData::PutIntoService {});
    let loan = event(3, ITEM, 30, borrowed());
    let foreign_loan = event(9, OTHER, 30, borrowed());

    assert_eq!(
        validate(ITEM, at(40), &returned(), None, None, None, Some(&loan)),
        Err(Rejection::ParentRequired {
            kind: EventKind::Returned,
            required: EventKind::Borrowed
        })
    );
    assert_eq!(
        validate(ITEM, at(40), &inspected(), Some(3), Some(&loan), None, Some(&service)),
        Err(Rejection::UnexpectedParent { kind: EventKind::Inspected, parent_id: 3 })
    );
    assert_eq!(
        validate(ITEM, at(40), &returned(), Some(5), None, None, Some(&loan)),
        Err(Rejection::ParentNotFound { parent_id: 5 })
    );
    assert_eq!(
        validate(ITEM, at(40), &returned(), Some(9), Some(&foreign_loan), None, Some(&loan)),
        Err(Rejection::ParentNotFound { parent_id: 9 })
    );
    assert_eq!(
        validate(ITEM, at(40), &returned(), Some(2), Some(&service), None, Some(&loan)),
        Err(Rejection::InvalidParentKind {
            parent_id: 2,
            required: EventKind::Borrowed,
            found: EventKind::PutIntoService
        })
    );
    assert_eq!(
        validate(
            ITEM,
            at(40),
            &EventData::PutIntoService {},
            None,
            None,
            Some(&service),
            Some(&service)
        ),
        Err(Rejection::DuplicateUniqueEvent { kind: EventKind::PutIntoService, existing_id: 2 })
    );
    assert_eq!(
        validate(ITEM, at(20), &inspected(), None, None, None, Some(&service)),
        Err(Rejection::OutOfOrderTimestamp { latest: at(20), attempted: at(20) })
    );
    assert_eq!(
        validate(ITEM, at(40), &inspected(), None, None, None, Some(&loan)),
        Err(Rejection::IllegalTransition {
            from: Some(EventKind::Borrowed),
            to: EventKind::Inspected
        })
    );
}

#[test]
fn validate_ignores_an_existing_event_of_a_kind_that_may_repeat() {
    let earlier = event(3, ITEM, 30, inspected());
    assert_eq!(
        validate(ITEM, at(40), &inspected(), None, None, Some(&earlier), Some(&earlier)),
        Ok(())
    );
}

#[test]
fn event_clone_is_equal() {
    let loan = Event { id: 3, item_id: ITEM, parent_id: Some(1), ts: at(30), data: borrowed() };
    assert_eq!(loan.clone(), loan);
}

#[test]
fn timestamps_order_by_seconds_then_nanoseconds() {
    assert!(Timestamp::new(1, 999_999_999).precedes(Timestamp::new(2, 0)));
    assert!(Timestamp::new(2, 0).precedes(Timestamp::new(2, 1)));
    assert!(!Timestamp::new(2, 1).precedes(Timestamp::new(2, 1)));
    assert!(!Timestamp::new(2, 1).precedes(Timestamp::new(1, 5)));
    assert!(Timestamp::new(-1, 0).precedes(Timestamp::new(0, 0)));
    assert_eq!(Timestamp::from_secs(7), Timestamp::new(7, 0));
    assert!(Timestamp::new(1, 999_999_999) < Timestamp::new(2, 0));
}

#[test]
fn insert_event_records_without_a_parent() {
    let mut ledger = Ledger::new();
    let first = Event::insert_event(&mut ledger, ITEM, at(1), EventData::Manufactured {});
    assert_eq!(
        first,
        Ok(Event {
            id: 1,
            item_id: ITEM,
            parent_id: None,
            ts: at(1),
            data: EventData::Manufactured {},
        })
    );
    assert_eq!(
        Event::insert_event(&mut ledger, ITEM, at(1), EventData::PutIntoService {}),
        Err(Rejection::OutOfOrderTimestamp { latest: at(1), attempted: at(1) })
    );
    assert_eq!(
        Event::insert_event(&mut ledger, ITEM, at(2), returned()),
        Err(Rejection::ParentRequired {
            kind: EventKind::Returned,
            required: EventKind::Borrowed
        })
    );
    assert_eq!(ledger.all(ITEM), vec![first.unwrap()]);
}

#[test]
fn default_ledger_is_empty_and_starts_at_one() {
    let mut ledger = Ledger::default();
    assert_eq!(ledger.len(), 0);
    assert_eq!(ledger.latest(ITEM), None);
    let first = ledger.record(ITEM, at(1), EventData::Manufactured {}, None).unwrap();
    assert_eq!(first.id, 1);
    assert_eq!(ledger.len(), 1);
}
