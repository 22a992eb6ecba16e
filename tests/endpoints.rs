use cat_api::errors::{HandlerError, PoolError, ValidationError};
use cat_api::handlers::{Action, Body, Event, Handler, Response, LIST_LIMIT};
use cat_api::models::Cat;
use cat_api::validate::{validate_id, MAX_ID, MIN_ID};

fn tom() -> Cat {
    Cat::new(1, "Tom".to_string(), "tom.png".to_string())
}

fn felix() -> Cat {
    Cat::new(2, "Felix".to_string(), "felix.png".to_string())
}

/// The table of the example: Tom and Felix.
fn table() -> Vec<Cat> {
    vec![tom(), felix()]
}

fn respond(action: Action) -> Response {
    match action {
        Action::Respond(r) => r,
        other => panic!("expected a response, got {:?}", other),
    }
}

/// Runs a single-record request against an in-memory table with a pool that
/// always lends a connection.
fn get_from(rows: &[Cat], raw: &str) -> Response {
    let (h, a) = Handler::get_record_by_id(raw);
    if let Action::Respond(r) = a {
        assert!(h.is_done());
        return r;
    }
    assert_eq!(a, Action::AcquireConnection);
    let (h, a) = h.step(Event::ConnectionAcquired);
    let id = match a {
        Action::LoadRecord(id) => id.value(),
        other => panic!("expected a query, got {:?}", other),
    };
    let found = rows.iter().find(|c| c.id == id).cloned();
    let (h, a) = h.step(Event::RecordLoaded(found));
    assert!(h.is_done());
    respond(a)
}

fn list_from(rows: &[Cat]) -> Response {
    let (h, a) = Handler::list_records();
    assert_eq!(a, Action::AcquireConnection);
    let (h, a) = h.step(Event::ConnectionAcquired);
    let limit = match a {
        Action::LoadRecords(n) => n,
        other => panic!("expected a query, got {:?}", other),
    };
    let loaded: Vec<Cat> = rows.iter().take(limit).cloned().collect();
    let (h, a) = h.step(Event::RecordsLoaded(loaded));
    assert!(h.is_done());
    respond(a)
}

#[test]
fn test_cats_endpoint_get() {
    let resp = list_from(&table());
    assert!((200..300).contains(&resp.status));
}

#[test]
fn get_existing_record_returns_it() {
    let resp = get_from(&table(), "1");
    assert_eq!(resp.status, 200);
    assert_eq!(resp.body, Body::Record(tom()));
    let resp = get_from(&table(), "2");
    assert_eq!(resp.body, Body::Record(felix()));
}

#[test]
fn get_missing_record_is_not_found() {
    let resp = get_from(&table(), "3");
    assert_eq!(resp.status, 404);
    assert_eq!(resp.body, Body::Failure(HandlerError::NotFound));
}

#[test]
fn get_zero_is_rejected() {
    let resp = get_from(&table(), "0");
    assert_eq!(resp.status, 400);
    assert_eq!(
        resp.body,
        Body::Failure(HandlerError::InvalidInput(ValidationError::OutOfRange))
    );
}

#[test]
fn get_non_integer_is_rejected_before_any_connection() {
    for raw in ["abc", "", "+", "-", "1.5", " 1", "1 ", "0x10", "١"] {
        let (h, a) = Handler::get_record_by_id(raw);
        assert!(h.is_done(), "{raw}");
        let resp = respond(a);
        assert_eq!(resp.status, 400, "{raw}");
        assert_eq!(
            resp.body,
            Body::Failure(HandlerError::InvalidInput(ValidationError::NotInteger)),
            "{raw}"
        );
        assert!(!h.expects(&Event::ConnectionAcquired));
    }
}

#[test]
fn list_example_table() {
    let resp = list_from(&table());
    assert_eq!(resp.status, 200);
    assert_eq!(resp.body, Body::Records(table()));
}

#[test]
fn list_empty_table() {
    let resp = list_from(&[]);
    assert_eq!(resp.status, 200);
    assert_eq!(resp.body, Body::Records(vec![]));
}

#[test]
fn list_is_capped_even_when_the_store_returns_more() {
    let big: Vec<Cat> = (1..=250)
        .map(|i| Cat::new(i, format!("cat{i}"), format!("cat{i}.png")))
        .collect();
    let (h, _) = Handler::list_records();
    let (h, a) = h.step(Event::ConnectionAcquired);
    assert_eq!(a, Action::LoadRecords(100));
    let (_, a) = h.step(Event::RecordsLoaded(big.clone()));
    let resp = respond(a);
    assert_eq!(resp.status, 200);
    match resp.body {
        Body::Records(rows) => {
            assert_eq!(rows.len(), LIST_LIMIT);
            assert_eq!(rows[..], big[..100]);
        }
        other => panic!("expected records, got {:?}", other),
    }
    assert_eq!(list_from(&big).body, Body::Records(big[..100].to_vec()));
}

#[test]
fn validate_bounds_and_signs() {
    assert_eq!(validate_id("1").map(|v| v.value()), Ok(1));
    assert_eq!(validate_id("150").map(|v| v.value()), Ok(150));
    assert_eq!(validate_id("+7").map(|v| v.value()), Ok(7));
    assert_eq!(validate_id("007").map(|v| v.value()), Ok(7));
    assert_eq!(validate_id("151"), Err(ValidationError::OutOfRange));
    assert_eq!(validate_id("-1"), Err(ValidationError::OutOfRange));
    assert_eq!(validate_id("-0"), Err(ValidationError::OutOfRange));
    assert_eq!(validate_id("99999999999999999999999"), Err(ValidationError::OutOfRange));
    assert_eq!(validate_id("12a"), Err(ValidationError::NotInteger));
    assert_eq!(validate_id("--1"), Err(ValidationError::NotInteger));
    assert_eq!(MIN_ID, 1);
    assert_eq!(MAX_ID, 150);
}

#[test]
fn pool_failure_is_server_error() {
    for e in [PoolError::Exhausted, PoolError::Unavailable] {
        let (h, _) = Handler::list_records();
        assert!(h.expects(&Event::ConnectionRefused(e)));
        let (h, a) = h.step(Event::ConnectionRefused(e));
        assert!(h.is_done());
        let resp = respond(a);
        assert_eq!(resp.status, 500);
        assert_eq!(resp.body, Body::Failure(HandlerError::PoolUnavailable));

        let (h, _) = Handler::get_record_by_id("5");
        let (_, a) = h.step(Event::ConnectionRefused(e));
        assert_eq!(respond(a).status, 500);
    }
}

#[test]
fn query_failure_is_server_error() {
    let (h, _) = Handler::get_record_by_id("5");
    let (h, _) = h.step(Event::ConnectionAcquired);
    assert!(!h.expects(&Event::RecordsLoaded(vec![])));
    let (_, a) = h.step(Event::QueryFailed);
    let resp = respond(a);
    assert_eq!(resp.status, 500);
    assert_eq!(resp.body, Body::Failure(HandlerError::QueryFailed));

    let (h, _) = Handler::list_records();
    let (h, _) = h.step(Event::ConnectionAcquired);
    let (_, a) = h.step(Event::QueryFailed);
    assert_eq!(respond(a).status, 500);
}

#[test]
fn two_requests_get_their_own_records() {
    let (h1, _) = Handler::get_record_by_id("1");
    let (h2, _) = Handler::get_record_by_id("2");
    let (h1, a1) = h1.step(Event::ConnectionAcquired);
    let (h2, a2) = h2.step(Event::ConnectionAcquired);
    assert_ne!(a1, a2);
    let (_, r2) = h2.step(Event::RecordLoaded(Some(felix())));
    let (_, r1) = h1.step(Event::RecordLoaded(Some(tom())));
    assert_eq!(respond(r1).body, Body::Record(tom()));
    assert_eq!(respond(r2).body, Body::Record(felix()));
}

#[test]
fn error_status_and_codes() {
    let cases = [
        (HandlerError::InvalidInput(ValidationError::NotInteger), 400, "invalid_input"),
        (HandlerError::InvalidInput(ValidationError::OutOfRange), 400, "invalid_input"),
        (HandlerError::PoolUnavailable, 500, "pool_unavailable"),
        (HandlerError::QueryFailed, 500, "query_failed"),
        (HandlerError::NotFound, 404, "not_found"),
    ];
    for (e, status, code) in cases {
        assert_eq!(e.status(), status);
        assert_eq!(e.code(), code);
    }
}
