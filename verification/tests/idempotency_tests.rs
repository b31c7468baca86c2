use zero_to_prod::idempotency::{IdempotencyKey, IdempotencyStore, KeyError, PersistenceError};
use zero_to_prod::response::{HeaderPairRecord, HttpResponseParts};

fn key(text: &str) -> IdempotencyKey {
    IdempotencyKey::parse(String::from(text)).expect("key must be accepted")
}

fn response_with_body(status: u16, body: &[u8]) -> HttpResponseParts {
    HttpResponseParts {
        status_code: status,
        headers: vec![HeaderPairRecord { name: String::from("x-tag"), value: body.to_vec() }],
        body: body.to_vec(),
    }
}

#[test]
fn key_rejects_the_empty_token() {
    assert_eq!(IdempotencyKey::parse(String::new()).unwrap_err(), KeyError::Empty);
}

#[test]
fn key_rejects_a_token_over_the_length_bound() {
    let long = "x".repeat(51);
    assert_eq!(IdempotencyKey::parse(long).unwrap_err(), KeyError::TooLong);
    let at_bound = "x".repeat(50);
    assert!(IdempotencyKey::parse(at_bound).is_ok());
}

#[test]
fn lookup_before_any_save_returns_nothing() {
    let store = IdempotencyStore::new();
    assert!(store.get_saved_response(7, &key("k-1")).is_none());
}

#[test]
fn idempotent_replay_returns_the_saved_response() {
    let mut store = IdempotencyStore::new();
    let k = key("publish-attempt-1");
    let saved = store
        .save_response(7, &k, response_with_body(200, b"issue published"))
        .expect("first save must succeed");
    assert_eq!(saved.status_code, 200);

    let replayed = store.get_saved_response(7, &k).expect("the record must be found");
    assert_eq!(replayed.status_code, 200);
    assert_eq!(replayed.headers.len(), 1);
    assert_eq!(replayed.headers[0].name, "x-tag");
    assert_eq!(replayed.headers[0].value, b"issue published".to_vec());
    assert_eq!(replayed.body, b"issue published".to_vec());
}

#[test]
fn second_writer_is_rejected_and_the_first_value_wins() {
    let mut store = IdempotencyStore::new();
    let k = key("publish-attempt-1");
    store
        .save_response(7, &k, response_with_body(200, b"winner"))
        .expect("first save must succeed");

    let rejection = store.save_response(7, &k, response_with_body(500, b"loser"));
    assert_eq!(rejection.unwrap_err(), PersistenceError::DuplicateKey);
    assert_eq!(store.len(), 1);

    let read_back = store.get_saved_response(7, &k).expect("the record must still be there");
    assert_eq!(read_back.status_code, 200);
    assert_eq!(read_back.body, b"winner".to_vec());
}

#[test]
fn records_are_scoped_by_owner_and_key() {
    let mut store = IdempotencyStore::new();
    let k = key("shared-key");
    store
        .save_response(1, &k, response_with_body(200, b"for owner one"))
        .expect("save must succeed");

    assert!(store.get_saved_response(2, &k).is_none());
    assert!(store.get_saved_response(1, &key("other-key")).is_none());

    store
        .save_response(2, &k, response_with_body(201, b"for owner two"))
        .expect("a different owner's save must succeed");
    assert_eq!(store.len(), 2);
    assert_eq!(store.get_saved_response(1, &k).unwrap().status_code, 200);
    assert_eq!(store.get_saved_response(2, &k).unwrap().status_code, 201);
}
