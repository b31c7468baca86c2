use zero_to_prod::response::{
    copy_response, ok_response, record_to_response, response_to_record, HeaderPairRecord,
    HttpResponseParts, IdempotencyRecord, ResponseCodecError,
};
use zero_to_prod::utils::{error_400, error_500, see_other};

fn sample_response() -> HttpResponseParts {
    HttpResponseParts {
        status_code: 303,
        headers: vec![
            HeaderPairRecord { name: String::from("set-cookie"), value: b"a=b".to_vec() },
            HeaderPairRecord { name: String::from("set-cookie"), value: b"c=d".to_vec() },
            HeaderPairRecord { name: String::from("location"), value: b"/admin".to_vec() },
        ],
        body: vec![1, 2, 3, 0, 255],
    }
}

fn assert_responses_identical(a: &HttpResponseParts, b: &HttpResponseParts) {
    assert_eq!(a.status_code, b.status_code);
    assert_eq!(a.headers.len(), b.headers.len());
    for i in 0..a.headers.len() {
        assert_eq!(a.headers[i].name, b.headers[i].name);
        assert_eq!(a.headers[i].value, b.headers[i].value);
    }
    assert_eq!(a.body, b.body);
}

#[test]
fn record_round_trip_is_byte_exact() {
    let response = sample_response();
    let copy = copy_response(&response);
    let record = response_to_record(response);
    assert_eq!(record.response_status_code, 303);
    let read_back = record_to_response(record).expect("valid status must round-trip");
    assert_responses_identical(&read_back, &copy);
}

#[test]
fn record_round_trip_keeps_duplicate_headers_in_order() {
    let record = response_to_record(sample_response());
    assert_eq!(record.response_headers[0].name, "set-cookie");
    assert_eq!(record.response_headers[0].value, b"a=b".to_vec());
    assert_eq!(record.response_headers[1].name, "set-cookie");
    assert_eq!(record.response_headers[1].value, b"c=d".to_vec());
}

#[test]
fn record_with_status_out_of_range_is_rejected() {
    let too_small = IdempotencyRecord {
        response_status_code: 99,
        response_headers: vec![],
        response_body: vec![],
    };
    match record_to_response(too_small) {
        Err(ResponseCodecError::InvalidStatusCode) => {}
        _ => panic!("status 99 must be rejected"),
    }
    let negative = IdempotencyRecord {
        response_status_code: -1,
        response_headers: vec![],
        response_body: vec![],
    };
    match record_to_response(negative) {
        Err(ResponseCodecError::InvalidStatusCode) => {}
        _ => panic!("negative status must be rejected"),
    }
}

#[test]
fn ok_response_is_an_empty_200() {
    let r = ok_response();
    assert_eq!(r.status_code, 200);
    assert_eq!(r.headers.len(), 0);
    assert_eq!(r.body.len(), 0);
}

#[test]
fn see_other_carries_the_location_header() {
    let r = see_other("/login");
    assert_eq!(r.status_code, 303);
    assert_eq!(r.headers.len(), 1);
    assert_eq!(r.headers[0].name, "location");
    assert_eq!(r.headers[0].value, b"/login".to_vec());
    assert_eq!(r.body.len(), 0);
}

#[test]
fn error_responses_carry_the_message() {
    let r = error_400("empty name");
    assert_eq!(r.status_code, 400);
    assert_eq!(r.body, b"empty name".to_vec());
    let r = error_500("boom");
    assert_eq!(r.status_code, 500);
    assert_eq!(r.body, b"boom".to_vec());
}
