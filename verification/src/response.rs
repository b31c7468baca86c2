//! The response codec: an HTTP response (status code, ordered header list,
//! body bytes) and its conversion to and from the storable record kept by the
//! idempotency table. Conversion is lossless for every valid status code, and
//! the round trip is proved exact.

use vstd::prelude::*;

verus! {

/// One response header: a name and a raw byte value. Headers are an ordered
/// list, not a map, because HTTP permits repeated names; order, duplicates
/// and exact bytes must round-trip.
#[derive(Debug)]
pub struct HeaderPairRecord {
    pub name: String,
    pub value: Vec<u8>,
}

/// Ghost image of one header pair.
#[verifier::ext_equal]
pub struct HeaderView {
    pub name: Seq<char>,
    pub value: Seq<u8>,
}

impl View for HeaderPairRecord {
    type V = HeaderView;

    open spec fn view(&self) -> HeaderView {
        HeaderView { name: self.name@, value: self.value@ }
    }
}

/// Ghost image of a header list: each pair abstracted to its view.
pub open spec fn headers_view(headers: Seq<HeaderPairRecord>) -> Seq<HeaderView> {
    headers.map_values(|h: HeaderPairRecord| h@)
}

/// A header list and its ghost image have the same length.
pub broadcast proof fn lemma_headers_view_len(headers: Seq<HeaderPairRecord>)
    ensures
        #[trigger] headers_view(headers).len() == headers.len(),
{
}

/// The ghost image of a header list is the pairs' views, index by index.
pub broadcast proof fn lemma_headers_view_index(headers: Seq<HeaderPairRecord>, i: int)
    requires
        0 <= i < headers.len(),
    ensures
        #[trigger] headers_view(headers)[i] == headers[i]@,
{
}

/// A fully materialized HTTP response: status code, ordered header list and
/// buffered body. Streaming bodies must be buffered before they reach this
/// type, since a cached response has to be byte-exact and replayable.
#[derive(Debug)]
pub struct HttpResponseParts {
    pub status_code: u16,
    pub headers: Vec<HeaderPairRecord>,
    pub body: Vec<u8>,
}

/// Ghost image of a response; also the image of a storable record, so that
/// the codec contracts can state losslessness as plain equality.
#[verifier::ext_equal]
pub struct ResponseView {
    pub status: int,
    pub headers: Seq<HeaderView>,
    pub body: Seq<u8>,
}

impl View for HttpResponseParts {
    type V = ResponseView;

    open spec fn view(&self) -> ResponseView {
        ResponseView {
            status: self.status_code as int,
            headers: headers_view(self.headers@),
            body: self.body@,
        }
    }
}

/// The storable record for one cached response, with the status code held at
/// the width the idempotency table stores it.
#[derive(Debug)]
pub struct IdempotencyRecord {
    pub response_status_code: i16,
    pub response_headers: Vec<HeaderPairRecord>,
    pub response_body: Vec<u8>,
}

impl View for IdempotencyRecord {
    type V = ResponseView;

    open spec fn view(&self) -> ResponseView {
        ResponseView {
            status: self.response_status_code as int,
            headers: headers_view(self.response_headers@),
            body: self.response_body@,
        }
    }
}

/// A status code an HTTP response may carry.
pub open spec fn valid_status_code(status: int) -> bool {
    100 <= status <= 999
}

/// Why a stored record could not be turned back into a response.
#[derive(Debug, PartialEq, Eq, Structural)]
pub enum ResponseCodecError {
    /// The stored status code lies outside the valid range.
    InvalidStatusCode,
}

/// Serializes a response into the storable record. Lossless: the record's
/// ghost image equals the response's.
pub fn response_to_record(response: HttpResponseParts) -> (record: IdempotencyRecord)
    requires
        valid_status_code(response@.status),
    ensures
        record@ == response@,
{
    IdempotencyRecord {
        response_status_code: response.status_code as i16,
        response_headers: response.headers,
        response_body: response.body,
    }
}

/// Deserializes a storable record back into a response. Succeeds exactly when
/// the stored status code is a valid HTTP status, and then reproduces the
/// record byte for byte.
pub fn record_to_response(record: IdempotencyRecord) -> (r: Result<
    HttpResponseParts,
    ResponseCodecError,
>)
    ensures
        r is Ok <==> valid_status_code(record@.status),
        r matches Ok(response) ==> response@ == record@,
        r is Err ==> r == Err::<HttpResponseParts, ResponseCodecError>(
            ResponseCodecError::InvalidStatusCode,
        ),
{
    if record.response_status_code < 100 || record.response_status_code > 999 {
        return Err(ResponseCodecError::InvalidStatusCode);
    }
    Ok(
        HttpResponseParts {
            status_code: record.response_status_code as u16,
            headers: record.response_headers,
            body: record.response_body,
        },
    )
}

/// Round trip: storing a valid response and reading it back yields a response
/// whose status, header order, header bytes and body are identical.
pub proof fn lemma_codec_round_trip(response: HttpResponseParts, record: IdempotencyRecord, read_back: HttpResponseParts)
    requires
        valid_status_code(response@.status),
        record@ == response@,
        read_back@ == record@,
    ensures
        read_back@ == response@,
{
}

/// Copies a byte vector; the copy's contents equal the original's.
pub fn copy_bytes(v: &Vec<u8>) -> (r: Vec<u8>)
    ensures
        r@ == v@,
{
    let mut r: Vec<u8> = Vec::new();
    let mut i: usize = 0;
    while i < v.len()
        invariant
            i <= v.len(),
            r@ == v@.subrange(0, i as int),
        decreases v.len() - i,
    {
        r.push(v[i]);
        i = i + 1;
        proof {
            assert(r@ =~= v@.subrange(0, i as int));
        }
    }
    proof {
        assert(r@ =~= v@);
    }
    r
}

/// Copies a header list; every pair of the copy equals the original pair in
/// name and value bytes.
pub fn copy_headers(v: &Vec<HeaderPairRecord>) -> (r: Vec<HeaderPairRecord>)
    ensures
        headers_view(r@) == headers_view(v@),
{
    let mut r: Vec<HeaderPairRecord> = Vec::new();
    let mut i: usize = 0;
    while i < v.len()
        invariant
            i <= v.len(),
            r@.len() == i,
            forall|j: int| 0 <= j < i ==> #[trigger] r@[j]@ == v@[j]@,
        decreases v.len() - i,
    {
        let name = v[i].name.clone();
        let value = copy_bytes(&v[i].value);
        let pair = HeaderPairRecord { name, value };
        assert(pair@ =~= v@[i as int]@);
        r.push(pair);
        i = i + 1;
    }
    proof {
        assert(headers_view(r@) =~= headers_view(v@));
    }
    r
}

/// Copies a whole response; the copy's ghost image equals the original's.
pub fn copy_response(response: &HttpResponseParts) -> (r: HttpResponseParts)
    ensures
        r@ == response@,
{
    let r = HttpResponseParts {
        status_code: response.status_code,
        headers: copy_headers(&response.headers),
        body: copy_bytes(&response.body),
    };
    proof {
        assert(r@ =~= response@);
    }
    r
}

/// An empty 200 response: what the publish endpoint returns on success.
pub fn ok_response() -> (r: HttpResponseParts)
    ensures
        r@.status == 200,
        r@.headers == Seq::<HeaderView>::empty(),
        r@.body == Seq::<u8>::empty(),
{
    let r = HttpResponseParts { status_code: 200, headers: Vec::new(), body: Vec::new() };
    proof {
        assert(r@.headers =~= Seq::<HeaderView>::empty());
        assert(r@.body =~= Seq::<u8>::empty());
    }
    r
}

} // verus!
