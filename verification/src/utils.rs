//! Small response builders the HTTP layer consumes: redirects and opaque
//! error responses, over the library's own response type.

use vstd::prelude::*;
use vstd::string::*;
use crate::response::{
    lemma_headers_view_index, lemma_headers_view_len, HeaderPairRecord, HeaderView,
    HttpResponseParts, ResponseView,
};

verus! {

/// The address this application is reachable under; confirmation links are
/// built against it.
pub struct ApplicationBaseUrl(pub String);

/// The image of a redirect: a 303 whose only header sends the client to
/// `location`, with an empty body.
pub open spec fn see_other_view(location: &str) -> ResponseView {
    ResponseView {
        status: 303,
        headers: seq![HeaderView { name: "location"@, value: location.spec_bytes() }],
        body: Seq::<u8>::empty(),
    }
}

/// A 303 redirect to `location`.
pub fn see_other(location: &str) -> (r: HttpResponseParts)
    ensures
        r@ == see_other_view(location),
{
    broadcast use lemma_headers_view_len, lemma_headers_view_index;

    let mut headers: Vec<HeaderPairRecord> = Vec::new();
    headers.push(HeaderPairRecord { name: String::from_str("location"), value: location.as_bytes_vec() });
    let r = HttpResponseParts { status_code: 303, headers, body: Vec::new() };
    proof {
        assert(r@.headers =~= see_other_view(location).headers);
        assert(r@ =~= see_other_view(location));
    }
    r
}

/// An opaque 500 carrying the error's text as its body; the root cause is
/// preserved by the caller for logging.
pub fn error_500(message: &str) -> (r: HttpResponseParts)
    ensures
        r@.status == 500,
        r@.headers == Seq::<HeaderView>::empty(),
        r@.body == message.spec_bytes(),
{
    broadcast use lemma_headers_view_len, lemma_headers_view_index;

    let r = HttpResponseParts {
        status_code: 500,
        headers: Vec::new(),
        body: message.as_bytes_vec(),
    };
    proof {
        assert(r@.headers =~= Seq::<HeaderView>::empty());
    }
    r
}

/// A 400 whose body is the user-facing text of the validation error.
pub fn error_400(message: &str) -> (r: HttpResponseParts)
    ensures
        r@.status == 400,
        r@.headers == Seq::<HeaderView>::empty(),
        r@.body == message.spec_bytes(),
{
    broadcast use lemma_headers_view_len, lemma_headers_view_index;

    let r = HttpResponseParts {
        status_code: 400,
        headers: Vec::new(),
        body: message.as_bytes_vec(),
    };
    proof {
        assert(r@.headers =~= Seq::<HeaderView>::empty());
    }
    r
}

} // verus!
