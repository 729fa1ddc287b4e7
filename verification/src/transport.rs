//! What a client does with a response once the transport has delivered it.

use vstd::prelude::*;
use vstd::utf8::{decode_utf8, valid_utf8};
use crate::decode::{decode_document, document_outcome, Decode};
use crate::error::PatreonError;

verus! {

/// The text that bytes are read as where they need not be UTF-8: every
/// invalid sequence becomes U+FFFD.
pub uninterp spec fn lossy_utf8(bytes: Seq<u8>) -> Seq<char>;

/// `String::from_utf8_lossy`, made an owned `String`. The text depends on
/// the bytes alone; bytes that are UTF-8 are read as they are.
#[verifier::external_body]
fn lossy_text(bytes: &[u8]) -> (r: String)
    ensures
        r@ == lossy_utf8(bytes@),
        valid_utf8(bytes@) ==> r@ == decode_utf8(bytes@),
{
    String::from_utf8_lossy(bytes).into_owned()
}

/// Whether a status reports success: 200 to 299.
pub open spec fn success(status: u16) -> bool {
    200 <= status < 300
}

/// Whether a status reports success: 200 to 299.
#[verifier::when_used_as_spec(success)]
pub fn is_success(status: u16) -> (r: bool)
    ensures
        r == success(status),
{
    200 <= status && status < 300
}

/// Whether `e` is the failure for a response with `status` and `body`: it
/// carries the status, and the body as text, which is the body itself
/// where that is UTF-8.
pub open spec fn is_api_failure(e: PatreonError, status: u16, body: Seq<u8>) -> bool {
    &&& e is Api
    &&& e->Api_status == status
    &&& e->Api_message@ == lossy_utf8(body)
    &&& valid_utf8(body) ==> e->Api_message@ == decode_utf8(body)
}

/// Whether `r` is what a response with `status` and `body` comes to: the
/// decoded document for a success, the failure with status and body
/// otherwise.
pub open spec fn response_outcome<T: Decode>(
    status: u16,
    body: Seq<u8>,
    r: Result<T, PatreonError>,
) -> bool {
    if success(status) {
        document_outcome::<T>(body, r)
    } else {
        r is Err && is_api_failure(r->Err_0, status, body)
    }
}

/// Reads a response: decodes the body of a success, reports anything else
/// with its status and body.
pub fn read_response<T: Decode>(status: u16, body: &[u8]) -> (r: Result<T, PatreonError>)
    ensures
        response_outcome::<T>(status, body@, r),
{
    if is_success(status) {
        decode_document::<T>(body)
    } else {
        Err(PatreonError::Api { status, message: lossy_text(body) })
    }
}

/// Reads a response whose body does not matter: a success is `Ok`,
/// anything else is reported with its status and body.
pub fn read_empty_response(status: u16, body: &[u8]) -> (r: Result<(), PatreonError>)
    ensures
        r is Ok <==> success(status),
        r is Err ==> is_api_failure(r->Err_0, status, body@),
{
    if is_success(status) {
        Ok(())
    } else {
        Err(PatreonError::Api { status, message: lossy_text(body) })
    }
}

/// The value of the `Authorization` header for a bearer token.
pub open spec fn bearer(token: Seq<char>) -> Seq<char> {
    "Bearer "@ + token
}

/// The value of the `Authorization` header for a bearer token.
pub fn bearer_value(token: &str) -> (r: String)
    ensures
        r@ == bearer(token@),
{
    crate::text::chain2("Bearer ", token)
}

/// The headers of a JSON request under a bearer token, in order:
/// `authorization`, then `content-type`.
pub fn json_headers(token: &str) -> (r: Vec<(String, String)>)
    ensures
        r@.len() == 2,
        r@[0].0@ == "authorization"@,
        r@[0].1@ == bearer(token@),
        r@[1].0@ == "content-type"@,
        r@[1].1@ == "application/json"@,
{
    let mut r: Vec<(String, String)> = Vec::new();
    r.push(("authorization".to_owned(), bearer_value(token)));
    r.push(("content-type".to_owned(), "application/json".to_owned()));
    r
}

} // verus!
