//! Server-generated 128-bit record identifiers, and the decoding of a
//! path-embedded identifier before any data access is attempted.

use crate::http::Body;
use crate::http::Response;
use crate::http::STATUS_BAD_REQUEST;
use vstd::prelude::*;
use vstd::string::StringExecFns;

verus! {

/// The 128-bit value that the identifier grammar assigns to a piece of text,
/// if any: hexadecimal digits with optional hyphens, in the accepted UUID
/// forms.  A function of the text alone.
pub uninterp spec fn parsed_id(s: Seq<char>) -> Option<u128>;

/// Relies on uuid::Uuid::try_parse: recognises the textual UUID forms
/// (hexadecimal digits with optional hyphens) and yields the 128-bit value,
/// a function of the input text alone; and on Uuid::as_u128 for the value.
#[verifier::external_body]
fn parse_id(s: &str) -> (r: Option<u128>)
    ensures
        r == parsed_id(s@),
{
    match uuid::Uuid::try_parse(s) {
        Ok(u) => Some(u.as_u128()),
        Err(_) => None,
    }
}

/// Relies on uuid::Uuid::new_v4: a freshly generated random version-4
/// identifier.  Nothing is promised of the value: two draws may or may not
/// collide, and every caller must handle either outcome.
#[verifier::external_body]
pub(crate) fn fresh_id() -> u128 {
    uuid::Uuid::new_v4().as_u128()
}

/// Decodes a path-embedded identifier.  Malformed identifier syntax is
/// rejected with a client-error response before any data-access call.
pub fn decode_id(raw: &str) -> (r: Result<u128, Response>)
    ensures
        match r {
            Ok(id) => parsed_id(raw@) == Some(id),
            Err(resp) => parsed_id(raw@) is None && resp.status == STATUS_BAD_REQUEST,
        },
{
    match parse_id(raw) {
        Some(id) => Ok(id),
        None => Err(
            Response {
                status: STATUS_BAD_REQUEST,
                body: Body::Text(String::from_str("invalid identifier")),
            },
        ),
    }
}

} // verus!
