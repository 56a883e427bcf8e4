//! Parsing UUIDs that arrive as text in request paths.

use vstd::prelude::*;
use crate::responses::{EndpointError, Reply, ReplyBody, STATUS_BAD_REQUEST};

verus! {

/// What `uuid::Uuid::parse_str` makes of `text`: the UUID's 128-bit value,
/// or the text of the parse error.
pub uninterp spec fn uuid_parse_outcome(text: Seq<char>) -> Result<u128, Seq<char>>;

/// Calls `uuid::Uuid::parse_str` on `text`. Its outcome is a function of the
/// text alone; on success the UUID is returned as its 128-bit value
/// (`Uuid::as_u128`), on failure the error's `Display` text is returned.
/// Which texts parse (hyphenated, simple, URN and braced forms) is not restated here.
#[verifier::external_body]
fn uuid_parse_str(text: &str) -> (r: Result<u128, String>)
    ensures
        match (r, uuid_parse_outcome(text@)) {
            (Ok(a), Ok(b)) => a == b,
            (Err(d), Err(e)) => d@ == e,
            _ => false,
        },
{
    match uuid::Uuid::parse_str(text) {
        Ok(u) => Ok(u.as_u128()),
        Err(e) => Err(format!("{}", e)),
    }
}

/// Whether `r` is the result of parsing a UUID from `text`: the parsed value,
/// or an invalid-UUID error carrying the parse error's text.
pub open spec fn is_uuid_parse_of(r: Result<u128, EndpointError>, text: Seq<char>) -> bool {
    match (r, uuid_parse_outcome(text)) {
        (Ok(a), Ok(b)) => a == b,
        (Err(EndpointError::InvalidUuidFormat { description }), Err(e)) => description@ == e,
        _ => false,
    }
}

/// The result of parsing a UUID, given what `uuid` made of the text: the
/// value, or an invalid-UUID error carrying the parse error's text.
pub fn uuid_from_parse_result(parsed: Result<u128, String>) -> (r: Result<u128, EndpointError>)
    ensures
        match parsed {
            Ok(v) => r == Ok::<u128, EndpointError>(v),
            Err(e) => r == Err::<u128, EndpointError>(EndpointError::InvalidUuidFormat { description: e }),
        },
{
    match parsed {
        Ok(v) => Ok(v),
        Err(description) => Err(EndpointError::InvalidUuidFormat { description }),
    }
}

/// Parses a UUID from request text; malformed text gives an invalid-UUID error.
pub fn parse_uuid(text: &str) -> (r: Result<u128, EndpointError>)
    ensures
        is_uuid_parse_of(r, text@),
{
    uuid_from_parse_result(uuid_parse_str(text))
}

/// The reply refusing a malformed UUID on the older endpoints.
pub open spec fn invalid_uuid_text_reply() -> Reply {
    Reply { status: STATUS_BAD_REQUEST, body: ReplyBody::Text("invalid UUID"), last_modified: None }
}

/// Parses a UUID from request text for the older endpoints, which refuse
/// malformed text with `400 Bad Request` and the reason `invalid UUID`.
pub fn parse_string_into_uuid(text: &str) -> (r: Result<u128, Reply>)
    ensures
        match uuid_parse_outcome(text@) {
            Ok(v) => r == Ok::<u128, Reply>(v),
            Err(_) => r == Err::<u128, Reply>(invalid_uuid_text_reply()),
        },
{
    string_uuid_from_parse_result(uuid_parse_str(text))
}

/// The result of parsing a UUID on the older endpoints, given what `uuid`
/// made of the text: the value, or the `invalid UUID` refusal.
pub fn string_uuid_from_parse_result(parsed: Result<u128, String>) -> (r: Result<u128, Reply>)
    ensures
        match parsed {
            Ok(v) => r == Ok::<u128, Reply>(v),
            Err(_) => r == Err::<u128, Reply>(invalid_uuid_text_reply()),
        },
{
    match parsed {
        Ok(v) => Ok(v),
        Err(_) => Err(Reply { status: STATUS_BAD_REQUEST, body: ReplyBody::Text("invalid UUID"), last_modified: None }),
    }
}

} // verus!
