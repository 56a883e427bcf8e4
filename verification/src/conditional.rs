//! Conditional requests: the `If-Modified-Since` header.
//!
//! HTTP dates have a resolution of one second, so both the time the client
//! sent and the time a resource was last modified are compared by whole seconds.

use vstd::prelude::*;
use crate::builder::{construct_last_modified_header_value, http_date_text, last_modified_value};
use crate::models::Timestamp;

verus! {

/// The latest number of seconds since the UNIX epoch an HTTP date can denote
/// (31 December 9999, 23:59:59 UTC).
pub const LATEST_HTTP_DATE_SECONDS: u64 = 253402300799;

/// What `httpdate` reads from the text of an HTTP date: the seconds since the
/// UNIX epoch, or `None` when the text is not an HTTP date.
pub uninterp spec fn http_date_seconds_of(text: Seq<char>) -> Option<u64>;

/// Parses an HTTP date with `httpdate::parse_http_date` and returns the seconds
/// since the UNIX epoch of the instant it denotes.
///
/// Trusted: the result is the named result of `httpdate` on this text; the
/// crate only accepts years 1970 to 9999, so a date never lies after
/// [`LATEST_HTTP_DATE_SECONDS`] (its `HttpDate::is_valid` check), and an
/// HTTP date in the layout `Sun, 02 Oct 2016 14:44:11 GMT` (see
/// [`http_date_text`]) reads back as the second it names (its
/// `parse_imf_fixdate`).
#[verifier::external_body]
fn parse_http_date_seconds(text: &str) -> (r: Option<u64>)
    ensures
        r == http_date_seconds_of(text@),
        r matches Some(s) ==> s <= LATEST_HTTP_DATE_SECONDS,
        forall|s: int| 0 <= s <= LATEST_HTTP_DATE_SECONDS && text@ == #[trigger] http_date_text(s) ==> r == Some(s as u64),
{
    match httpdate::parse_http_date(text) {
        Ok(time) => match time.duration_since(std::time::UNIX_EPOCH) {
            Ok(elapsed) => Some(elapsed.as_secs()),
            Err(_) => None,
        },
        Err(_) => None,
    }
}

/// The `If-Modified-Since` condition of a request, if it sent one.
#[derive(Clone, Copy, Debug, PartialEq, Eq, Structural)]
pub enum OptionalIfModifiedSince {
    Unspecified,
    Specified(Timestamp),
}

/// The instant truncated to whole seconds.
pub open spec fn truncated_to_seconds(t: Timestamp) -> Timestamp {
    Timestamp { unix_seconds: t.unix_seconds, subsec_nanos: 0 }
}

/// Whether the condition is present and the resource, last modified at
/// `last_modified`, has not changed since the time the client sent
/// (compared in whole seconds).
pub open spec fn not_modified_since(condition: OptionalIfModifiedSince, last_modified: Timestamp) -> bool {
    match condition {
        OptionalIfModifiedSince::Unspecified => false,
        OptionalIfModifiedSince::Specified(since) => since.unix_seconds >= last_modified.unix_seconds,
    }
}

impl OptionalIfModifiedSince {
    /// No condition.
    pub fn new_unspecified() -> (r: Self)
        ensures
            r == OptionalIfModifiedSince::Unspecified,
    {
        OptionalIfModifiedSince::Unspecified
    }

    /// A condition on `since`, truncated to whole seconds.
    pub fn new_specified(since: Timestamp) -> (r: Self)
        ensures
            r == OptionalIfModifiedSince::Specified(truncated_to_seconds(since)),
    {
        OptionalIfModifiedSince::Specified(Timestamp { unix_seconds: since.unix_seconds, subsec_nanos: 0 })
    }

    /// Whether the condition is present and the resource has not changed since:
    /// then the endpoint answers `304 Not Modified` instead of sending the resource.
    pub fn enabled_and_has_not_changed_since(&self, last_modified: &Timestamp) -> (r: bool)
        ensures
            r == not_modified_since(*self, *last_modified),
            *self == OptionalIfModifiedSince::Unspecified ==> !r,
    {
        match self {
            OptionalIfModifiedSince::Unspecified => false,
            OptionalIfModifiedSince::Specified(since) => since.unix_seconds >= last_modified.unix_seconds,
        }
    }
}

/// A resource is never reported unchanged since before it was last modified,
/// and a resource reported unchanged since some time stays so for every
/// earlier modification time: the condition only compares whole seconds.
pub proof fn lemma_not_modified_is_monotonic(condition: OptionalIfModifiedSince, last_modified: Timestamp, earlier: Timestamp)
    requires
        not_modified_since(condition, last_modified),
        earlier.unix_seconds <= last_modified.unix_seconds,
    ensures
        not_modified_since(condition, earlier),
        condition matches OptionalIfModifiedSince::Specified(since) && since.unix_seconds >= last_modified.unix_seconds,
{
}

/// A client that sends back the exact time the resource was last modified
/// (at any sub-second precision) is told it has not changed.
pub proof fn lemma_same_time_is_not_modified(last_modified: Timestamp, sent: Timestamp)
    requires
        sent.unix_seconds == last_modified.unix_seconds,
    ensures
        not_modified_since(OptionalIfModifiedSince::Specified(truncated_to_seconds(sent)), last_modified),
{
}

/// The condition of a request that echoes back, as `If-Modified-Since`, the
/// `Last-Modified` header sent with a resource last modified at `at`: it names
/// `at` to the second, so the resource is reported unchanged.
pub fn condition_echoing_last_modified(at: &Timestamp) -> (r: Result<OptionalIfModifiedSince, IfModifiedSinceHeaderError>)
    requires
        0 <= at.unix_seconds <= LATEST_HTTP_DATE_SECONDS,
        at.subsec_nanos < 1_000_000_000,
    ensures
        r == if_modified_since_outcome(Some(Some(last_modified_value(*at)))),
        r == Ok::<OptionalIfModifiedSince, IfModifiedSinceHeaderError>(OptionalIfModifiedSince::Specified(truncated_to_seconds(*at))),
        r matches Ok(condition) && not_modified_since(condition, *at),
{
    let text = construct_last_modified_header_value(at);
    assert(text@ == http_date_text(at.unix_seconds as int));
    let parsed = parse_http_date_seconds(text.as_str());
    assert(parsed == Some(at.unix_seconds as u64));
    condition_from_parsed_date(parsed)
}

/// Why an `If-Modified-Since` header was refused.
#[derive(Clone, Copy, Debug, PartialEq, Eq, Structural)]
pub enum IfModifiedSinceHeaderError {
    /// The header holds characters other than visible ASCII.
    NotVisibleAscii,
    /// The header is not an HTTP date.
    NotAnHttpDate,
}

/// The condition read from the `If-Modified-Since` header: `None` when the
/// header is absent, `Some(None)` when it is not visible ASCII text, and
/// `Some(Some(text))` otherwise.
pub open spec fn if_modified_since_outcome(header: Option<Option<Seq<char>>>) -> Result<OptionalIfModifiedSince, IfModifiedSinceHeaderError> {
    match header {
        None => Ok(OptionalIfModifiedSince::Unspecified),
        Some(None) => Err(IfModifiedSinceHeaderError::NotVisibleAscii),
        Some(Some(text)) => match http_date_seconds_of(text) {
            None => Err(IfModifiedSinceHeaderError::NotAnHttpDate),
            Some(seconds) => Ok(OptionalIfModifiedSince::Specified(Timestamp { unix_seconds: seconds as i64, subsec_nanos: 0 })),
        },
    }
}

/// Reads the `If-Modified-Since` condition of a request (see [`if_modified_since_outcome`]).
pub fn if_modified_since_from_header(header: Option<Option<&str>>) -> (r: Result<OptionalIfModifiedSince, IfModifiedSinceHeaderError>)
    ensures
        r == if_modified_since_outcome(match header {
            None => None,
            Some(None) => Some(None),
            Some(Some(text)) => Some(Some(text@)),
        }),
{
    match header {
        None => Ok(OptionalIfModifiedSince::new_unspecified()),
        Some(None) => Err(IfModifiedSinceHeaderError::NotVisibleAscii),
        Some(Some(text)) => condition_from_parsed_date(parse_http_date_seconds(text)),
    }
}

/// The condition for a header whose text `httpdate` read as `parsed`
/// (seconds since the UNIX epoch, or `None` when it is not an HTTP date).
pub fn condition_from_parsed_date(parsed: Option<u64>) -> (r: Result<OptionalIfModifiedSince, IfModifiedSinceHeaderError>)
    requires
        parsed matches Some(s) ==> s <= LATEST_HTTP_DATE_SECONDS,
    ensures
        r == match parsed {
            None => Err(IfModifiedSinceHeaderError::NotAnHttpDate),
            Some(seconds) => Ok(OptionalIfModifiedSince::Specified(Timestamp { unix_seconds: seconds as i64, subsec_nanos: 0 })),
        },
{
    match parsed {
        None => Err(IfModifiedSinceHeaderError::NotAnHttpDate),
        Some(seconds) => {
            let since = Timestamp { unix_seconds: seconds as i64, subsec_nanos: 0 };
            Ok(OptionalIfModifiedSince::new_specified(since))
        },
    }
}

} // verus!
