//! Building HTTP responses: a status code, extra headers and an optional JSON
//! body (already serialised into bytes, or the serialisation error).

use vstd::prelude::*;
use crate::conditional::LATEST_HTTP_DATE_SECONDS;
use crate::models::{is_representable, Timestamp};
use crate::responses::{
    EndpointError, STATUS_BAD_REQUEST, STATUS_CONFLICT, STATUS_FORBIDDEN, STATUS_INTERNAL_SERVER_ERROR,
    STATUS_NOT_FOUND, STATUS_NOT_MODIFIED, STATUS_OK, STATUS_UNAUTHORIZED,
};

verus! {

/// The text of the media type `application/json`, as `mime` renders it.
///
/// Trusted: `mime::APPLICATION_JSON` is declared in `mime` with the source
/// text `application/json`, which `AsRef<str>` gives back.
#[verifier::external_body]
fn application_json_media_type() -> (r: String)
    ensures
        r@ == "application/json"@,
{
    String::from(mime::APPLICATION_JSON.as_ref())
}

/// What `chrono` writes for the instant `unix_seconds` (plus `subsec_nanos`)
/// in the HTTP date layout `%a, %d %b %Y %H:%M:%S GMT`, or `None` when
/// `chrono` cannot represent the instant.
pub uninterp spec fn http_date_text_of(unix_seconds: i64, subsec_nanos: u32) -> Option<Seq<char>>;

/// The digit character for `n` (`0` to `9`).
pub open spec fn digit_char(n: int) -> char {
    (48 + n) as char
}

/// `n` (`0` to `99`) written with two digits.
pub open spec fn two_digits(n: int) -> Seq<char> {
    seq![digit_char(n / 10), digit_char(n % 10)]
}

/// `n` (`0` to `9999`) written with four digits.
pub open spec fn four_digits(n: int) -> Seq<char> {
    seq![digit_char(n / 1000), digit_char(n / 100 % 10), digit_char(n / 10 % 10), digit_char(n % 10)]
}

/// The English abbreviation of weekday `w` (0 is Sunday).
pub open spec fn weekday_name(w: int) -> Seq<char> {
    if w == 0 { "Sun"@ } else if w == 1 { "Mon"@ } else if w == 2 { "Tue"@ } else if w == 3 { "Wed"@ }
    else if w == 4 { "Thu"@ } else if w == 5 { "Fri"@ } else { "Sat"@ }
}

/// The English abbreviation of month `m` (1 is January).
pub open spec fn month_name(m: int) -> Seq<char> {
    if m == 1 { "Jan"@ } else if m == 2 { "Feb"@ } else if m == 3 { "Mar"@ } else if m == 4 { "Apr"@ }
    else if m == 5 { "May"@ } else if m == 6 { "Jun"@ } else if m == 7 { "Jul"@ } else if m == 8 { "Aug"@ }
    else if m == 9 { "Sep"@ } else if m == 10 { "Oct"@ } else if m == 11 { "Nov"@ } else { "Dec"@ }
}

/// The (year, month, day) of the proleptic Gregorian calendar that lies
/// `days` (at least 0) days after 1 January 1970.
pub open spec fn civil_date(days: int) -> (int, int, int) {
    let z = days + 719468;
    let era = z / 146097;
    let doe = z - era * 146097;
    let yoe = (doe - doe / 1460 + doe / 36524 - doe / 146096) / 365;
    let doy = doe - (365 * yoe + yoe / 4 - yoe / 100);
    let mp = (5 * doy + 2) / 153;
    let day = doy - (153 * mp + 2) / 5 + 1;
    let month = if mp < 10 { mp + 3 } else { mp - 9 };
    let year = yoe + era * 400 + if month <= 2 { 1int } else { 0int };
    (year, month, day)
}

/// The HTTP date (`Sun, 02 Oct 2016 14:44:11 GMT`) of the second `unix_seconds`
/// (from 1970 up to the end of 9999).
#[verifier::opaque]
pub open spec fn http_date_text(unix_seconds: int) -> Seq<char> {
    let days = unix_seconds / 86400;
    let second_of_day = unix_seconds % 86400;
    let (year, month, day) = civil_date(days);
    weekday_name((days + 4) % 7) + ", "@ + two_digits(day) + " "@ + month_name(month) + " "@ + four_digits(year) + " "@
        + two_digits(second_of_day / 3600) + ":"@ + two_digits(second_of_day % 3600 / 60) + ":"@ + two_digits(second_of_day % 60)
        + " GMT"@
}

/// Whether an instant lies from 1970 to the end of 9999, the years an HTTP date can name.
pub open spec fn in_http_date_range(unix_seconds: i64, subsec_nanos: u32) -> bool {
    0 <= unix_seconds <= LATEST_HTTP_DATE_SECONDS && subsec_nanos < 1_000_000_000
}

/// Writes an instant as an HTTP date (`Sun, 02 Oct 2016 14:44:11 GMT`) with
/// `chrono`'s `DateTime::from_timestamp` and `format`.
///
/// Trusted: the text is the named result of `chrono` on these arguments; by
/// `from_timestamp`'s documentation and source it is present for every
/// instant within `chrono`'s range (see [`is_representable`]). For instants
/// from 1970 to the end of 9999 the text is the layout filled with the civil
/// date and time ([`http_date_text`]); otherwise it is left to the name.
#[verifier::external_body]
fn format_http_date(unix_seconds: i64, subsec_nanos: u32) -> (r: Option<String>)
    ensures
        match r {
            Some(text) => http_date_text_of(unix_seconds, subsec_nanos) == Some(text@)
                && (in_http_date_range(unix_seconds, subsec_nanos) ==> text@ == http_date_text(unix_seconds as int)),
            None => http_date_text_of(unix_seconds, subsec_nanos) is None && !in_http_date_range(unix_seconds, subsec_nanos),
        },
        is_representable(Timestamp { unix_seconds, subsec_nanos }) ==> r is Some,
{
    match chrono::DateTime::from_timestamp(unix_seconds, subsec_nanos) {
        Some(time) => Some(time.format("%a, %d %b %Y %H:%M:%S GMT").to_string()),
        None => None,
    }
}

/// A header a response can carry besides the defaults.
#[derive(Clone, Copy, Debug, PartialEq, Eq, Structural)]
pub enum ResponseHeaderName {
    ContentType,
    LastModified,
}

/// A header and its value.
#[derive(Clone, Debug, PartialEq, Eq)]
pub struct ResponseHeader {
    pub name: ResponseHeaderName,
    pub value: String,
}

/// The header value of a `Last-Modified` header for `at`: its HTTP date
/// (for instants from 1970 to the end of 9999; otherwise what `chrono` writes).
pub open spec fn last_modified_value(at: Timestamp) -> Seq<char> {
    if 0 <= at.unix_seconds <= LATEST_HTTP_DATE_SECONDS {
        http_date_text(at.unix_seconds as int)
    } else {
        http_date_text_of(at.unix_seconds, at.subsec_nanos).unwrap()
    }
}

/// The value of the `Last-Modified` header for `at`.
pub fn construct_last_modified_header_value(at: &Timestamp) -> (r: String)
    requires
        is_representable(*at),
    ensures
        r@ == last_modified_value(*at),
{
    match format_http_date(at.unix_seconds, at.subsec_nanos) {
        Some(text) => text,
        None => {
            vstd::pervasive::unreached()
        },
    }
}

/// A response being built.
pub struct EndpointResponseBuilder {
    status_code: u16,
    body: Option<Result<Vec<u8>, String>>,
    additional_headers: Vec<ResponseHeader>,
}

/// The model of a response being built: its status code, its body (the
/// serialised bytes, or the description of the serialisation failure), and
/// the extra headers in the order they were added, by name and value.
pub struct ResponseModel {
    pub status_code: u16,
    pub body: Option<Result<Seq<u8>, Seq<char>>>,
    pub headers: Seq<(ResponseHeaderName, Seq<char>)>,
}

/// The names and values of `headers`.
pub open spec fn headers_view(headers: Seq<ResponseHeader>) -> Seq<(ResponseHeaderName, Seq<char>)> {
    headers.map_values(|h: ResponseHeader| (h.name, h.value@))
}

impl View for EndpointResponseBuilder {
    type V = ResponseModel;

    closed spec fn view(&self) -> ResponseModel {
        ResponseModel {
            status_code: self.status_code,
            body: match self.body {
                None => None,
                Some(Ok(bytes)) => Some(Ok(bytes@)),
                Some(Err(e)) => Some(Err(e@)),
            },
            headers: headers_view(self.additional_headers@),
        }
    }
}

/// A finished response.
#[derive(Clone, Debug, PartialEq, Eq)]
pub struct BuiltResponse {
    pub status_code: u16,
    pub headers: Vec<ResponseHeader>,
    pub body: Option<Vec<u8>>,
}

impl EndpointResponseBuilder {
    /// A response with `status_code`, no body and no extra headers.
    pub fn new(status_code: u16) -> (r: Self)
        ensures
            r@.status_code == status_code,
            r@.body is None,
            r@.headers == Seq::<(ResponseHeaderName, Seq<char>)>::empty(),
    {
        let r = EndpointResponseBuilder { status_code, body: None, additional_headers: Vec::new() };
        assert(r@.headers =~= Seq::<(ResponseHeaderName, Seq<char>)>::empty());
        r
    }

    /// `200 OK`.
    pub fn ok() -> (r: Self)
        ensures
            r@.status_code == STATUS_OK && r@.body is None && r@.headers.len() == 0,
    {
        Self::new(STATUS_OK)
    }

    /// `400 Bad Request`.
    pub fn bad_request() -> (r: Self)
        ensures
            r@.status_code == STATUS_BAD_REQUEST && r@.body is None && r@.headers.len() == 0,
    {
        Self::new(STATUS_BAD_REQUEST)
    }

    /// `403 Forbidden`.
    pub fn forbidden() -> (r: Self)
        ensures
            r@.status_code == STATUS_FORBIDDEN && r@.body is None && r@.headers.len() == 0,
    {
        Self::new(STATUS_FORBIDDEN)
    }

    /// `401 Unauthorized`.
    pub fn unauthorized() -> (r: Self)
        ensures
            r@.status_code == STATUS_UNAUTHORIZED && r@.body is None && r@.headers.len() == 0,
    {
        Self::new(STATUS_UNAUTHORIZED)
    }

    /// `409 Conflict`.
    pub fn conflict() -> (r: Self)
        ensures
            r@.status_code == STATUS_CONFLICT && r@.body is None && r@.headers.len() == 0,
    {
        Self::new(STATUS_CONFLICT)
    }

    /// `404 Not Found`.
    pub fn not_found() -> (r: Self)
        ensures
            r@.status_code == STATUS_NOT_FOUND && r@.body is None && r@.headers.len() == 0,
    {
        Self::new(STATUS_NOT_FOUND)
    }

    /// `304 Not Modified`.
    pub fn not_modified() -> (r: Self)
        ensures
            r@.status_code == STATUS_NOT_MODIFIED && r@.body is None && r@.headers.len() == 0,
    {
        Self::new(STATUS_NOT_MODIFIED)
    }

    /// `500 Internal Server Error`.
    pub fn internal_server_error() -> (r: Self)
        ensures
            r@.status_code == STATUS_INTERNAL_SERVER_ERROR && r@.body is None && r@.headers.len() == 0,
    {
        Self::new(STATUS_INTERNAL_SERVER_ERROR)
    }

    /// Sets the JSON body: the serialised bytes, or why serialising failed;
    /// adds a `Content-Type: application/json` header.
    pub fn with_json_body(self, serialized: Result<Vec<u8>, String>) -> (r: Self)
        ensures
            r@.status_code == self@.status_code,
            r@.body == Some(match serialized {
                Ok(bytes) => Ok::<Seq<u8>, Seq<char>>(bytes@),
                Err(e) => Err(e@),
            }),
            r@.headers == self@.headers.push((ResponseHeaderName::ContentType, "application/json"@)),
    {
        let mut headers = self.additional_headers;
        let ghost before = headers@;
        headers.push(ResponseHeader { name: ResponseHeaderName::ContentType, value: application_json_media_type() });
        let r = EndpointResponseBuilder { status_code: self.status_code, body: Some(serialized), additional_headers: headers };
        assert(headers_view(r.additional_headers@) =~= headers_view(before).push((ResponseHeaderName::ContentType, "application/json"@)));
        r
    }

    /// Sets the body to the error-reason body, given as its serialised bytes
    /// (or why serialising failed); the same as [`Self::with_json_body`].
    pub fn with_error_reason(self, serialized_reason: Result<Vec<u8>, String>) -> (r: Self)
        ensures
            r@.status_code == self@.status_code,
            r@.body == Some(match serialized_reason {
                Ok(bytes) => Ok::<Seq<u8>, Seq<char>>(bytes@),
                Err(e) => Err(e@),
            }),
            r@.headers == self@.headers.push((ResponseHeaderName::ContentType, "application/json"@)),
    {
        self.with_json_body(serialized_reason)
    }

    /// Adds a `Last-Modified` header for `at`.
    pub fn with_last_modified_at(self, at: &Timestamp) -> (r: Self)
        requires
            is_representable(*at),
        ensures
            r@.status_code == self@.status_code,
            r@.body == self@.body,
            r@.headers == self@.headers.push((ResponseHeaderName::LastModified, last_modified_value(*at))),
    {
        let mut headers = self.additional_headers;
        let ghost before = headers@;
        headers.push(ResponseHeader { name: ResponseHeaderName::LastModified, value: construct_last_modified_header_value(at) });
        let r = EndpointResponseBuilder { status_code: self.status_code, body: self.body, additional_headers: headers };
        assert(headers_view(r.additional_headers@) =~= headers_view(before).push((ResponseHeaderName::LastModified, last_modified_value(*at))));
        r
    }

    /// Finishes the response. A body that failed to serialise turns into an
    /// internal error carrying the serialisation failure; otherwise the
    /// response has the status code, the headers in the order they were
    /// added, and the body if one was set.
    pub fn build(self) -> (r: Result<BuiltResponse, EndpointError>)
        ensures
            match self@.body {
                Some(Err(description)) => r matches Err(EndpointError::InternalGenericError { description: d }) && d@ == description,
                _ => r matches Ok(response) && response.status_code == self@.status_code
                    && headers_view(response.headers@) == self@.headers
                    && match self@.body {
                        Some(Ok(bytes)) => response.body matches Some(b) && b@ == bytes,
                        _ => response.body is None,
                    },
            },
    {
        match self.body {
            Some(Err(description)) => Err(EndpointError::internal_error(description)),
            Some(Ok(bytes)) => Ok(BuiltResponse { status_code: self.status_code, headers: self.additional_headers, body: Some(bytes) }),
            None => Ok(BuiltResponse { status_code: self.status_code, headers: self.additional_headers, body: None }),
        }
    }
}

} // verus!
