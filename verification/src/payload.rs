//! Turning failures to read a JSON request body into endpoint errors.

use vstd::prelude::*;
use vstd::string::*;
use crate::reasons::InvalidJsonBodyReason;
use crate::responses::EndpointError;

verus! {

/// What kind of JSON error a body failed to deserialise with.
#[derive(Clone, Copy, Debug, PartialEq, Eq, Structural)]
pub enum JsonErrorCategory {
    /// Reading the body failed.
    Io,
    /// The body is not syntactically valid JSON.
    Syntax,
    /// The body is valid JSON but does not match the expected structure.
    Data,
    /// The body ended in the middle of a JSON value.
    Eof,
}

/// Why a JSON request body could not be read.
#[derive(Clone, Debug, PartialEq, Eq)]
pub enum JsonPayloadFailure {
    /// The `Content-Type` header is missing or is not JSON.
    ContentType,
    /// Serialising a value failed (`error` and `request` describe what happened).
    Serialize { error: String, request: String },
    /// Deserialising the body failed.
    Deserialize(JsonErrorCategory),
    /// The body exceeds the size limit (with or without a known length).
    Overflow,
    /// Any other failure, described.
    Other { description: String },
}

/// The client error for a JSON body that could not be read, when the failure
/// lies with the request: a wrong content type, a body that is not JSON or does
/// not match the schema, an oversized body. `None` for the other failures,
/// which are internal errors.
pub open spec fn client_json_payload_error_of(failure: JsonPayloadFailure) -> Option<EndpointError> {
    match failure {
        JsonPayloadFailure::ContentType => Some(EndpointError::MissingJsonBody),
        JsonPayloadFailure::Deserialize(category) => Some(EndpointError::InvalidJsonBody {
            reason: match category {
                JsonErrorCategory::Data => InvalidJsonBodyReason::InvalidData,
                _ => InvalidJsonBodyReason::NotJson,
            },
        }),
        JsonPayloadFailure::Overflow => Some(EndpointError::InvalidJsonBody { reason: InvalidJsonBodyReason::TooLarge }),
        JsonPayloadFailure::Serialize { .. } => None,
        JsonPayloadFailure::Other { .. } => None,
    }
}

/// The endpoint error for a JSON body that could not be read: a wrong content
/// type means the body is missing; a body that is not JSON (I/O, syntax, early
/// end) or that does not match the schema is invalid for that reason; an
/// oversized body is too large; the other failures are internal errors whose
/// reason describes them.
pub fn json_payload_error(failure: JsonPayloadFailure) -> (r: EndpointError)
    ensures
        match failure {
            JsonPayloadFailure::Serialize { error, request } => r matches EndpointError::InternalErrorWithReason { reason }
                && reason@ == "Failed to serialize to JSON: "@ + error@ + ". Request: "@ + request@,
            JsonPayloadFailure::Other { description } => r matches EndpointError::InternalErrorWithReason { reason }
                && reason@ == "Unhandled JSON error: "@ + description@,
            _ => client_json_payload_error_of(failure) == Some(r),
        },
{
    match failure {
        JsonPayloadFailure::ContentType => EndpointError::missing_json_body(),
        JsonPayloadFailure::Serialize { error, request } => {
            let mut reason = String::from_str("Failed to serialize to JSON: ");
            reason.append(error.as_str());
            reason.append(". Request: ");
            reason.append(request.as_str());
            EndpointError::InternalErrorWithReason { reason }
        },
        JsonPayloadFailure::Deserialize(category) => match category {
            JsonErrorCategory::Io | JsonErrorCategory::Syntax | JsonErrorCategory::Eof =>
                EndpointError::invalid_json_body(InvalidJsonBodyReason::NotJson),
            JsonErrorCategory::Data => EndpointError::invalid_json_body(InvalidJsonBodyReason::InvalidData),
        },
        JsonPayloadFailure::Overflow => EndpointError::invalid_json_body(InvalidJsonBodyReason::TooLarge),
        JsonPayloadFailure::Other { description } => {
            let mut reason = String::from_str("Unhandled JSON error: ");
            reason.append(description.as_str());
            EndpointError::InternalErrorWithReason { reason }
        },
    }
}

} // verus!
