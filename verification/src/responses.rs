//! Endpoint outcomes: the replies endpoints send and the errors they fail with.

use vstd::prelude::*;
use crate::models::{
    CategoriesResponse, CategoryCreationResponse, CategoryResponse, PingResponse,
    RegisteredUsersListResponse, Timestamp, UserDisplayNameChangeResponse, UserInfoResponse,
    UserLoginRefreshResponse, UserLoginResponse, UserPermissionsResponse, UserRegistrationResponse,
    UserRolesResponse, WordMeaningRecord, WordMeaningWithDetails, WordRecord, WordWithMeanings,
};
use crate::reasons::{ErrorReason, InvalidJsonBodyReason};

verus! {

pub const STATUS_OK: u16 = 200;
pub const STATUS_NOT_MODIFIED: u16 = 304;
pub const STATUS_BAD_REQUEST: u16 = 400;
pub const STATUS_UNAUTHORIZED: u16 = 401;
pub const STATUS_FORBIDDEN: u16 = 403;
pub const STATUS_NOT_FOUND: u16 = 404;
pub const STATUS_CONFLICT: u16 = 409;
pub const STATUS_INTERNAL_SERVER_ERROR: u16 = 500;

/// The JSON body of a reply.
#[derive(Clone, Debug, PartialEq, Eq)]
pub enum ReplyBody {
    Empty,
    Reason(ErrorReason),
    /// A free-text reason.
    Message(String),
    /// A fixed free-text reason.
    Text(&'static str),
    Ping(PingResponse),
    UserInfo(UserInfoResponse),
    UserDisplayNameChanged(UserDisplayNameChangeResponse),
    UserRegistered(UserRegistrationResponse),
    UserRoles(UserRolesResponse),
    UserPermissions(UserPermissionsResponse),
    UsersList(RegisteredUsersListResponse),
    LoginTokens(UserLoginResponse),
    RefreshedToken(UserLoginRefreshResponse),
    CategoryCreated(CategoryCreationResponse),
    Categories(CategoriesResponse),
    Category(CategoryResponse),
    WordCreated(WordRecord),
    WordInfo(WordWithMeanings),
    Words(Vec<WordWithMeanings>),
    MeaningCreated(WordMeaningRecord),
    MeaningUpdated(WordMeaningRecord),
    Meanings(Vec<WordMeaningWithDetails>),
}

/// A reply of an endpoint: status code, body and (optionally) the time the
/// returned resource was last modified, sent as the `Last-Modified` header.
#[derive(Clone, Debug, PartialEq, Eq)]
pub struct Reply {
    pub status: u16,
    pub body: ReplyBody,
    pub last_modified: Option<Timestamp>,
}

/// The reply with the given status code and error reason.
pub open spec fn reason_reply(status: u16, reason: ErrorReason) -> Reply {
    Reply { status, body: ReplyBody::Reason(reason), last_modified: None }
}

/// The reply with the given status code and body.
pub open spec fn body_reply(status: u16, body: ReplyBody) -> Reply {
    Reply { status, body, last_modified: None }
}

impl Reply {
    /// A reply carrying an error reason.
    pub fn with_reason(status: u16, reason: ErrorReason) -> (r: Reply)
        ensures
            r == reason_reply(status, reason),
    {
        Reply { status, body: ReplyBody::Reason(reason), last_modified: None }
    }

    /// A reply carrying a body.
    pub fn with_body(status: u16, body: ReplyBody) -> (r: Reply)
        ensures
            r == body_reply(status, body),
    {
        Reply { status, body, last_modified: None }
    }

    /// A `200 OK` reply without a body.
    pub fn ok_empty() -> (r: Reply)
        ensures
            r == body_reply(STATUS_OK, ReplyBody::Empty),
    {
        Reply { status: STATUS_OK, body: ReplyBody::Empty, last_modified: None }
    }
}

/// The most general failure of an endpoint.
#[derive(Clone, Debug, PartialEq, Eq)]
pub enum EndpointError {
    /// A JSON body was expected but none was sent (or `Content-Type` was wrong).
    MissingJsonBody,
    /// The JSON body could not be used.
    InvalidJsonBody { reason: InvalidJsonBodyReason },
    /// A UUID in the request was malformed.
    InvalidUuidFormat { description: String },
    /// An internal error, described by a reason that is never exposed.
    InternalErrorWithReason { reason: String },
    /// An internal error raised by some other component.
    InternalGenericError { description: String },
    /// An internal error raised by the database.
    InternalDatabaseError { description: String },
    /// The database was found in an inconsistent state.
    InvalidDatabaseState { problem: String },
}

/// The status code of an endpoint error.
pub open spec fn error_status_code(e: EndpointError) -> u16 {
    match e {
        EndpointError::MissingJsonBody => STATUS_BAD_REQUEST,
        EndpointError::InvalidJsonBody { .. } => STATUS_BAD_REQUEST,
        EndpointError::InvalidUuidFormat { .. } => STATUS_BAD_REQUEST,
        _ => STATUS_INTERNAL_SERVER_ERROR,
    }
}

/// The reply sent for an endpoint error. Client errors carry their reason;
/// internal errors are sent as a bare `500 Internal Server Error`.
pub open spec fn error_reply(e: EndpointError) -> Reply {
    match e {
        EndpointError::MissingJsonBody => reason_reply(STATUS_BAD_REQUEST, ErrorReason::MissingJsonBody),
        EndpointError::InvalidJsonBody { reason } =>
            reason_reply(STATUS_BAD_REQUEST, ErrorReason::InvalidJsonBody { reason }),
        EndpointError::InvalidUuidFormat { .. } => reason_reply(STATUS_BAD_REQUEST, ErrorReason::InvalidUuidFormat),
        _ => body_reply(STATUS_INTERNAL_SERVER_ERROR, ReplyBody::Empty),
    }
}

/// The status code of every endpoint error is the status of the reply sent
/// for it; client errors (a missing or unusable body, a malformed UUID) are
/// `400 Bad Request`, all others `500 Internal Server Error`.
pub proof fn lemma_status_code_matches_reply(e: EndpointError)
    ensures
        error_status_code(e) == error_reply(e).status,
        (e is MissingJsonBody || e is InvalidJsonBody || e is InvalidUuidFormat) <==> error_status_code(e) == STATUS_BAD_REQUEST,
{
}

/// The text describing an endpoint error (used for logging only).
pub open spec fn error_message(e: EndpointError) -> Seq<char> {
    match e {
        EndpointError::MissingJsonBody => "Expected a JSON body."@,
        EndpointError::InvalidJsonBody { reason } => match reason {
            InvalidJsonBodyReason::NotJson => "Invalid JSON body: not JSON."@,
            InvalidJsonBodyReason::InvalidData => "Invalid JSON body: invalid data."@,
            InvalidJsonBodyReason::TooLarge => "Invalid JSON body: too large."@,
        },
        EndpointError::InvalidUuidFormat { description } =>
            "Invalid UUID format: "@ + description@ + "."@,
        EndpointError::InternalErrorWithReason { reason } =>
            "Internal server error (with reason): "@ + reason@ + "."@,
        EndpointError::InternalGenericError { description } =>
            "Internal server error (generic): "@ + description@,
        EndpointError::InternalDatabaseError { description } =>
            "Internal server error (database error): "@ + description@ + "."@,
        EndpointError::InvalidDatabaseState { problem } =>
            "Inconsistent internal database state: "@ + problem@,
    }
}

impl EndpointError {
    /// The error for a request without the expected JSON body.
    pub fn missing_json_body() -> (r: Self)
        ensures
            r == EndpointError::MissingJsonBody,
    {
        EndpointError::MissingJsonBody
    }

    /// The error for an unusable JSON body.
    pub fn invalid_json_body(reason: InvalidJsonBodyReason) -> (r: Self)
        ensures
            r == (EndpointError::InvalidJsonBody { reason }),
    {
        EndpointError::InvalidJsonBody { reason }
    }

    /// An internal error raised by another component, given its description.
    pub fn internal_error(description: String) -> (r: Self)
        ensures
            r == (EndpointError::InternalGenericError { description }),
    {
        EndpointError::InternalGenericError { description }
    }

    /// An internal error raised by the database, given its description.
    pub fn internal_database_error(description: String) -> (r: Self)
        ensures
            r == (EndpointError::InternalDatabaseError { description }),
    {
        EndpointError::InternalDatabaseError { description }
    }

    /// An internal error described by a reason.
    pub fn internal_error_with_reason(reason: &str) -> (r: Self)
        ensures
            r matches EndpointError::InternalErrorWithReason { reason: text } && text@ == reason@,
    {
        EndpointError::InternalErrorWithReason { reason: String::from_str(reason) }
    }

    /// An error reporting that the database is in an inconsistent state.
    pub fn invalid_database_state(problem: &str) -> (r: Self)
        ensures
            r matches EndpointError::InvalidDatabaseState { problem: text } && text@ == problem@,
    {
        EndpointError::InvalidDatabaseState { problem: String::from_str(problem) }
    }

    /// A copy of this error.
    pub fn duplicate(&self) -> (r: Self)
        ensures
            r == *self,
    {
        match self {
            EndpointError::MissingJsonBody => EndpointError::MissingJsonBody,
            EndpointError::InvalidJsonBody { reason } => EndpointError::InvalidJsonBody { reason: *reason },
            EndpointError::InvalidUuidFormat { description } => EndpointError::InvalidUuidFormat { description: description.clone() },
            EndpointError::InternalErrorWithReason { reason } => EndpointError::InternalErrorWithReason { reason: reason.clone() },
            EndpointError::InternalGenericError { description } => EndpointError::InternalGenericError { description: description.clone() },
            EndpointError::InternalDatabaseError { description } => EndpointError::InternalDatabaseError { description: description.clone() },
            EndpointError::InvalidDatabaseState { problem } => EndpointError::InvalidDatabaseState { problem: problem.clone() },
        }
    }

    /// The status code of this error: the status of the reply sent for it.
    pub fn status_code(&self) -> (r: u16)
        ensures
            r == error_status_code(*self),
            r == error_reply(*self).status,
    {
        match self {
            EndpointError::MissingJsonBody => STATUS_BAD_REQUEST,
            EndpointError::InvalidJsonBody { .. } => STATUS_BAD_REQUEST,
            EndpointError::InvalidUuidFormat { .. } => STATUS_BAD_REQUEST,
            _ => STATUS_INTERNAL_SERVER_ERROR,
        }
    }

    /// The reply sent for this error.
    pub fn error_response(&self) -> (r: Reply)
        ensures
            r == error_reply(*self),
    {
        match self {
            EndpointError::MissingJsonBody => Reply::with_reason(STATUS_BAD_REQUEST, ErrorReason::MissingJsonBody),
            EndpointError::InvalidJsonBody { reason } =>
                Reply::with_reason(STATUS_BAD_REQUEST, ErrorReason::InvalidJsonBody { reason: *reason }),
            EndpointError::InvalidUuidFormat { .. } => Reply::with_reason(STATUS_BAD_REQUEST, ErrorReason::InvalidUuidFormat),
            _ => Reply::with_body(STATUS_INTERNAL_SERVER_ERROR, ReplyBody::Empty),
        }
    }

    /// The text describing this error.
    pub fn message(&self) -> (r: String)
        ensures
            r@ == error_message(*self),
    {
        match self {
            EndpointError::MissingJsonBody => String::from_str("Expected a JSON body."),
            EndpointError::InvalidJsonBody { reason } => match reason {
                InvalidJsonBodyReason::NotJson => String::from_str("Invalid JSON body: not JSON."),
                InvalidJsonBodyReason::InvalidData => String::from_str("Invalid JSON body: invalid data."),
                InvalidJsonBodyReason::TooLarge => String::from_str("Invalid JSON body: too large."),
            },
            EndpointError::InvalidUuidFormat { description } => {
                let mut m = String::from_str("Invalid UUID format: ");
                m.append(description.as_str());
                m.append(".");
                m
            },
            EndpointError::InternalErrorWithReason { reason } => {
                let mut m = String::from_str("Internal server error (with reason): ");
                m.append(reason.as_str());
                m.append(".");
                m
            },
            EndpointError::InternalGenericError { description } => {
                let mut m = String::from_str("Internal server error (generic): ");
                m.append(description.as_str());
                m
            },
            EndpointError::InternalDatabaseError { description } => {
                let mut m = String::from_str("Internal server error (database error): ");
                m.append(description.as_str());
                m.append(".");
                m
            },
            EndpointError::InvalidDatabaseState { problem } => {
                let mut m = String::from_str("Inconsistent internal database state: ");
                m.append(problem.as_str());
                m
            },
        }
    }
}

/// Requires that a mutation inside a transaction affected its row: a mutation
/// that affects nothing after the row was just checked to exist means the
/// database is inconsistent.
pub fn require_mutation_applied(applied: bool, problem: &str) -> (r: Result<(), EndpointError>)
    ensures
        applied ==> r is Ok,
        !applied ==> (r matches Err(EndpointError::InvalidDatabaseState { problem: text }) && text@ == problem@),
{
    if applied {
        Ok(())
    } else {
        Err(EndpointError::invalid_database_state(problem))
    }
}

/// Why a database query failed.
#[derive(Clone, Debug, PartialEq, Eq)]
pub enum QueryError {
    /// The database driver failed.
    SqlxError { description: String },
    /// A stored value could not be turned into a model.
    ModelError { reason: String },
    /// The stored data contradicts itself.
    DatabaseInconsistencyError { problem: String },
}

/// Why a query about users failed.
#[derive(Clone, Debug, PartialEq, Eq)]
pub enum UserQueryError {
    /// The database driver failed.
    SqlxError { description: String },
    /// A stored value could not be turned into a model.
    ModelError { reason: String },
    /// Hashing a password failed.
    HasherError { description: String },
    /// The stored data contradicts itself.
    DatabaseConsistencyError { reason: String },
}

/// The endpoint error for a failed query.
pub open spec fn query_error_to_endpoint_error(e: QueryError) -> EndpointError {
    match e {
        QueryError::SqlxError { description } => EndpointError::InternalDatabaseError { description },
        QueryError::ModelError { reason } => EndpointError::InternalErrorWithReason { reason },
        QueryError::DatabaseInconsistencyError { problem } => EndpointError::InternalErrorWithReason { reason: problem },
    }
}

/// The endpoint error for a failed query about users.
pub open spec fn user_query_error_to_endpoint_error(e: UserQueryError) -> EndpointError {
    match e {
        UserQueryError::SqlxError { description } => EndpointError::InternalDatabaseError { description },
        UserQueryError::ModelError { reason } => EndpointError::InternalErrorWithReason { reason },
        UserQueryError::HasherError { description } => EndpointError::InternalGenericError { description },
        UserQueryError::DatabaseConsistencyError { reason } => EndpointError::InternalErrorWithReason { reason },
    }
}

impl From<QueryError> for EndpointError {
    /// A failed query is an internal error: a driver failure is a database
    /// error, the others carry their reason.
    fn from(e: QueryError) -> (r: Self) {
        match e {
            QueryError::SqlxError { description } => EndpointError::InternalDatabaseError { description },
            QueryError::ModelError { reason } => EndpointError::InternalErrorWithReason { reason },
            QueryError::DatabaseInconsistencyError { problem } => EndpointError::InternalErrorWithReason { reason: problem },
        }
    }
}

impl vstd::std_specs::convert::FromSpecImpl<QueryError> for EndpointError {
    open spec fn obeys_from_spec() -> bool {
        true
    }

    open spec fn from_spec(e: QueryError) -> Self {
        query_error_to_endpoint_error(e)
    }
}

impl From<UserQueryError> for EndpointError {
    /// A failed query about users is an internal error: a driver failure is a
    /// database error, a hashing failure a generic one, the others carry their reason.
    fn from(e: UserQueryError) -> (r: Self) {
        match e {
            UserQueryError::SqlxError { description } => EndpointError::InternalDatabaseError { description },
            UserQueryError::ModelError { reason } => EndpointError::InternalErrorWithReason { reason },
            UserQueryError::HasherError { description } => EndpointError::InternalGenericError { description },
            UserQueryError::DatabaseConsistencyError { reason } => EndpointError::InternalErrorWithReason { reason },
        }
    }
}

impl vstd::std_specs::convert::FromSpecImpl<UserQueryError> for EndpointError {
    open spec fn obeys_from_spec() -> bool {
        true
    }

    open spec fn from_spec(e: UserQueryError) -> Self {
        user_query_error_to_endpoint_error(e)
    }
}

/// What an endpoint ends with: a reply, or an error turned into one by [`error_reply`].
pub type EndpointResult = Result<Reply, EndpointError>;

/// The reply finally sent for an endpoint result.
pub open spec fn final_reply(r: EndpointResult) -> Reply {
    match r {
        Ok(reply) => reply,
        Err(e) => error_reply(e),
    }
}

/// The reply finally sent for an endpoint result.
pub fn into_reply(r: EndpointResult) -> (out: Reply)
    ensures
        out == final_reply(r),
{
    match r {
        Ok(reply) => reply,
        Err(e) => e.error_response(),
    }
}

} // verus!
