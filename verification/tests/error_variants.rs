use kolomoni::authentication::{authenticate, AuthenticationRejection, JwtClaims, JwtTokenType, TokenDecoding, UserAuthenticationExtractor};
use kolomoni::conditional::IfModifiedSinceHeaderError;
use kolomoni::migrations::RollbackAndReapplyError;
use kolomoni::models::Timestamp;
use kolomoni::reasons::{ErrorReason, InvalidJsonBodyReason, LoginErrorReason, UsersErrorReason};
use kolomoni::responses::{into_reply, EndpointError, QueryError, ReplyBody, UserQueryError};
use kolomoni::roles::Role;

#[test]
fn every_endpoint_error_has_its_status_message_and_reply() {
    let cases = vec![
        (EndpointError::missing_json_body(), 400, "Expected a JSON body.", 400),
        (EndpointError::invalid_json_body(InvalidJsonBodyReason::NotJson), 400, "Invalid JSON body: not JSON.", 400),
        (EndpointError::invalid_json_body(InvalidJsonBodyReason::InvalidData), 400, "Invalid JSON body: invalid data.", 400),
        (EndpointError::invalid_json_body(InvalidJsonBodyReason::TooLarge), 400, "Invalid JSON body: too large.", 400),
        (EndpointError::InvalidUuidFormat { description: "bad".into() }, 400, "Invalid UUID format: bad.", 400),
        (EndpointError::internal_error_with_reason("why"), 500, "Internal server error (with reason): why.", 500),
        (EndpointError::internal_error("what".into()), 500, "Internal server error (generic): what", 500),
        (EndpointError::internal_database_error("db".into()), 500, "Internal server error (database error): db.", 500),
        (EndpointError::invalid_database_state("state"), 500, "Inconsistent internal database state: state", 500),
    ];
    for (error, status, message, reply_status) in cases {
        assert_eq!(error.status_code(), status);
        assert_eq!(error.message(), message);
        assert_eq!(error.duplicate(), error);
        assert_eq!(error.error_response().status, reply_status);
        assert_eq!(into_reply(Err(error)).status, reply_status);
    }
    assert_eq!(
        EndpointError::from(QueryError::SqlxError { description: "io".into() }),
        EndpointError::InternalDatabaseError { description: "io".into() }
    );
    assert_eq!(
        EndpointError::from(QueryError::DatabaseInconsistencyError { problem: "p".into() }),
        EndpointError::InternalErrorWithReason { reason: "p".into() }
    );
    assert_eq!(
        EndpointError::from(QueryError::ModelError { reason: "m".into() }),
        EndpointError::InternalErrorWithReason { reason: "m".into() }
    );
    assert_eq!(
        EndpointError::from(UserQueryError::HasherError { description: "h".into() }),
        EndpointError::InternalGenericError { description: "h".into() }
    );
    assert_eq!(
        EndpointError::from(UserQueryError::DatabaseConsistencyError { reason: "c".into() }),
        EndpointError::InternalErrorWithReason { reason: "c".into() }
    );
    assert_eq!(
        EndpointError::from(UserQueryError::SqlxError { description: "s".into() }),
        EndpointError::InternalDatabaseError { description: "s".into() }
    );
    assert_eq!(
        EndpointError::from(UserQueryError::ModelError { reason: "r".into() }),
        EndpointError::InternalErrorWithReason { reason: "r".into() }
    );
    assert_eq!(
        EndpointError::invalid_json_body(InvalidJsonBodyReason::TooLarge).error_response().body,
        ReplyBody::Reason(ErrorReason::InvalidJsonBody { reason: InvalidJsonBodyReason::TooLarge })
    );
}

#[test]
fn reason_descriptions() {
    assert_eq!(ErrorReason::MissingJsonBody.reason_description(), "missing JSON body");
    assert_eq!(ErrorReason::Login(LoginErrorReason::ExpiredRefreshToken).reason_description(), "expired refresh token");
    assert_eq!(
        ErrorReason::Users(UsersErrorReason::UnableToGiveOutUnownedRole { role: Role::Administrator }).reason_description(),
        "unable to give out unowned role"
    );
}

#[test]
fn every_authentication_rejection() {
    let at = Timestamp { unix_seconds: 0, subsec_nanos: 0 };
    let claims = JwtClaims { user_id: 1, issued_at: at, expires_at: at, token_type: JwtTokenType::Access };
    assert_eq!(authenticate(Some(TokenDecoding::Valid(claims))), Ok(UserAuthenticationExtractor::Authenticated { token: claims }));
    assert_eq!(authenticate(Some(TokenDecoding::Expired(claims))), Err(AuthenticationRejection::ExpiredToken));
    assert_eq!(AuthenticationRejection::MalformedHeader.response(), (400, "Invalid header."));
    assert_eq!(AuthenticationRejection::InvalidToken.response(), (400, "Invalid token."));
    let user = UserAuthenticationExtractor::Authenticated { token: claims }.authenticated_user().unwrap();
    assert_eq!(user.user_id(), 1);
    assert_eq!(user.logged_in_at(), at);
    assert_eq!(user.login_expires_at(), at);
    assert!(UserAuthenticationExtractor::Unauthenticated.authenticated_user().is_none());
}

#[test]
fn every_reset_error_message() {
    let m = |s: &str| s.to_string();
    let cases = vec![
        (RollbackAndReapplyError::StatusError { description: m("x") }, "failed to get migration status"),
        (RollbackAndReapplyError::MissingRollbackScript { migration: m("M1") }, "migration M1 does not have a rollback script"),
        (
            RollbackAndReapplyError::UnableToRollbackPrivilegedMigration { migration: m("M2") },
            "unable to rollback through a non-leading privileged migration: M2",
        ),
        (RollbackAndReapplyError::DatabaseError { description: m("x") }, "database error encountered"),
        (RollbackAndReapplyError::MigrationIntegrityError { reason: m("r") }, "migration integrity error: r"),
        (RollbackAndReapplyError::MigrationRollbackError { migration: m("M3"), description: m("x") }, "failed to rollback migration M3"),
        (RollbackAndReapplyError::MigrationApplyError { migration: m("M4"), description: m("x") }, "failed to apply migration M4"),
    ];
    for (error, message) in cases {
        assert_eq!(error.message(), message);
    }
    assert_ne!(IfModifiedSinceHeaderError::NotVisibleAscii, IfModifiedSinceHeaderError::NotAnHttpDate);
}
