use kolomoni::authentication::{authenticate, parse_authorization_header, AuthenticationRejection, AuthorizationHeader, TokenDecoding, UserAuthenticationExtractor};
use kolomoni::docs::{
    And, AsErrorReason, ExampleBody, FailedAuthenticationResponses, IfModifiedSince, InternalServerError, MissingAuthentication,
    MissingPermissions, PermissionRequirement, RequiredJsonBodyErrors, Unmodified, UuidUrlParameterError,
};
use kolomoni::ids::{parse_string_into_uuid, parse_uuid, uuid_from_parse_result};
use kolomoni::models::UserPermissionsResponse;
use kolomoni::payload::{json_payload_error, JsonErrorCategory, JsonPayloadFailure};
use kolomoni::permissions::Permission;
use kolomoni::reasons::{ErrorReason, InvalidJsonBodyReason};
use kolomoni::responses::{into_reply, EndpointError, Reply, ReplyBody};

#[test]
fn missing_permissions_description_lists_the_permissions() {
    let one = MissingPermissions::responses(&vec![Permission::WordCreate]);
    assert_eq!(one[0].status, 403);
    assert_eq!(one[0].description, "Missing a required permission: `word:create`.");
    let three = MissingPermissions::responses(&vec![Permission::WordCreate, Permission::WordUpdate, Permission::CategoryRead]);
    assert_eq!(
        three[0].description,
        "Missing one or more of the required permissions: `word:create`, `word:update`, `category:read`."
    );
    let examples = three[0].examples.as_ref().unwrap();
    assert_eq!(examples.len(), 3);
    assert_eq!(examples[1].summary, "Missing permission: `word:update`");
    assert_eq!(examples[1].body, ExampleBody::Reason(ErrorReason::MissingPermission { permission: Permission::WordUpdate }));
}

#[test]
fn requirements_list_their_permissions_left_to_right() {
    assert_eq!(PermissionRequirement::Single(Permission::UserSelfRead).permissions(), vec![Permission::UserSelfRead]);
    let pair = And { left: PermissionRequirement::Single(Permission::UserSelfRead), right: PermissionRequirement::Single(Permission::UserSelfWrite) };
    assert_eq!(pair.permissions(), vec![Permission::UserSelfRead, Permission::UserSelfWrite]);
    let inner = And { left: PermissionRequirement::Single(Permission::UserSelfRead), right: PermissionRequirement::Single(Permission::UserAnyWrite) };
    let nested = And {
        left: PermissionRequirement::All(Box::new(inner)),
        right: PermissionRequirement::Single(Permission::CategoryCreate),
    };
    assert_eq!(nested.permissions(), vec![Permission::UserSelfRead, Permission::UserAnyWrite, Permission::CategoryCreate]);
}

#[test]
fn fixed_responses() {
    assert_eq!(Unmodified::responses()[0].status, 304);
    assert_eq!(InternalServerError::responses()[0].description, "Internal server error.");
    assert_eq!(MissingAuthentication::responses()[0].status, 401);
    let json = RequiredJsonBodyErrors::responses();
    assert_eq!(json[0].status, 400);
    assert_eq!(json[0].examples.as_ref().unwrap().len(), 4);
    assert_eq!(UuidUrlParameterError::responses()[0].examples.as_ref().unwrap()[0].body, ExampleBody::Reason(ErrorReason::InvalidUuidFormat));
    let params = IfModifiedSince::into_params();
    assert_eq!(params[0].name, "If-Modified-Since");
    assert!(!params[0].required);
    assert!(!kolomoni::docs::IfModifiedSinceParameter::into_params()[0].required);
    let failed = FailedAuthenticationResponses::responses(Permission::WordDelete);
    assert_eq!(failed[1].description, "Missing the `word:delete` permission.");
    assert_eq!(failed[1].examples.as_ref().unwrap()[0].body, ExampleBody::ReasonText("Missing permission: word:delete.".into()));
    let named = AsErrorReason::response("User not found.", ErrorReason::MissingAuthentication);
    assert_eq!(named.name, "Reason");
    assert_eq!(named.examples[0].summary, "Reason: missing authentication");
}

#[test]
fn json_payload_failures_map_to_reasons() {
    assert_eq!(json_payload_error(JsonPayloadFailure::ContentType), EndpointError::MissingJsonBody);
    for category in [JsonErrorCategory::Io, JsonErrorCategory::Syntax, JsonErrorCategory::Eof] {
        assert_eq!(
            json_payload_error(JsonPayloadFailure::Deserialize(category)),
            EndpointError::InvalidJsonBody { reason: InvalidJsonBodyReason::NotJson }
        );
    }
    assert_eq!(
        json_payload_error(JsonPayloadFailure::Deserialize(JsonErrorCategory::Data)),
        EndpointError::InvalidJsonBody { reason: InvalidJsonBodyReason::InvalidData }
    );
    assert_eq!(json_payload_error(JsonPayloadFailure::Overflow), EndpointError::InvalidJsonBody { reason: InvalidJsonBodyReason::TooLarge });
    assert_eq!(
        json_payload_error(JsonPayloadFailure::Other { description: "Payload(x)".into() }),
        EndpointError::InternalErrorWithReason { reason: "Unhandled JSON error: Payload(x)".into() }
    );
    assert_eq!(
        json_payload_error(JsonPayloadFailure::Serialize { error: "E".into(), request: "R".into() }),
        EndpointError::InternalErrorWithReason { reason: "Failed to serialize to JSON: E. Request: R".into() }
    );
}

#[test]
fn uuids_parse_through_the_uuid_crate() {
    assert_eq!(parse_uuid("67e55044-10b1-426f-9247-bb680e5fe0c8"), Ok(0x67e5504410b1426f9247bb680e5fe0c8));
    assert_eq!(parse_uuid("67e5504410b1426f9247bb680e5fe0c8"), Ok(0x67e5504410b1426f9247bb680e5fe0c8));
    let error = parse_uuid("67e55044").unwrap_err();
    match error {
        EndpointError::InvalidUuidFormat { description } => assert!(!description.is_empty()),
        other => panic!("unexpected {:?}", other),
    }
    assert_eq!(parse_string_into_uuid("0000000000000000000000000000000a"), Ok(10));
    assert_eq!(parse_string_into_uuid("x").unwrap_err().body, ReplyBody::Text("invalid UUID"));
    assert_eq!(uuid_from_parse_result(Err("bad".into())), Err(EndpointError::InvalidUuidFormat { description: "bad".into() }));
}

#[test]
fn errors_become_replies() {
    assert_eq!(
        into_reply(Err(EndpointError::MissingJsonBody)),
        Reply { status: 400, body: ReplyBody::Reason(ErrorReason::MissingJsonBody), last_modified: None }
    );
    assert_eq!(into_reply(Err(EndpointError::InternalDatabaseError { description: "x".into() })).status, 500);
    assert_eq!(EndpointError::MissingJsonBody.status_code(), 400);
    assert_eq!(
        EndpointError::InvalidDatabaseState { problem: "p".into() }.message(),
        "Inconsistent internal database state: p"
    );
    assert_eq!(UserPermissionsResponse::from_permission_names(vec!["word:read".into()]).permissions, vec!["word:read".to_string()]);
}

#[test]
fn authorization_header_and_token_outcomes() {
    assert_eq!(parse_authorization_header(None), AuthorizationHeader::Absent);
    assert_eq!(parse_authorization_header(Some(Some("Bearer abc"))), AuthorizationHeader::BearerToken("abc".into()));
    assert_eq!(parse_authorization_header(Some(Some("Basic abc"))), AuthorizationHeader::Malformed);
    assert_eq!(parse_authorization_header(Some(None)), AuthorizationHeader::Malformed);
    assert_eq!(authenticate(None), Ok(UserAuthenticationExtractor::Unauthenticated));
    assert_eq!(
        authenticate(Some(TokenDecoding::Invalid { reason: "x".into() })),
        Err(AuthenticationRejection::InvalidToken)
    );
    assert_eq!(AuthenticationRejection::ExpiredToken.response(), (403, "Authentication token expired."));
}
