//! The API documentation of shared responses and parameters: which status
//! codes endpoints may answer with, what they mean, and example bodies.
//!
//! These are plain descriptions; turning them into an OpenAPI document is
//! left to the server.

use vstd::prelude::*;
use vstd::string::*;
use crate::permissions::{permission_name, Permission};
use crate::reasons::{reason_description, ErrorReason, InvalidJsonBodyReason};

verus! {

/// The body of an example response.
#[derive(Clone, Debug, PartialEq, Eq)]
pub enum ExampleBody {
    /// The standard error body carrying a reason.
    Reason(ErrorReason),
    /// An error body with a free-text reason.
    ReasonText(String),
}

/// One example response.
#[derive(Clone, Debug, PartialEq, Eq)]
pub struct ExampleDoc {
    pub summary: String,
    pub description: Option<String>,
    pub body: ExampleBody,
}

/// One documented response.
#[derive(Clone, Debug, PartialEq, Eq)]
pub struct ResponseDoc {
    pub status: u16,
    pub description: String,
    /// Example JSON bodies; `None` when the response has no body.
    pub examples: Option<Vec<ExampleDoc>>,
}

/// One documented request parameter.
#[derive(Clone, Debug, PartialEq, Eq)]
pub struct HeaderParameterDoc {
    pub name: String,
    pub description: String,
    pub example: String,
    pub required: bool,
}

/// Whether `doc` is a response with status `status`, description
/// `description` and no body.
pub open spec fn is_plain_response(doc: ResponseDoc, status: u16, description: Seq<char>) -> bool {
    doc.status == status && doc.description@ == description && doc.examples is None
}

/// The text of the `If-Modified-Since` header's documentation.
pub open spec fn if_modified_since_description() -> Seq<char> {
    "If specified, this header makes the server return `304 Not Modified` without content (instead of `200 OK` with the usual response) if the requested data hasn't changed since the specified timestamp.\n\n See [this article on MDN](https://developer.mozilla.org/en-US/docs/Web/HTTP/Headers/If-Modified-Since) for more information about this conditional header."@
}

fn if_modified_since_parameter() -> (r: Vec<HeaderParameterDoc>)
    ensures
        r@.len() == 1,
        r@[0].name@ == "If-Modified-Since"@,
        r@[0].description@ == if_modified_since_description(),
        r@[0].example@ == "Wed, 21 Oct 2015 07:28:00 GMT"@,
        !r@[0].required,
{
    vec![HeaderParameterDoc {
        name: String::from_str("If-Modified-Since"),
        description: String::from_str(
            "If specified, this header makes the server return `304 Not Modified` without content (instead of `200 OK` with the usual response) if the requested data hasn't changed since the specified timestamp.\n\n See [this article on MDN](https://developer.mozilla.org/en-US/docs/Web/HTTP/Headers/If-Modified-Since) for more information about this conditional header.",
        ),
        example: String::from_str("Wed, 21 Oct 2015 07:28:00 GMT"),
        required: false,
    }]
}

/// The `If-Modified-Since` request header.
pub struct IfModifiedSince;

impl IfModifiedSince {
    /// The documented parameters: the optional `If-Modified-Since` header.
    pub fn into_params() -> (r: Vec<HeaderParameterDoc>)
        ensures
            r@.len() == 1,
            r@[0].name@ == "If-Modified-Since"@,
            r@[0].description@ == if_modified_since_description(),
            r@[0].example@ == "Wed, 21 Oct 2015 07:28:00 GMT"@,
            !r@[0].required,
    {
        if_modified_since_parameter()
    }
}

/// The `If-Modified-Since` request header (older name).
pub struct IfModifiedSinceParameter;

impl IfModifiedSinceParameter {
    /// The documented parameters: the optional `If-Modified-Since` header.
    pub fn into_params() -> (r: Vec<HeaderParameterDoc>)
        ensures
            r@.len() == 1,
            r@[0].name@ == "If-Modified-Since"@,
            r@[0].description@ == if_modified_since_description(),
            r@[0].example@ == "Wed, 21 Oct 2015 07:28:00 GMT"@,
            !r@[0].required,
    {
        if_modified_since_parameter()
    }
}

fn plain_response(status: u16, description: &str) -> (r: Vec<ResponseDoc>)
    ensures
        r@.len() == 1,
        is_plain_response(r@[0], status, description@),
{
    vec![ResponseDoc { status, description: String::from_str(description), examples: None }]
}

/// The description of the `304 Not Modified` response.
pub open spec fn unmodified_description() -> Seq<char> {
    "Resource hasn't been modified since the timestamp specified in the `If-Modified-Since` header. As such, this status code can only be returned if that header is provided in the request."@
}

/// The `304 Not Modified` response of conditional requests.
pub struct Unmodified;

impl Unmodified {
    /// The documented responses: `304` without a body.
    pub fn responses() -> (r: Vec<ResponseDoc>)
        ensures
            r@.len() == 1,
            is_plain_response(r@[0], 304, unmodified_description()),
    {
        plain_response(
            304,
            "Resource hasn't been modified since the timestamp specified in the `If-Modified-Since` header. As such, this status code can only be returned if that header is provided in the request.",
        )
    }
}

/// The `304 Not Modified` response of conditional requests (older name).
pub struct UnmodifiedConditionalResponse;

impl UnmodifiedConditionalResponse {
    /// The documented responses: `304` without a body.
    pub fn responses() -> (r: Vec<ResponseDoc>)
        ensures
            r@.len() == 1,
            is_plain_response(r@[0], 304, unmodified_description()),
    {
        plain_response(
            304,
            "Resource hasn't been modified since the timestamp specified in the `If-Modified-Since` header. As such, this status code can only be returned if that header is provided in the request.",
        )
    }
}

/// The `500 Internal Server Error` response.
pub struct InternalServerError;

impl InternalServerError {
    /// The documented responses: `500` without a body.
    pub fn responses() -> (r: Vec<ResponseDoc>)
        ensures
            r@.len() == 1,
            is_plain_response(r@[0], 500, "Internal server error."@),
    {
        plain_response(500, "Internal server error.")
    }
}

/// The `500 Internal Server Error` response (older name).
pub struct InternalServerErrorResponse;

impl InternalServerErrorResponse {
    /// The documented responses: `500` without a body.
    pub fn responses() -> (r: Vec<ResponseDoc>)
        ensures
            r@.len() == 1,
            is_plain_response(r@[0], 500, "Internal server error."@),
    {
        plain_response(500, "Internal server error.")
    }
}

/// The `401 Unauthorized` response for a request without authentication.
pub struct MissingAuthentication;

impl MissingAuthentication {
    /// The documented responses: `401` without a body.
    pub fn responses() -> (r: Vec<ResponseDoc>)
        ensures
            r@.len() == 1,
            is_plain_response(r@[0], 401, "Missing user authentication, provide an `Authorization: Bearer your-token-here` header."@),
    {
        plain_response(401, "Missing user authentication, provide an `Authorization: Bearer your-token-here` header.")
    }
}

/// Whether `e` is an example with this summary, optional description and body.
pub open spec fn is_example(e: ExampleDoc, summary: Seq<char>, description: Option<Seq<char>>, body: ExampleBody) -> bool {
    &&& e.summary@ == summary
    &&& match (e.description, description) {
        (Some(d), Some(expected)) => d@ == expected,
        (None, None) => true,
        _ => false,
    }
    &&& e.body == body
}

fn example(summary: &str, description: Option<&str>, body: ExampleBody) -> (r: ExampleDoc)
    ensures
        is_example(r, summary@, match description { Some(d) => Some(d@), None => None }, body),
{
    ExampleDoc {
        summary: String::from_str(summary),
        description: match description {
            Some(d) => Some(String::from_str(d)),
            None => None,
        },
        body,
    }
}

/// The `400 Bad Request` responses for a missing or unusable JSON body.
pub struct RequiredJsonBodyErrors;

impl RequiredJsonBodyErrors {
    /// The documented responses: one `400` response with an example for each
    /// way a JSON body can be refused: missing, not JSON, not matching the
    /// schema, too large.
    pub fn responses() -> (r: Vec<ResponseDoc>)
        ensures
            r@.len() == 1,
            r@[0].status == 400,
            r@[0].description@ == "Invalid (or missing) JSON body. An expected JSON body can be invalid due to either the JSON syntax itself not being valid, or because the data itself (the schema) is invalid. Additionally, the server will refuse to process JSON payloads that exceed the configured maximum size (though this should be exceedingly rare)."@,
            r@[0].examples matches Some(examples) && examples@.len() == 4
                && is_example(examples@[0], "Missing JSON body (either no body or `Content-Type` header is incorrect)"@,
                    Some("The JSON body or the associated `Content-Type: application/json` header is missing. Both are required for the server to acknowledge and parse the body as JSON."@),
                    ExampleBody::Reason(ErrorReason::MissingJsonBody))
                && is_example(examples@[1], "Invalid JSON body (invalid JSON syntax)"@,
                    Some("The provided JSON body is either not valid JSON at all, or there was an IO/EOF error while reading the contents."@),
                    ExampleBody::Reason(ErrorReason::InvalidJsonBody { reason: InvalidJsonBodyReason::NotJson }))
                && is_example(examples@[2], "Invalid JSON schema (valid JSON, but invalid data)"@,
                    Some("The provided JSON body is valid JSON, but its data doesn't match the expected schema for the given endpoint."@),
                    ExampleBody::Reason(ErrorReason::InvalidJsonBody { reason: InvalidJsonBodyReason::InvalidData }))
                && is_example(examples@[3], "Body is too large"@,
                    Some("The provided request body is too large."@),
                    ExampleBody::Reason(ErrorReason::InvalidJsonBody { reason: InvalidJsonBodyReason::TooLarge })),
    {
        let mut examples: Vec<ExampleDoc> = Vec::new();
        examples.push(example(
            "Missing JSON body (either no body or `Content-Type` header is incorrect)",
            Some("The JSON body or the associated `Content-Type: application/json` header is missing. Both are required for the server to acknowledge and parse the body as JSON."),
            ExampleBody::Reason(ErrorReason::MissingJsonBody),
        ));
        examples.push(example(
            "Invalid JSON body (invalid JSON syntax)",
            Some("The provided JSON body is either not valid JSON at all, or there was an IO/EOF error while reading the contents."),
            ExampleBody::Reason(ErrorReason::InvalidJsonBody { reason: InvalidJsonBodyReason::NotJson }),
        ));
        examples.push(example(
            "Invalid JSON schema (valid JSON, but invalid data)",
            Some("The provided JSON body is valid JSON, but its data doesn't match the expected schema for the given endpoint."),
            ExampleBody::Reason(ErrorReason::InvalidJsonBody { reason: InvalidJsonBodyReason::InvalidData }),
        ));
        examples.push(example(
            "Body is too large",
            Some("The provided request body is too large."),
            ExampleBody::Reason(ErrorReason::InvalidJsonBody { reason: InvalidJsonBodyReason::TooLarge }),
        ));
        vec![ResponseDoc {
            status: 400,
            description: String::from_str(
                "Invalid (or missing) JSON body. An expected JSON body can be invalid due to either the JSON syntax itself not being valid, or because the data itself (the schema) is invalid. Additionally, the server will refuse to process JSON payloads that exceed the configured maximum size (though this should be exceedingly rare).",
            ),
            examples: Some(examples),
        }]
    }
}

/// The `400 Bad Request` response for a missing or unusable JSON body (older form).
pub struct MissingOrInvalidJsonRequestBodyResponse;

impl MissingOrInvalidJsonRequestBodyResponse {
    /// The documented responses: one `400` response with four examples.
    pub fn responses() -> (r: Vec<ResponseDoc>)
        ensures
            r@.len() == 1,
            r@[0].status == 400,
            r@[0].description@ == "Bad request due to an invalid JSON request body. Possible reasons:\n- `Content-Type` header is not specified or does not equal `application/json`.\n- Incorrect structure of the JSON body or invalid JSON in general.\n- Request body is too large (highly unlikely)."@,
            r@[0].examples matches Some(examples) && examples@.len() == 4
                && (examples@[0].body matches ExampleBody::ReasonText(t) && t@ == "Client error: non-JSON body. If your request body contains JSON, please signal that with the `Content-Type: application/json` header."@)
                && (examples@[1].body matches ExampleBody::ReasonText(t) && t@ == "Client error: invalid JSON body."@)
                && (examples@[2].body matches ExampleBody::ReasonText(t) && t@ == "Client error: invalid JSON body."@)
                && (examples@[3].body matches ExampleBody::ReasonText(t) && t@ == "Client error: request body is too large."@)
                && examples@[0].summary@ == "`Content-Type` header is missing or does not equal `application/json`."@
                && examples@[1].summary@ == "Provided request body does not contain valid JSON data."@
                && examples@[2].summary@ == "Provided request body does not matches the expected JSON structure (e.g. it's missing some fields or has a field of the incorrect type)."@
                && examples@[3].summary@ == "Provided request body is too large. Unlikely, but possible."@,
    {
        let mut examples: Vec<ExampleDoc> = Vec::new();
        examples.push(example(
            "`Content-Type` header is missing or does not equal `application/json`.",
            None,
            ExampleBody::ReasonText(String::from_str(
                "Client error: non-JSON body. If your request body contains JSON, please signal that with the `Content-Type: application/json` header.",
            )),
        ));
        examples.push(example(
            "Provided request body does not contain valid JSON data.",
            None,
            ExampleBody::ReasonText(String::from_str("Client error: invalid JSON body.")),
        ));
        examples.push(example(
            "Provided request body does not matches the expected JSON structure (e.g. it's missing some fields or has a field of the incorrect type).",
            None,
            ExampleBody::ReasonText(String::from_str("Client error: invalid JSON body.")),
        ));
        examples.push(example(
            "Provided request body is too large. Unlikely, but possible.",
            None,
            ExampleBody::ReasonText(String::from_str("Client error: request body is too large.")),
        ));
        vec![ResponseDoc {
            status: 400,
            description: String::from_str(
                "Bad request due to an invalid JSON request body. Possible reasons:\n- `Content-Type` header is not specified or does not equal `application/json`.\n- Incorrect structure of the JSON body or invalid JSON in general.\n- Request body is too large (highly unlikely).",
            ),
            examples: Some(examples),
        }]
    }
}

/// The `400 Bad Request` response for a malformed UUID in the URL.
pub struct UuidUrlParameterError;

impl UuidUrlParameterError {
    /// The documented responses: one `400` response with an example.
    pub fn responses() -> (r: Vec<ResponseDoc>)
        ensures
            r@.len() == 1,
            r@[0].status == 400,
            r@[0].description@ == "One of the expected URL parameters was an UUID (string), but it was in an invalid format."@,
            r@[0].examples matches Some(examples) && examples@.len() == 1
                && is_example(examples@[0], "Invalid UUID"@, Some("The provided value is not a valid UUID."@),
                    ExampleBody::Reason(ErrorReason::InvalidUuidFormat)),
    {
        let examples = vec![example("Invalid UUID", Some("The provided value is not a valid UUID."), ExampleBody::Reason(ErrorReason::InvalidUuidFormat))];
        vec![ResponseDoc {
            status: 400,
            description: String::from_str("One of the expected URL parameters was an UUID (string), but it was in an invalid format."),
            examples: Some(examples),
        }]
    }
}

/// A named, reusable response without a fixed status code.
#[derive(Clone, Debug, PartialEq, Eq)]
pub struct NamedResponseDoc {
    pub name: String,
    pub description: String,
    pub examples: Vec<ExampleDoc>,
}

/// A response documented by an error reason.
pub struct AsErrorReason;

impl AsErrorReason {
    /// The reusable response named `Reason` with `description`, whose one
    /// example carries `reason` and is titled after the reason's description.
    pub fn response(description: &str, reason: ErrorReason) -> (r: NamedResponseDoc)
        ensures
            r.name@ == "Reason"@,
            r.description@ == description@,
            r.examples@.len() == 1,
            is_example(r.examples@[0], "Reason: "@ + reason_description(reason), None, ExampleBody::Reason(reason)),
    {
        let mut summary = String::from_str("Reason: ");
        summary.append(reason.reason_description());
        let examples = vec![ExampleDoc { summary, description: None, body: ExampleBody::Reason(reason) }];
        NamedResponseDoc { name: String::from_str("Reason"), description: String::from_str(description), examples }
    }
}

// ---------------------------------------------------------------- required permissions

/// A requirement of one or more permissions, all of which must be held.
#[derive(Debug)]
pub enum PermissionRequirement {
    Single(Permission),
    All(Box<And>),
}

/// Two requirements that must both be met.
#[derive(Debug)]
pub struct And {
    pub left: PermissionRequirement,
    pub right: PermissionRequirement,
}

/// The permissions a requirement asks for, left to right.
pub open spec fn required_permissions(r: PermissionRequirement) -> Seq<Permission>
    decreases r,
{
    match r {
        PermissionRequirement::Single(p) => seq![p],
        PermissionRequirement::All(and) => required_permissions(and.left) + required_permissions(and.right),
    }
}

/// The permissions both requirements ask for, left to right.
pub open spec fn and_permissions(and: And) -> Seq<Permission> {
    required_permissions(and.left) + required_permissions(and.right)
}

fn requirement_permissions(r: &PermissionRequirement) -> (out: Vec<Permission>)
    ensures
        out@ == required_permissions(*r),
    decreases r,
{
    match r {
        PermissionRequirement::Single(p) => vec![*p],
        PermissionRequirement::All(and) => {
            let mut left = requirement_permissions(&and.left);
            let mut right = requirement_permissions(&and.right);
            left.append(&mut right);
            left
        },
    }
}

impl PermissionRequirement {
    /// The permissions this requirement asks for, left to right.
    pub fn permissions(&self) -> (r: Vec<Permission>)
        ensures
            r@ == required_permissions(*self),
    {
        requirement_permissions(self)
    }
}

impl And {
    /// The permissions both requirements ask for, left to right.
    pub fn permissions(&self) -> (r: Vec<Permission>)
        ensures
            r@ == and_permissions(*self),
    {
        let mut left = requirement_permissions(&self.left);
        let mut right = requirement_permissions(&self.right);
        left.append(&mut right);
        left
    }
}

/// A permission's name between backticks.
pub open spec fn quoted_name(p: Permission) -> Seq<char> {
    "`"@ + permission_name(p) + "`"@
}

/// The quoted names of `ps`, joined with `, `.
pub open spec fn quoted_names_joined(ps: Seq<Permission>) -> Seq<char>
    decreases ps.len(),
{
    if ps.len() == 0 {
        Seq::empty()
    } else if ps.len() == 1 {
        quoted_name(ps[0])
    } else {
        quoted_names_joined(ps.drop_last()) + ", "@ + quoted_name(ps.last())
    }
}

/// The quoted names of the permissions, joined with `, `.
pub fn join_quoted_names(ps: &Vec<Permission>) -> (r: String)
    ensures
        r@ == quoted_names_joined(ps@),
{
    let mut out = String::new();
    let mut i: usize = 0;
    while i < ps.len()
        invariant
            i <= ps@.len(),
            out@ == quoted_names_joined(ps@.take(i as int)),
        decreases ps@.len() - i,
    {
        let ghost before = out@;
        if i > 0 {
            out.append(", ");
        }
        out.append("`");
        out.append(ps[i].name());
        out.append("`");
        proof {
            let next = ps@.take(i + 1);
            assert(next.drop_last() =~= ps@.take(i as int));
            assert(next.last() == ps@[i as int]);
            if i == 0 {
                assert(out@ =~= quoted_name(ps@[0]));
            } else {
                assert(out@ =~= before + ", "@ + quoted_name(ps@[i as int]));
            }
        }
        i = i + 1;
    }
    assert(ps@.take(ps@.len() as int) =~= ps@);
    out
}

/// The description of the `403` response for missing one of `ps`.
pub open spec fn missing_permissions_description(ps: Seq<Permission>) -> Seq<char> {
    if ps.len() > 1 {
        "Missing one or more of the required permissions: "@ + quoted_names_joined(ps) + "."@
    } else {
        "Missing a required permission: "@ + quoted_names_joined(ps) + "."@
    }
}

/// The `403 Forbidden` response for a caller who lacks one of the required permissions.
pub struct MissingPermissions;

impl MissingPermissions {
    /// The documented responses for requiring `required`: one `403` response
    /// whose description names every required permission, with one example
    /// per permission, in order.
    pub fn responses(required: &Vec<Permission>) -> (r: Vec<ResponseDoc>)
        ensures
            r@.len() == 1,
            r@[0].status == 403,
            r@[0].description@ == missing_permissions_description(required@),
            r@[0].examples matches Some(examples) && examples@.len() == required@.len()
                && forall|i: int| 0 <= i < required@.len() ==> is_example(
                    #[trigger] examples@[i],
                    "Missing permission: "@ + quoted_name(required@[i]),
                    None,
                    ExampleBody::Reason(ErrorReason::MissingPermission { permission: required@[i] }),
                ),
    {
        let mut examples: Vec<ExampleDoc> = Vec::new();
        let mut i: usize = 0;
        while i < required.len()
            invariant
                i <= required@.len(),
                examples@.len() == i,
                forall|k: int| 0 <= k < i ==> is_example(
                    #[trigger] examples@[k],
                    "Missing permission: "@ + quoted_name(required@[k]),
                    None,
                    ExampleBody::Reason(ErrorReason::MissingPermission { permission: required@[k] }),
                ),
            decreases required@.len() - i,
        {
            let p = required[i];
            let mut summary = String::from_str("Missing permission: `");
            summary.append(p.name());
            summary.append("`");
            assert(summary@ =~= "Missing permission: "@ + quoted_name(p)) by {
                reveal_strlit("Missing permission: `");
                reveal_strlit("Missing permission: ");
                reveal_strlit("`");
            }
            examples.push(ExampleDoc {
                summary,
                description: None,
                body: ExampleBody::Reason(ErrorReason::MissingPermission { permission: p }),
            });
            i = i + 1;
        }
        let names = join_quoted_names(required);
        let mut description = if required.len() > 1 {
            String::from_str("Missing one or more of the required permissions: ")
        } else {
            String::from_str("Missing a required permission: ")
        };
        description.append(names.as_str());
        description.append(".");
        vec![ResponseDoc { status: 403, description, examples: Some(examples) }]
    }
}

/// The `401` and `403` responses of an endpoint that requires authentication
/// and `permission`.
pub struct FailedAuthenticationResponses;

impl FailedAuthenticationResponses {
    /// The documented responses: `401` without a body, and `403` naming the
    /// permission, with an example.
    pub fn responses(permission: Permission) -> (r: Vec<ResponseDoc>)
        ensures
            r@.len() == 2,
            is_plain_response(r@[0], 401, "Missing user authentication, provide an `Authorization: Bearer your_token_here` header."@),
            r@[1].status == 403,
            r@[1].description@ == "Missing the "@ + quoted_name(permission) + " permission."@,
            r@[1].examples matches Some(examples) && examples@.len() == 1
                && examples@[0].summary@ == "Missing permissions."@ && examples@[0].description is None
                && (examples@[0].body matches ExampleBody::ReasonText(t) && t@ == "Missing permission: "@ + permission_name(permission) + "."@),
    {
        let mut description = String::from_str("Missing the `");
        description.append(permission.name());
        description.append("` permission.");
        assert(description@ =~= "Missing the "@ + quoted_name(permission) + " permission."@) by {
            reveal_strlit("Missing the `");
            reveal_strlit("Missing the ");
            reveal_strlit("`");
            reveal_strlit("` permission.");
            reveal_strlit(" permission.");
        }
        let mut reason = String::from_str("Missing permission: ");
        reason.append(permission.name());
        reason.append(".");
        let examples = vec![ExampleDoc { summary: String::from_str("Missing permissions."), description: None, body: ExampleBody::ReasonText(reason) }];
        vec![
            ResponseDoc {
                status: 401,
                description: String::from_str("Missing user authentication, provide an `Authorization: Bearer your_token_here` header."),
                examples: None,
            },
            ResponseDoc { status: 403, description, examples: Some(examples) },
        ]
    }
}

} // verus!
