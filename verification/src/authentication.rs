//! Caller authentication and the access checks endpoints start with.

use vstd::prelude::*;
use vstd::string::*;
use crate::models::Timestamp;
use crate::permissions::{blanket_granted, Permission};
use crate::plan::{ask_guard, holds_guard, Check, Guard, Probe};
use crate::reasons::ErrorReason;
use crate::responses::{reason_reply, Reply, STATUS_FORBIDDEN, STATUS_UNAUTHORIZED};
use crate::text::text_starts_with;

verus! {

/// The kind of a JSON web token.
#[derive(Clone, Copy, Debug, PartialEq, Eq, Structural)]
pub enum JwtTokenType {
    Access,
    Refresh,
}

/// The claims carried by a JSON web token.
#[derive(Clone, Copy, Debug, PartialEq, Eq, Structural)]
pub struct JwtClaims {
    pub user_id: u128,
    pub issued_at: Timestamp,
    pub expires_at: Timestamp,
    pub token_type: JwtTokenType,
}

/// What the request told about the caller. Holding this does not mean the
/// caller is authenticated: see [`UserAuthenticationExtractor::authenticated_user`].
#[derive(Clone, Copy, Debug, PartialEq, Eq, Structural)]
pub enum UserAuthenticationExtractor {
    /// No authentication was provided.
    Unauthenticated,
    /// A valid access token was provided.
    Authenticated { token: JwtClaims },
}

/// A caller who provided a valid token.
#[derive(Clone, Copy, Debug, PartialEq, Eq, Structural)]
pub struct AuthenticatedUser {
    pub token: JwtClaims,
}

impl AuthenticatedUser {
    /// When the token was issued, i.e. when the user logged in.
    pub fn logged_in_at(&self) -> (r: Timestamp)
        ensures
            r == self.token.issued_at,
    {
        self.token.issued_at
    }

    /// When the token expires.
    pub fn login_expires_at(&self) -> (r: Timestamp)
        ensures
            r == self.token.expires_at,
    {
        self.token.expires_at
    }

    /// The ID of the user who owns the token.
    pub fn user_id(&self) -> (r: u128)
        ensures
            r == self.token.user_id,
    {
        self.token.user_id
    }
}

/// The authenticated user, if the caller is authenticated.
pub open spec fn authenticated_user_of(e: UserAuthenticationExtractor) -> Option<AuthenticatedUser> {
    match e {
        UserAuthenticationExtractor::Unauthenticated => None,
        UserAuthenticationExtractor::Authenticated { token } => Some(AuthenticatedUser { token }),
    }
}

impl UserAuthenticationExtractor {
    /// The authenticated user, if the caller provided a token.
    pub fn authenticated_user(&self) -> (r: Option<AuthenticatedUser>)
        ensures
            r == authenticated_user_of(*self),
    {
        match self {
            UserAuthenticationExtractor::Unauthenticated => None,
            UserAuthenticationExtractor::Authenticated { token } => Some(AuthenticatedUser { token: *token }),
        }
    }

    /// Whether `permission` is granted to every caller, authenticated or not.
    pub fn is_permission_granted_to_all(&self, permission: Permission) -> (r: bool)
        ensures
            r == blanket_granted(permission),
    {
        permission.is_blanket_granted()
    }
}

/// The reply for a caller who did not authenticate.
pub open spec fn missing_authentication_reply() -> Reply {
    reason_reply(STATUS_UNAUTHORIZED, ErrorReason::MissingAuthentication)
}

/// The reply for a caller who lacks `permission`.
pub open spec fn missing_permission_reply(permission: Permission) -> Reply {
    reason_reply(STATUS_FORBIDDEN, ErrorReason::MissingPermission { permission })
}

/// The guard requiring that the caller authenticated.
pub open spec fn authentication_guard(e: UserAuthenticationExtractor) -> Guard {
    holds_guard(e is Authenticated, Ok(missing_authentication_reply()))
}

/// The guard requiring that user `user_id` has `permission`, counting blanket grants.
pub open spec fn user_permission_guard(user_id: u128, permission: Permission) -> Guard {
    if blanket_granted(permission) {
        holds_guard(true, Ok(missing_permission_reply(permission)))
    } else {
        ask_guard(Probe::UserHasPermission { user_id, permission }, true, Ok(missing_permission_reply(permission)))
    }
}

/// The guard requiring `permission` of the caller, authenticated or not:
/// an unauthenticated caller passes only for blanket-granted permissions.
pub open spec fn optional_authentication_permission_guard(e: UserAuthenticationExtractor, permission: Permission) -> Guard {
    match e {
        UserAuthenticationExtractor::Unauthenticated =>
            holds_guard(blanket_granted(permission), Ok(missing_permission_reply(permission))),
        UserAuthenticationExtractor::Authenticated { token } => user_permission_guard(token.user_id, permission),
    }
}

/// The guards requiring an authenticated caller who has `permission`.
pub open spec fn authentication_and_permission_guards(e: UserAuthenticationExtractor, permission: Permission) -> Seq<Guard> {
    match e {
        UserAuthenticationExtractor::Unauthenticated => seq![authentication_guard(e)],
        UserAuthenticationExtractor::Authenticated { token } =>
            seq![authentication_guard(e), user_permission_guard(token.user_id, permission)],
    }
}

/// A permission check that admits callers without authentication admits
/// exactly the blanket-granted permissions for them, and lets an
/// authenticated caller through on a blanket-granted permission without asking
/// the database.
pub proof fn lemma_blanket_grants_need_no_authentication(e: UserAuthenticationExtractor, permission: Permission, db: spec_fn(Probe) -> bool)
    ensures
        e is Unauthenticated ==> (crate::plan::guard_holds(optional_authentication_permission_guard(e, permission), db) <==> blanket_granted(permission)),
        blanket_granted(permission) ==> crate::plan::guard_holds(optional_authentication_permission_guard(e, permission), db),
        blanket_granted(permission) ==> optional_authentication_permission_guard(e, permission).check == Check::Holds(true),
{
}

/// Whether the caller is authenticated and has `permission` (counting blanket
/// grants), when the database answers questions by `db`.
pub open spec fn authenticated_caller_has(e: UserAuthenticationExtractor, permission: Permission, db: spec_fn(Probe) -> bool) -> bool {
    match e {
        UserAuthenticationExtractor::Unauthenticated => false,
        UserAuthenticationExtractor::Authenticated { token } =>
            blanket_granted(permission) || db(Probe::UserHasPermission { user_id: token.user_id, permission }),
    }
}

/// Whether the caller, authenticated or not, has `permission`: an
/// unauthenticated caller has exactly the blanket-granted permissions.
pub open spec fn any_caller_has(e: UserAuthenticationExtractor, permission: Permission, db: spec_fn(Probe) -> bool) -> bool {
    match e {
        UserAuthenticationExtractor::Unauthenticated => blanket_granted(permission),
        UserAuthenticationExtractor::Authenticated { token } =>
            blanket_granted(permission) || db(Probe::UserHasPermission { user_id: token.user_id, permission }),
    }
}

/// The access checks let a caller through exactly when the caller has the
/// permission: the authenticated checks only an authenticated one.
pub proof fn lemma_access_checks_hold(e: UserAuthenticationExtractor, permission: Permission, db: spec_fn(Probe) -> bool)
    ensures
        crate::plan::all_hold(authentication_and_permission_guards(e, permission), db) <==> authenticated_caller_has(e, permission, db),
        crate::plan::guard_holds(optional_authentication_permission_guard(e, permission), db) <==> any_caller_has(e, permission, db),
{
    let gs = authentication_and_permission_guards(e, permission);
    match e {
        UserAuthenticationExtractor::Unauthenticated => {
            assert(gs[0] == authentication_guard(e));
            assert(!crate::plan::guard_holds(gs[0], db));
        },
        UserAuthenticationExtractor::Authenticated { token } => {
            crate::plan::lemma_all_hold_small(authentication_guard(e), user_permission_guard(token.user_id, permission), authentication_guard(e), db);
        },
    }
}

/// The guard requiring that the caller authenticated.
pub fn require_user_authentication(e: &UserAuthenticationExtractor) -> (g: Guard)
    ensures
        g == authentication_guard(*e),
{
    let authenticated = match e {
        UserAuthenticationExtractor::Unauthenticated => false,
        UserAuthenticationExtractor::Authenticated { .. } => true,
    };
    Guard {
        check: Check::Holds(authenticated),
        rejection: Ok(Reply::with_reason(STATUS_UNAUTHORIZED, ErrorReason::MissingAuthentication)),
    }
}

/// The guard requiring that user `user_id` has `permission`, counting blanket grants.
pub fn require_permission_on_user(user_id: u128, permission: Permission) -> (g: Guard)
    ensures
        g == user_permission_guard(user_id, permission),
{
    let rejection = Ok(Reply::with_reason(STATUS_FORBIDDEN, ErrorReason::MissingPermission { permission }));
    if permission.is_blanket_granted() {
        Guard { check: Check::Holds(true), rejection }
    } else {
        Guard { check: Check::Ask { probe: Probe::UserHasPermission { user_id, permission }, pass_when: true }, rejection }
    }
}

/// The guard requiring `permission` of the caller, authenticated or not.
pub fn require_permission_with_optional_authentication(e: &UserAuthenticationExtractor, permission: Permission) -> (g: Guard)
    ensures
        g == optional_authentication_permission_guard(*e, permission),
{
    match e {
        UserAuthenticationExtractor::Unauthenticated => Guard {
            check: Check::Holds(permission.is_blanket_granted()),
            rejection: Ok(Reply::with_reason(STATUS_FORBIDDEN, ErrorReason::MissingPermission { permission })),
        },
        UserAuthenticationExtractor::Authenticated { token } => require_permission_on_user(token.user_id, permission),
    }
}

/// Appends the guards requiring an authenticated caller who has `permission`.
pub fn require_user_authentication_and_permission(
    guards: &mut Vec<Guard>,
    e: &UserAuthenticationExtractor,
    permission: Permission,
)
    ensures
        final(guards)@ == old(guards)@ + authentication_and_permission_guards(*e, permission),
{
    guards.push(require_user_authentication(e));
    match e {
        UserAuthenticationExtractor::Unauthenticated => {},
        UserAuthenticationExtractor::Authenticated { token } => {
            guards.push(require_permission_on_user(token.user_id, permission));
        },
    }
    assert(guards@ =~= old(guards)@ + authentication_and_permission_guards(*e, permission));
}

/// What the `Authorization` header told about the caller.
#[derive(Clone, Debug, PartialEq, Eq)]
pub enum AuthorizationHeader {
    /// No `Authorization` header was sent.
    Absent,
    /// The header does not hold a `Bearer` token.
    Malformed,
    /// The header holds this token.
    BearerToken(String),
}

/// The token of an `Authorization: Bearer <token>` header value.
pub open spec fn bearer_token_of(value: Seq<char>) -> Option<Seq<char>> {
    let prefix = seq!['B', 'e', 'a', 'r', 'e', 'r', ' '];
    if prefix.len() <= value.len() && value.subrange(0, prefix.len() as int) == prefix {
        Some(value.subrange(prefix.len() as int, value.len() as int))
    } else {
        None
    }
}

/// Interprets the `Authorization` header: `None` when it was not sent,
/// `Some(None)` when its value is not visible ASCII text, `Some(Some(text))` otherwise.
pub fn parse_authorization_header(header: Option<Option<&str>>) -> (r: AuthorizationHeader)
    ensures
        header is None ==> r == AuthorizationHeader::Absent,
        header matches Some(None) ==> r == AuthorizationHeader::Malformed,
        header matches Some(Some(text)) ==> (match bearer_token_of(text@) {
            Some(token) => r matches AuthorizationHeader::BearerToken(t) && t@ == token,
            None => r == AuthorizationHeader::Malformed,
        }),
{
    match header {
        None => AuthorizationHeader::Absent,
        Some(None) => AuthorizationHeader::Malformed,
        Some(Some(text)) => {
            let prefix = "Bearer ";
            proof {
                reveal_strlit("Bearer ");
                assert(prefix@ =~= seq!['B', 'e', 'a', 'r', 'e', 'r', ' ']);
            }
            if text_starts_with(text, prefix) {
                let n = text.unicode_len();
                let token = text.substring_char(7, n);
                AuthorizationHeader::BearerToken(String::from_str(token))
            } else {
                AuthorizationHeader::Malformed
            }
        },
    }
}

/// The result of decoding a bearer token.
#[derive(Clone, Debug, PartialEq, Eq)]
pub enum TokenDecoding {
    Valid(JwtClaims),
    Expired(JwtClaims),
    Invalid { reason: String },
}

/// Why a request's authentication was refused.
#[derive(Clone, Copy, Debug, PartialEq, Eq, Structural)]
pub enum AuthenticationRejection {
    /// The `Authorization` header could not be parsed (`400 Bad Request`).
    MalformedHeader,
    /// The token has expired (`403 Forbidden`).
    ExpiredToken,
    /// The token is not a valid token (`400 Bad Request`).
    InvalidToken,
}

/// The caller's authentication, given the token decoding (if a token was sent).
pub open spec fn authentication_outcome(decoding: Option<TokenDecoding>) -> Result<UserAuthenticationExtractor, AuthenticationRejection> {
    match decoding {
        None => Ok(UserAuthenticationExtractor::Unauthenticated),
        Some(TokenDecoding::Valid(token)) => Ok(UserAuthenticationExtractor::Authenticated { token }),
        Some(TokenDecoding::Expired(_)) => Err(AuthenticationRejection::ExpiredToken),
        Some(TokenDecoding::Invalid { .. }) => Err(AuthenticationRejection::InvalidToken),
    }
}

/// Decides the caller's authentication. `decoding` is the result of decoding
/// the bearer token, or `None` when no `Authorization` header was sent.
pub fn authenticate(decoding: Option<TokenDecoding>) -> (r: Result<UserAuthenticationExtractor, AuthenticationRejection>)
    ensures
        r == authentication_outcome(decoding),
{
    match decoding {
        None => Ok(UserAuthenticationExtractor::Unauthenticated),
        Some(TokenDecoding::Valid(token)) => Ok(UserAuthenticationExtractor::Authenticated { token }),
        Some(TokenDecoding::Expired(_)) => Err(AuthenticationRejection::ExpiredToken),
        Some(TokenDecoding::Invalid { .. }) => Err(AuthenticationRejection::InvalidToken),
    }
}

/// The status code and message sent when authentication is refused.
pub open spec fn authentication_rejection_response(r: AuthenticationRejection) -> (u16, Seq<char>) {
    match r {
        AuthenticationRejection::MalformedHeader => (400u16, "Invalid header."@),
        AuthenticationRejection::ExpiredToken => (403u16, "Authentication token expired."@),
        AuthenticationRejection::InvalidToken => (400u16, "Invalid token."@),
    }
}

impl AuthenticationRejection {
    /// The status code and message sent for this rejection.
    pub fn response(&self) -> (r: (u16, &'static str))
        ensures
            (r.0, r.1@) == authentication_rejection_response(*self),
    {
        match self {
            AuthenticationRejection::MalformedHeader => (400, "Invalid header."),
            AuthenticationRejection::ExpiredToken => (403, "Authentication token expired."),
            AuthenticationRejection::InvalidToken => (400, "Invalid token."),
        }
    }
}

} // verus!
