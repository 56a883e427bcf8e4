//! Logging in and refreshing logins: which tokens are issued, to whom, and for
//! how long.
//!
//! A login issues an access token valid for two hours and a refresh token
//! valid for seven days; a refresh token buys a new access token valid for
//! one day. Signing and decoding tokens is done elsewhere; this module decides
//! what goes into them and what is answered.

use vstd::prelude::*;
use crate::authentication::{JwtClaims, JwtTokenType, TokenDecoding};
use crate::models::{LATEST_TIMESTAMP_SECONDS, Timestamp, UserLoginRefreshResponse, UserLoginResponse};
use crate::reasons::{ErrorReason, LoginErrorReason};
use crate::responses::{body_reply, reason_reply, EndpointError, EndpointResult, Reply, ReplyBody, STATUS_BAD_REQUEST, STATUS_FORBIDDEN, STATUS_OK};

verus! {

/// How long an access token issued at login is valid: two hours.
pub const ACCESS_TOKEN_LIFETIME_SECONDS: i64 = 7200;
/// How long a refresh token issued at login is valid: seven days.
pub const REFRESH_TOKEN_LIFETIME_SECONDS: i64 = 604800;
/// How long an access token issued for a refresh token is valid: one day.
pub const REFRESHED_ACCESS_TOKEN_LIFETIME_SECONDS: i64 = 86400;

/// The claims of a token for `user_id` of kind `token_type`, issued at
/// `issued_at` and valid for `lifetime_seconds`.
pub open spec fn claims_for(user_id: u128, issued_at: Timestamp, lifetime_seconds: int, token_type: JwtTokenType) -> JwtClaims {
    JwtClaims {
        user_id,
        issued_at,
        expires_at: Timestamp { unix_seconds: (issued_at.unix_seconds + lifetime_seconds) as i64, subsec_nanos: issued_at.subsec_nanos },
        token_type,
    }
}

/// The claims of a new token (see [`claims_for`]).
pub fn create_claims(user_id: u128, issued_at: Timestamp, lifetime_seconds: i64, token_type: JwtTokenType) -> (r: JwtClaims)
    requires
        0 <= lifetime_seconds,
        issued_at.unix_seconds + lifetime_seconds <= LATEST_TIMESTAMP_SECONDS,
    ensures
        r == claims_for(user_id, issued_at, lifetime_seconds as int, token_type),
        r.expires_at.unix_seconds == r.issued_at.unix_seconds + lifetime_seconds,
{
    JwtClaims {
        user_id,
        issued_at,
        expires_at: Timestamp { unix_seconds: issued_at.unix_seconds + lifetime_seconds, subsec_nanos: issued_at.subsec_nanos },
        token_type,
    }
}

/// The tokens a login issues: an access and a refresh token.
#[derive(Clone, Copy, Debug, PartialEq, Eq, Structural)]
pub struct LoginClaims {
    pub access: JwtClaims,
    pub refresh: JwtClaims,
}

/// Decides a login. `user` is the ID of the user whose credentials matched,
/// or `None` when they did not; `now` is the time of the login. Wrong
/// credentials are answered `403 Forbidden`; otherwise both tokens are for
/// that user, issued now, the access token valid for two hours and the
/// refresh token for seven days.
pub fn login_decision(user: Option<u128>, now: Timestamp) -> (r: Result<LoginClaims, Reply>)
    requires
        now.unix_seconds + REFRESH_TOKEN_LIFETIME_SECONDS <= LATEST_TIMESTAMP_SECONDS,
    ensures
        user is None ==> r == Err::<LoginClaims, Reply>(reason_reply(STATUS_FORBIDDEN, ErrorReason::Login(LoginErrorReason::InvalidLoginCredentials))),
        user matches Some(id) ==> r == Ok::<LoginClaims, Reply>(LoginClaims {
            access: claims_for(id, now, ACCESS_TOKEN_LIFETIME_SECONDS as int, JwtTokenType::Access),
            refresh: claims_for(id, now, REFRESH_TOKEN_LIFETIME_SECONDS as int, JwtTokenType::Refresh),
        }),
{
    match user {
        None => Err(Reply::with_reason(STATUS_FORBIDDEN, ErrorReason::Login(LoginErrorReason::InvalidLoginCredentials))),
        Some(id) => Ok(LoginClaims {
            access: create_claims(id, now, ACCESS_TOKEN_LIFETIME_SECONDS, JwtTokenType::Access),
            refresh: create_claims(id, now, REFRESH_TOKEN_LIFETIME_SECONDS, JwtTokenType::Refresh),
        }),
    }
}

/// The reply carrying the signed tokens of a login.
pub fn login_reply(access_token: String, refresh_token: String) -> (r: EndpointResult)
    ensures
        r == Ok::<Reply, EndpointError>(body_reply(STATUS_OK, ReplyBody::LoginTokens(UserLoginResponse { access_token, refresh_token }))),
{
    Ok(Reply::with_body(STATUS_OK, ReplyBody::LoginTokens(UserLoginResponse { access_token, refresh_token })))
}

/// The reply refusing a refresh for `reason`: `403 Forbidden` for an expired
/// refresh token, `400 Bad Request` otherwise.
pub open spec fn refusal(reason: LoginErrorReason) -> Reply {
    match reason {
        LoginErrorReason::ExpiredRefreshToken => reason_reply(STATUS_FORBIDDEN, ErrorReason::Login(reason)),
        _ => reason_reply(STATUS_BAD_REQUEST, ErrorReason::Login(reason)),
    }
}

/// The outcome of a refresh (see [`refresh_decision`]).
pub open spec fn refresh_outcome(decoded: TokenDecoding, now: Timestamp) -> Result<JwtClaims, Reply> {
    match decoded {
        TokenDecoding::Expired(_) => Err(refusal(LoginErrorReason::ExpiredRefreshToken)),
        TokenDecoding::Invalid { .. } => Err(refusal(LoginErrorReason::InvalidRefreshJsonWebToken)),
        TokenDecoding::Valid(claims) => if claims.token_type != JwtTokenType::Refresh {
            Err(refusal(LoginErrorReason::NotARefreshToken))
        } else {
            Ok(claims_for(claims.user_id, now, REFRESHED_ACCESS_TOKEN_LIFETIME_SECONDS as int, JwtTokenType::Access))
        },
    }
}

/// Refreshing does not use a refresh token up: a valid refresh token of a
/// user buys an access token of that user at every time it is presented,
/// and a valid token of another kind is always refused as not a refresh token.
pub proof fn lemma_refresh_keeps_token_usable(token: JwtClaims, first: Timestamp, second: Timestamp)
    ensures
        token.token_type == JwtTokenType::Refresh ==> ({
            let a = refresh_outcome(TokenDecoding::Valid(token), first);
            let b = refresh_outcome(TokenDecoding::Valid(token), second);
            &&& a matches Ok(c) && c.user_id == token.user_id && c.token_type == JwtTokenType::Access && c.issued_at == first
            &&& b matches Ok(c) && c.user_id == token.user_id && c.token_type == JwtTokenType::Access && c.issued_at == second
        }),
        token.token_type != JwtTokenType::Refresh ==> refresh_outcome(TokenDecoding::Valid(token), first)
            == Err::<JwtClaims, Reply>(refusal(LoginErrorReason::NotARefreshToken)),
{
}

/// Decides a login refresh, given the decoded refresh token and the current
/// time. An expired token is refused with `403 Forbidden`; a token that does
/// not decode and an access token are refused with `400 Bad Request`; a valid refresh token buys an access
/// token for the same user, issued now and valid for one day.
pub fn refresh_decision(decoded: &TokenDecoding, now: Timestamp) -> (r: Result<JwtClaims, Reply>)
    requires
        now.unix_seconds + REFRESHED_ACCESS_TOKEN_LIFETIME_SECONDS <= LATEST_TIMESTAMP_SECONDS,
    ensures
        r == refresh_outcome(*decoded, now),
{
    match decoded {
        TokenDecoding::Expired(_) => Err(Reply::with_reason(STATUS_FORBIDDEN, ErrorReason::Login(LoginErrorReason::ExpiredRefreshToken))),
        TokenDecoding::Invalid { .. } => Err(Reply::with_reason(
            STATUS_BAD_REQUEST,
            ErrorReason::Login(LoginErrorReason::InvalidRefreshJsonWebToken),
        )),
        TokenDecoding::Valid(claims) => {
            if claims.token_type != JwtTokenType::Refresh {
                Err(Reply::with_reason(STATUS_BAD_REQUEST, ErrorReason::Login(LoginErrorReason::NotARefreshToken)))
            } else {
                Ok(create_claims(claims.user_id, now, REFRESHED_ACCESS_TOKEN_LIFETIME_SECONDS, JwtTokenType::Access))
            }
        },
    }
}

/// The reply carrying the signed access token of a refresh.
pub fn refresh_reply(access_token: String) -> (r: EndpointResult)
    ensures
        r == Ok::<Reply, EndpointError>(body_reply(STATUS_OK, ReplyBody::RefreshedToken(UserLoginRefreshResponse { access_token }))),
{
    Ok(Reply::with_body(STATUS_OK, ReplyBody::RefreshedToken(UserLoginRefreshResponse { access_token })))
}

/// Every token issued at login, or for a refresh, belongs to the user it was
/// issued for, expires strictly after it is issued, and an access token is
/// never accepted as a refresh token: refreshing only ever turns a refresh
/// token into an access token of the same user.
pub proof fn lemma_issued_tokens_are_well_formed(user_id: u128, now: Timestamp, presented: JwtClaims)
    requires
        now.unix_seconds + REFRESH_TOKEN_LIFETIME_SECONDS <= LATEST_TIMESTAMP_SECONDS,
    ensures
        ({
            let access = claims_for(user_id, now, ACCESS_TOKEN_LIFETIME_SECONDS as int, JwtTokenType::Access);
            let refresh = claims_for(user_id, now, REFRESH_TOKEN_LIFETIME_SECONDS as int, JwtTokenType::Refresh);
            &&& access.user_id == user_id && refresh.user_id == user_id
            &&& access.issued_at.unix_seconds < access.expires_at.unix_seconds
            &&& access.expires_at.unix_seconds < refresh.expires_at.unix_seconds
        }),
        presented.token_type == JwtTokenType::Refresh ==> ({
            let renewed = claims_for(presented.user_id, now, REFRESHED_ACCESS_TOKEN_LIFETIME_SECONDS as int, JwtTokenType::Access);
            &&& renewed.user_id == presented.user_id
            &&& renewed.token_type == JwtTokenType::Access
            &&& renewed.issued_at == now
            &&& renewed.expires_at.unix_seconds == now.unix_seconds + REFRESHED_ACCESS_TOKEN_LIFETIME_SECONDS
        }),
{
}

} // verus!
