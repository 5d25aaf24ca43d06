//! The decisions the HTTP handlers take: which requests are let through and
//! which cookies each response sets.

use crate::adapters::http::cookie_util::{cookie_for, CookieAttrs};
use crate::application::entities::user_entity::UserEntity;
use crate::application::errors::AppError;
use crate::application::types::{CSRFToken, PKCEVerifier, SessionId, SessionUser};
use crate::config::Config;
use crate::text::{starts_with_ignore_ascii_case, str_eq};
use vstd::prelude::*;

verus! {

/// Lifetime of the PKCE verifier and OAuth state cookies, in seconds.
pub const LOGIN_COOKIE_TTL_SECS: i64 = 600;

/// Lifetime of a session, in seconds.
pub const SESSION_TTL_SECS: i64 = 3600;

/// A request body is accepted for upload when its `Content-Type` header is
/// present and starts with `multipart/`, in any ASCII case.
pub open spec fn is_multipart_spec(content_type: Option<&str>) -> bool {
    match content_type {
        Some(ct) => crate::text::seq_starts_with_ignore_ascii_case(ct@, "multipart/"@),
        None => false,
    }
}

/// Whether an upload request announces a multipart body.
pub fn is_multipart_content_type(content_type: Option<&str>) -> (r: bool)
    ensures
        r == is_multipart_spec(content_type),
{
    match content_type {
        Some(ct) => starts_with_ignore_ascii_case(ct, "multipart/"),
        None => false,
    }
}

/// The OAuth callback is accepted when the `oauth_state` cookie is present
/// and equals the `state` query parameter, and the `pkce_v` cookie is
/// present; the PKCE verifier is that cookie's value.
pub fn check_oauth_callback(
    cookie_state: Option<String>,
    query_state: &str,
    pkce_cookie: Option<String>,
) -> (r: Result<PKCEVerifier, AppError>)
    ensures
        match r {
            Ok(v) => {
                &&& cookie_state matches Some(s) && s@ == query_state@
                &&& pkce_cookie matches Some(p) && v.0@ == p@
            },
            Err(e) => {
                &&& e is Unauthorized
                &&& !(cookie_state matches Some(s) && s@ == query_state@) || pkce_cookie is None
            },
        },
{
    let state = match cookie_state {
        Some(s) => s,
        None => return Err(AppError::Unauthorized),
    };
    if !str_eq(state.as_str(), query_state) {
        return Err(AppError::Unauthorized);
    }
    match pkce_cookie {
        Some(p) => Ok(PKCEVerifier(p)),
        None => Err(AppError::Unauthorized),
    }
}

/// The cookies set when a login starts: the PKCE verifier (`pkce_v`) and the
/// OAuth state (`oauth_state`), both `HttpOnly` and living 600 seconds.
pub fn login_cookies(config: &Config, pkce_verifier: &PKCEVerifier, csrf_token: &CSRFToken) -> (r:
    Vec<CookieAttrs>)
    ensures
        r@.len() == 2,
        crate::adapters::http::cookie_util::is_cookie(
            r@[0],
            *config,
            "pkce_v"@,
            pkce_verifier.0@,
            LOGIN_COOKIE_TTL_SECS,
            true,
        ),
        crate::adapters::http::cookie_util::is_cookie(
            r@[1],
            *config,
            "oauth_state"@,
            csrf_token.0@,
            LOGIN_COOKIE_TTL_SECS,
            true,
        ),
{
    let mut v = Vec::new();
    v.push(cookie_for(config, "pkce_v", pkce_verifier.0.as_str(), LOGIN_COOKIE_TTL_SECS, true));
    v.push(cookie_for(config, "oauth_state", csrf_token.0.as_str(), LOGIN_COOKIE_TTL_SECS, true));
    v
}

/// The cookies set when a sign-in completes: the session id (`sid`) living
/// as long as the session, and the PKCE verifier and OAuth state cookies
/// expired; all `HttpOnly`.
pub fn callback_cookies(config: &Config, session_id: &SessionId, ttl_secs: i64) -> (r: Vec<
    CookieAttrs,
>)
    ensures
        r@.len() == 3,
        crate::adapters::http::cookie_util::is_cookie(
            r@[0],
            *config,
            "sid"@,
            session_id@,
            ttl_secs,
            true,
        ),
        crate::adapters::http::cookie_util::is_cookie(r@[1], *config, "pkce_v"@, ""@, 0, true),
        crate::adapters::http::cookie_util::is_cookie(r@[2], *config, "oauth_state"@, ""@, 0, true),
{
    let mut v = Vec::new();
    v.push(cookie_for(config, "sid", session_id.0.as_str(), ttl_secs, true));
    v.push(cookie_for(config, "pkce_v", "", 0, true));
    v.push(cookie_for(config, "oauth_state", "", 0, true));
    v
}

/// The cookies set on logout: the session, PKCE verifier and OAuth state
/// cookies, all expired and `HttpOnly`.
pub fn logout_cookies(config: &Config) -> (r: Vec<CookieAttrs>)
    ensures
        r@.len() == 3,
        crate::adapters::http::cookie_util::is_cookie(r@[0], *config, "sid"@, ""@, 0, true),
        crate::adapters::http::cookie_util::is_cookie(r@[1], *config, "pkce_v"@, ""@, 0, true),
        crate::adapters::http::cookie_util::is_cookie(r@[2], *config, "oauth_state"@, ""@, 0, true),
{
    let mut v = Vec::new();
    v.push(cookie_for(config, "sid", "", 0, true));
    v.push(cookie_for(config, "pkce_v", "", 0, true));
    v.push(cookie_for(config, "oauth_state", "", 0, true));
    v
}

/// A request reaches the protected routes only with a `sid` cookie.
pub fn require_session_id(sid_cookie: Option<String>) -> (r: Result<SessionId, AppError>)
    ensures
        match r {
            Ok(sid) => sid_cookie matches Some(c) && sid@ == c@,
            Err(e) => e is Unauthorized && sid_cookie is None,
        },
{
    match sid_cookie {
        Some(c) => Ok(SessionId(c)),
        None => Err(AppError::Unauthorized),
    }
}

/// A request reaches the protected routes only when its session belongs to
/// a user.
pub fn require_session_user(found: Option<SessionUser>) -> (r: Result<SessionUser, AppError>)
    ensures
        match r {
            Ok(u) => found == Some(u),
            Err(e) => e is Unauthorized && found is None,
        },
{
    match found {
        Some(u) => Ok(u),
        None => Err(AppError::Unauthorized),
    }
}

/// `/api/me` answers with the signed-in user, or `Unauthorized` when that
/// user no longer exists.
pub fn require_user(found: Option<UserEntity>) -> (r: Result<UserEntity, AppError>)
    ensures
        match r {
            Ok(u) => found == Some(u),
            Err(e) => e is Unauthorized && found is None,
        },
{
    match found {
        Some(u) => Ok(u),
        None => Err(AppError::Unauthorized),
    }
}

} // verus!
