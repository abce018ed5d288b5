//! Who may call what: the routes open without a session, the session token
//! check, and the answer to a refused call.
use vstd::prelude::*;
use crate::error::{AppError, HttpError, HttpErrorView, HTTP_ERR_CODE_INVALID_TOKEN,
    http_err_invalid_token, http_err_inner, spec_http_err_invalid_token, spec_http_err_inner,
    spec_err_invalid_token, err_invalid_token};
use crate::http_msg::{HttpResult, UserContext, failure_from, is_failure_for};
use crate::model::UserTokenPayload;
use crate::service::{decrypted_is, is_expired};
use crate::text::{starts_with, str_eq};

verus! {

/// The prefix under which the service's routes are mounted.
pub open spec fn api_prefix() -> Seq<char> {
    "/api/v1"@
}

/// The route of a request path: the path without the API prefix, when it
/// has it.
pub open spec fn route_of(path: Seq<char>) -> Seq<char> {
    if api_prefix().len() <= path.len() && path.subrange(0, api_prefix().len() as int) == api_prefix() {
        path.skip(api_prefix().len() as int)
    } else {
        path
    }
}

/// The routes that need no session: logging in and signing up.
pub open spec fn is_open_route(path: Seq<char>) -> bool {
    route_of(path) == "/user/login"@ || route_of(path) == "/user/signup"@
}

/// What the first look at a request decides.
#[derive(Debug)]
pub enum PermissionCheck {
    /// The route needs no session.
    Allowed,
    /// The call is refused with this error.
    Rejected(AppError),
    /// The session token must be checked.
    VerifyToken(String),
}

/// Whether a call is refused with the built-in invalid-token error.
pub open spec fn is_invalid_token_refusal(e: AppError) -> bool {
    e matches AppError::Http(h) && h@ == spec_http_err_invalid_token()
}

/// The first look at a request: a route open without a session is
/// allowed; otherwise a request without a session cookie is refused with
/// the invalid-token error, and a request with one has its token checked.
pub open spec fn permission_is(path: Seq<char>, session_token: Option<String>, r: PermissionCheck) -> bool {
    if is_open_route(path) {
        r is Allowed
    } else {
        match session_token {
            None => r matches PermissionCheck::Rejected(e) && is_invalid_token_refusal(e),
            Some(t) => r matches PermissionCheck::VerifyToken(u) && u == t,
        }
    }
}

/// The first look at a request.
pub fn has_permission(path: &str, session_token: Option<String>) -> (r: PermissionCheck)
    ensures
        permission_is(path@, session_token, r),
        route_of(path@) == "/user/login"@ || route_of(path@) == "/user/signup"@ ==> r is Allowed,
{
    let prefix = "/api/v1";
    let route: &str = if starts_with(path, prefix) {
        let n = path.unicode_len();
        let m = prefix.unicode_len();
        path.substring_char(m, n)
    } else {
        path
    };
    assert(route@ == route_of(path@));
    if str_eq(route, "/user/login") || str_eq(route, "/user/signup") {
        return PermissionCheck::Allowed;
    }
    match session_token {
        None => PermissionCheck::Rejected(AppError::Http(http_err_invalid_token())),
        Some(t) => PermissionCheck::VerifyToken(t),
    }
}

/// The outcome of checking a session token: the caller's identity from a
/// valid token; the invalid-token service error becomes the built-in
/// invalid-token HTTP error, and any other error stays as it is.
pub open spec fn session_is(decrypted: Result<UserTokenPayload, AppError>, r: Result<UserContext, AppError>) -> bool {
    match decrypted {
        Ok(p) => r matches Ok(ctx) && ctx.uid == p.userid && ctx.username == p.username,
        Err(e) => if e matches AppError::Base(b) && b.0@ == spec_err_invalid_token() {
            r matches Err(f) && is_invalid_token_refusal(f)
        } else {
            r == Err::<UserContext, AppError>(e)
        },
    }
}

/// The outcome of checking a session token.
pub fn session_outcome(decrypted: Result<UserTokenPayload, AppError>) -> (r: Result<UserContext, AppError>)
    ensures
        session_is(decrypted, r),
{
    match decrypted {
        Ok(p) => Ok(UserContext { uid: p.userid, username: p.username }),
        Err(e) => {
            if err_invalid_token().eq(&e) {
                Err(AppError::Http(http_err_invalid_token()))
            } else {
                Err(e)
            }
        },
    }
}

/// How a refused call is answered.
#[derive(Debug, Clone, Copy, PartialEq, Eq, Structural)]
pub enum AuthStatus {
    /// 401: the session is missing or not valid.
    Unauthorized,
    /// 500: the check itself failed.
    InternalServerError,
}

/// The answer to a refused call: for an invalid-token error, 401 with the
/// built-in invalid-token answer (or the error's own message when it was
/// made at run time); for any other error, 500 with the built-in internal
/// error answer.
pub open spec fn rejection_is(err: AppError, r: (AuthStatus, HttpResult<Option<()>>)) -> bool {
    match err.http_view() {
        HttpErrorView::BuiltIn(code, _) => if code == HTTP_ERR_CODE_INVALID_TOKEN {
            r.0 == AuthStatus::Unauthorized && is_failure_for(r.1, spec_http_err_invalid_token())
        } else {
            r.0 == AuthStatus::InternalServerError && is_failure_for(r.1, spec_http_err_inner())
        },
        HttpErrorView::Customized(code, _) => if code == HTTP_ERR_CODE_INVALID_TOKEN {
            r.0 == AuthStatus::Unauthorized && is_failure_for(r.1, err.http_view())
        } else {
            r.0 == AuthStatus::InternalServerError && is_failure_for(r.1, spec_http_err_inner())
        },
    }
}

/// The answer to a refused call.
pub fn auth_rejection(err: AppError) -> (r: (AuthStatus, HttpResult<Option<()>>))
    ensures
        rejection_is(err, r),
{
    let e = HttpError::from_error(err);
    match e {
        HttpError::BuiltInErr(code, _) => if code == HTTP_ERR_CODE_INVALID_TOKEN {
            (AuthStatus::Unauthorized, failure_from(http_err_invalid_token()))
        } else {
            (AuthStatus::InternalServerError, failure_from(http_err_inner()))
        },
        HttpError::CustomizedErr(code, _) => if code == HTTP_ERR_CODE_INVALID_TOKEN {
            (AuthStatus::Unauthorized, failure_from(e))
        } else {
            (AuthStatus::InternalServerError, failure_from(http_err_inner()))
        },
    }
}

/// A call to a route that needs a session, made without a session
/// cookie, is answered 401 with the built-in invalid-token answer.
pub proof fn lemma_missing_session_refused(
    path: Seq<char>,
    check: PermissionCheck,
    answer: (AuthStatus, HttpResult<Option<()>>),
)
    requires
        !is_open_route(path),
        permission_is(path, None, check),
        check matches PermissionCheck::Rejected(e) && rejection_is(e, answer),
    ensures
        answer.0 == AuthStatus::Unauthorized,
        is_failure_for(answer.1, spec_http_err_invalid_token()),
{
}

/// A call made with a session token whose claims expired before the time
/// of the check is answered 401 with the built-in invalid-token answer.
pub proof fn lemma_expired_session_refused(
    claims: UserTokenPayload,
    now: i64,
    decrypted: Result<UserTokenPayload, AppError>,
    session: Result<UserContext, AppError>,
    answer: (AuthStatus, HttpResult<Option<()>>),
)
    requires
        is_expired(claims, now),
        decrypted_is(Ok(claims), now, decrypted),
        session_is(decrypted, session),
        session matches Err(e) && rejection_is(e, answer),
    ensures
        answer.0 == AuthStatus::Unauthorized,
        is_failure_for(answer.1, spec_http_err_invalid_token()),
{
}

/// A call made with a session token whose claims have not expired is let
/// through as the user the claims name.
pub proof fn lemma_live_session_identifies_user(
    claims: UserTokenPayload,
    now: i64,
    decrypted: Result<UserTokenPayload, AppError>,
    session: Result<UserContext, AppError>,
)
    requires
        !is_expired(claims, now),
        decrypted_is(Ok(claims), now, decrypted),
        session_is(decrypted, session),
    ensures
        session matches Ok(ctx) && ctx.uid == claims.userid && ctx.username == claims.username,
{
}

/// Whether a call is let through without a session check does not depend
/// on its session cookie: a path let through with one cookie (or none) is
/// let through with any other.
pub proof fn lemma_open_route_ignores_cookie(
    path: Seq<char>,
    t1: Option<String>,
    r1: PermissionCheck,
    t2: Option<String>,
    r2: PermissionCheck,
)
    requires
        permission_is(path, t1, r1),
        permission_is(path, t2, r2),
        r1 is Allowed,
    ensures
        r2 is Allowed,
{
    if !is_open_route(path) {
        match t1 {
            None => assert(r1 is Rejected),
            Some(_) => assert(r1 is VerifyToken),
        }
    }
}

/// Logging in and signing up, with or without the `/api/v1` prefix, are
/// let through whatever the session cookie, present or not.
pub proof fn lemma_login_and_signup_need_no_session(path: Seq<char>, token: Option<String>, r: PermissionCheck)
    requires
        permission_is(path, token, r),
        path == "/user/login"@ || path == "/user/signup"@ || path == "/api/v1/user/login"@ || path
            == "/api/v1/user/signup"@,
    ensures
        r is Allowed,
{
    reveal_strlit("/api/v1");
    reveal_strlit("/user/login");
    reveal_strlit("/user/signup");
    reveal_strlit("/api/v1/user/login");
    reveal_strlit("/api/v1/user/signup");
    let p = api_prefix();
    if path == "/user/login"@ || path == "/user/signup"@ {
        assert(path.subrange(0, p.len() as int)[1] != p[1]);
        assert(route_of(path) == path);
    } else {
        assert(path.subrange(0, p.len() as int) =~= p);
        if path == "/api/v1/user/login"@ {
            assert(path.skip(p.len() as int) =~= "/user/login"@);
        } else {
            assert(path.skip(p.len() as int) =~= "/user/signup"@);
        }
    }
}

} // verus!
