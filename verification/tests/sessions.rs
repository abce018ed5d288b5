use user_service::access_log::{access_record, error_log_line, response_log_line};
use user_service::auth::{auth_rejection, has_permission, session_outcome, AuthStatus, PermissionCheck};
use user_service::error::{err_invalid_token, http_err_invalid_token, new_customized_error, AppError};
use user_service::model::UserTokenPayload;
use user_service::service::decrypt_token;

fn claims(exp: usize) -> UserTokenPayload {
    UserTokenPayload { userid: 9, username: "bob".into(), secret: "s".into(), exp }
}

#[test]
fn open_routes_need_no_session() {
    for p in ["/api/v1/user/login", "/api/v1/user/signup", "/user/login", "/user/signup"] {
        assert!(matches!(has_permission(p, None), PermissionCheck::Allowed), "path {}", p);
    }
}

#[test]
fn other_routes_need_a_session() {
    match has_permission("/api/v1/forum", None) {
        PermissionCheck::Rejected(AppError::Http(h)) => assert_eq!(h.code(), 100003),
        _ => panic!("expected a refusal"),
    }
    match has_permission("/api/v1/forum", Some("tok".into())) {
        PermissionCheck::VerifyToken(t) => assert_eq!(t, "tok"),
        _ => panic!("expected a token check"),
    }
    assert!(matches!(has_permission("/api/v1/user/login/x", None), PermissionCheck::Rejected(_)));
    assert!(matches!(has_permission("/api/v2/user/login", None), PermissionCheck::Rejected(_)));
}

#[test]
fn token_expiry() {
    assert!(decrypt_token(Ok(claims(100)), 100).is_ok());
    assert!(decrypt_token(Ok(claims(100)), 99).is_ok());
    match decrypt_token(Ok(claims(100)), 101) {
        Err(e) => assert!(err_invalid_token().eq(&e)),
        Ok(_) => panic!("expired token accepted"),
    }
    assert!(matches!(decrypt_token(Err(AppError::Other("bad sig".into())), 0), Err(AppError::Other(_))));
}

#[test]
fn session_identity() {
    let ctx = session_outcome(Ok(claims(1))).ok().unwrap();
    assert_eq!((ctx.uid, ctx.username.as_str()), (9, "bob"));
    match session_outcome(Err(AppError::Base(err_invalid_token()))) {
        Err(AppError::Http(h)) => assert_eq!(h.code(), 100003),
        _ => panic!("expected the invalid-token error"),
    }
    assert!(matches!(session_outcome(Err(AppError::Other("x".into()))), Err(AppError::Other(_))));
}

#[test]
fn refused_calls() {
    let (status, body) = auth_rejection(AppError::Http(http_err_invalid_token()));
    assert_eq!(status, AuthStatus::Unauthorized);
    assert_eq!((body.code, body.message.as_str()), (100003, "invalid token"));
    let (status, body) = auth_rejection(AppError::Http(new_customized_error(100003, "gone".into())));
    assert_eq!(status, AuthStatus::Unauthorized);
    assert_eq!((body.code, body.message.as_str()), (100003, "gone"));
    let (status, body) = auth_rejection(AppError::Other("db down".into()));
    assert_eq!(status, AuthStatus::InternalServerError);
    assert_eq!((body.code, body.message.as_str()), (100000, "inner error"));
}

#[test]
fn expired_session_is_unauthorized() {
    let checked = decrypt_token(Ok(claims(5)), 10);
    let outcome = session_outcome(checked);
    let (status, body) = auth_rejection(outcome.err().unwrap());
    assert_eq!(status, AuthStatus::Unauthorized);
    assert_eq!(body.code, 100003);
}

#[test]
fn access_log_lines() {
    let r = access_record(None, "GET".into(), "/api/v1/forum".into(), "HTTP/1.1".into(), None, "a=1".into(), None);
    assert_eq!(
        response_log_line(&r, 200, Some("12".into()), "None", None, 3),
        "unknown GET /api/v1/forum HTTP/1.1 200 12 - user=[None] param=[a=1] req_body=[] resp_body=[-] cost=[3]ms"
    );
    assert_eq!(
        error_log_line(&r, "boom", 7),
        "[ERROR]unknown GET /api/v1/forum HTTP/1.1 - param=[a=1] req_body=[] error=boom cost=[7]ms"
    );
    let r2 = access_record(Some("1.2.3.4".into()), "POST".into(), "/x".into(), "HTTP/2.0".into(), Some("curl".into()), "".into(), Some("{}".into()));
    assert_eq!(
        response_log_line(&r2, 404, None, "Some(x)", Some("ok".into()), 0),
        "1.2.3.4 POST /x HTTP/2.0 404 - curl user=[Some(x)] param=[] req_body=[{}] resp_body=[ok] cost=[0]ms"
    );
}

#[test]
fn missing_session_is_unauthorized() {
    match has_permission("/api/v1/forum/echo", None) {
        PermissionCheck::Rejected(e) => {
            let (status, body) = auth_rejection(e);
            assert_eq!(status, AuthStatus::Unauthorized);
            assert_eq!((body.code, body.message.as_str()), (100003, "invalid token"));
            assert!(body.data.is_none());
        }
        _ => panic!("expected a refusal"),
    }
}

#[test]
fn live_session_identifies_user() {
    let ctx = session_outcome(decrypt_token(Ok(claims(50)), 10)).ok().expect("live session");
    assert_eq!((ctx.uid, ctx.username.as_str()), (9, "bob"));
}
