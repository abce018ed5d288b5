use user_service::error::{
    err_invalid_param, err_invalid_token, err_user_existed, err_user_not_found, http_err_db,
    http_err_duplicate, http_err_inner, http_err_invalid_token, http_err_param,
    http_err_record_not_found, is_duplicate, is_not_found, new_builtin_error, new_customized_error,
    AppError, BaseError, DbErrorKind, HttpError, IntoErr, HTTP_ERR_CODE_INNER,
};
use user_service::http_msg::{failure, failure_from, success, UserContext, Validate};
use user_service::model::UserLogin;

#[test]
fn error_codes_and_messages() {
    let all = [
        (http_err_inner(), 100000, "inner error"),
        (http_err_db(), 100001, "database error"),
        (http_err_param(), 100002, "param error"),
        (http_err_invalid_token(), 100003, "invalid token"),
        (http_err_record_not_found(), 100004, "record not found"),
        (http_err_duplicate(), 100005, "duplicate record"),
    ];
    for (e, code, msg) in all {
        assert_eq!(e.code(), code);
        assert_eq!(e.message(), msg);
    }
}

#[test]
fn error_text() {
    assert_eq!(http_err_param().to_text(), "err_code=100002, message=param error");
    assert_eq!(
        new_customized_error(7, "boom".to_string()).to_text(),
        "err_code=7, message=boom"
    );
    assert_eq!(AppError::Base(err_user_existed()).to_text(), "user existed");
}

#[test]
fn http_error_from_any_error() {
    let kept = HttpError::from_error(AppError::Http(http_err_duplicate()));
    assert!(matches!(kept, HttpError::BuiltInErr(100005, "duplicate record")));
    let wrapped = HttpError::from_error(AppError::Other("disk full".to_string()));
    match wrapped {
        HttpError::CustomizedErr(code, msg) => {
            assert_eq!(code, HTTP_ERR_CODE_INNER);
            assert_eq!(msg, "disk full");
        }
        _ => panic!("expected a customized error"),
    }
    let base = HttpError::from_error(AppError::Base(err_invalid_token()));
    assert!(matches!(base, HttpError::CustomizedErr(100000, ref m) if m == "invalid token"));
}

#[test]
fn base_error_equality() {
    let e = AppError::Base(err_user_not_found());
    assert!(err_user_not_found().eq(&e));
    assert!(BaseError("user not found").eq(&e));
    assert!(!err_user_existed().eq(&e));
    assert!(!err_invalid_param().eq(&AppError::Other("user not found".to_string())));
}

#[test]
fn database_error_kinds() {
    let nf = AppError::Db(DbErrorKind::NotFound, "Record not found".to_string());
    let dup = AppError::Db(DbErrorKind::UniqueViolation, "UNIQUE constraint failed".to_string());
    assert!(is_not_found(&nf) && !is_duplicate(&nf));
    assert!(is_duplicate(&dup) && !is_not_found(&dup));
    assert!(!is_not_found(&AppError::Other("x".to_string())));
}

#[test]
fn into_err_conversions() {
    assert!(matches!("oops".into_err(), HttpError::BuiltInErr(100000, "oops")));
    assert!(matches!(String::from("s").into_err(), HttpError::CustomizedErr(100000, ref m) if m == "s"));
    assert!(matches!(err_user_existed().into_err(), HttpError::BuiltInErr(100000, "user existed")));
    assert!(matches!(new_builtin_error(3, "x").into_err(), HttpError::BuiltInErr(3, "x")));
}

#[test]
fn answers() {
    let ok = success(5);
    assert_eq!((ok.code, ok.message.as_str(), ok.data), (0, "", 5));
    let f = failure(12, "bad".to_string());
    assert_eq!((f.code, f.message.as_str(), f.data), (12, "bad", None));
    let g = failure_from(http_err_record_not_found());
    assert_eq!((g.code, g.message.as_str()), (100004, "record not found"));
    let h = failure_from(AppError::Other("boom".to_string()));
    assert_eq!((h.code, h.message.as_str()), (100000, "boom"));
}

#[test]
fn login_request_needs_name_and_password() {
    let mut good = UserLogin { username: "bob".into(), password: "pw".into() };
    assert!(good.validate().is_ok());
    let mut no_name = UserLogin { username: "".into(), password: "pw".into() };
    match no_name.validate() {
        Err(AppError::Http(h)) => assert_eq!((h.code(), h.message()), (100002, "param error".to_string())),
        _ => panic!("expected the parameter error"),
    }
    let mut no_pw = UserLogin { username: "bob".into(), password: "".into() };
    assert!(no_pw.validate().is_err());
}

#[test]
fn default_user_context() {
    let c = UserContext::default();
    assert_eq!((c.uid, c.username.as_str()), (0, ""));
}
