use user_service::cache::user_cache;
use user_service::crypt::{encrypt_md5, generate_secret};
use user_service::entity::UserTab;
use user_service::error::{err_user_existed, AppError, DbErrorKind};
use user_service::model::User;
use user_service::service::{
    handle_error, login, login_expects, login_reply, login_step, signup, signup_expects,
    signup_reply, signup_step, LoginAction, LoginEvent, LoginReply, LoginState, SignupAction,
    SignupEvent, SignupReply, SignupState,
};

fn bob() -> User {
    User {
        nickname: "Bobby".into(),
        username: "bob".into(),
        email: "bob@example.com".into(),
        password: "hunter2".into(),
        registration_time: 0,
    }
}

#[test]
fn signup_runs_insert_email_commit() {
    let (state, action) = signup(&bob(), 1700);
    assert!(matches!(action, SignupAction::BeginTransaction));
    let record = match &state {
        SignupState::BeginningTransaction { record, email } => {
            assert_eq!(email.receiver, "bob@example.com");
            assert_eq!(email.key, "user_register");
            assert_eq!(email.data, vec![("username".to_string(), "bob".to_string()), ("url".to_string(), "https://www.baidu.com".to_string())]);
            record.clone()
        }
        _ => panic!("unexpected state"),
    };
    assert_eq!((record.nickname.as_str(), record.username.as_str()), ("Bobby", "bob"));
    assert_eq!((record.create_time, record.update_time), (1700, 1700));
    assert_eq!(record.password, encrypt_md5("hunter2", &record.salt));

    let ev = SignupEvent::TransactionBegun(Ok(()));
    assert!(signup_expects(&state, &ev));
    let (state, action) = signup_step(state, ev);
    assert!(matches!(action, SignupAction::InsertUser(ref r) if r.password == record.password));
    let (state, action) = signup_step(state, SignupEvent::Inserted(Ok(1)));
    assert!(matches!(action, SignupAction::SendEmail(_)));
    let (state, action) = signup_step(state, SignupEvent::EmailSent(Ok(())));
    assert!(matches!(action, SignupAction::Commit));
    let (state, action) = signup_step(state, SignupEvent::Committed(Ok(())));
    assert!(matches!(action, SignupAction::Finish(Ok(1))));
    assert!(matches!(state, SignupState::Finished));
    assert!(!signup_expects(&state, &SignupEvent::Committed(Ok(()))));
}

#[test]
fn signup_with_taken_name() {
    let (state, _) = signup(&bob(), 1);
    let (state, _) = signup_step(state, SignupEvent::TransactionBegun(Ok(())));
    let ev = SignupEvent::Inserted(Err(AppError::Db(DbErrorKind::UniqueViolation, "UNIQUE".into())));
    let (state, action) = signup_step(state, ev);
    assert!(matches!(state, SignupState::Finished));
    match action {
        SignupAction::Finish(Err(e)) => {
            assert!(err_user_existed().eq(&e));
            let body = handle_error(e);
            assert_eq!((body.code, body.message.as_str()), (100005, "duplicate record"));
        }
        _ => panic!("expected the user-existed error"),
    }
}

#[test]
fn signup_failures_finish_with_their_error() {
    let (state, _) = signup(&bob(), 1);
    let (_, action) = signup_step(state, SignupEvent::TransactionBegun(Err(AppError::Other("no db".into()))));
    assert!(matches!(action, SignupAction::Finish(Err(AppError::Other(_)))));

    let (state, _) = signup(&bob(), 1);
    let (state, _) = signup_step(state, SignupEvent::TransactionBegun(Ok(())));
    let (state, _) = signup_step(state, SignupEvent::Inserted(Ok(1)));
    let (_, action) = signup_step(state, SignupEvent::EmailSent(Err(AppError::Other("smtp".into()))));
    assert!(matches!(action, SignupAction::Finish(Err(AppError::Other(ref m))) if m == "smtp"));
}

fn stored_bob(password: &str, salt: &str) -> UserTab {
    UserTab {
        id: 42,
        nickname: "Bobby".into(),
        username: "bob".into(),
        password: encrypt_md5(password, salt),
        salt: salt.into(),
        create_time: 1,
        update_time: 1,
    }
}

#[test]
fn login_with_right_password() {
    let mut cache = user_cache();
    let (state, action) = login("bob", "hunter2", 2592000, "pepper");
    assert!(matches!(action, LoginAction::FindUser(ref u) if u == "bob"));
    let row = stored_bob("hunter2", "abc");
    let ev = LoginEvent::UserFound { user: Ok(row.clone()), now: 1000 };
    assert!(login_expects(&state, &ev));
    let (state, action) = login_step(state, ev, &mut cache);
    let claims = match action {
        LoginAction::SignToken(c) => c,
        _ => panic!("expected a token to sign"),
    };
    assert_eq!((claims.userid, claims.username.as_str(), claims.exp), (42, "bob", 2593000));
    assert_eq!(claims.secret, generate_secret(&row.password, "pepper"));
    let (state, action) = login_step(state, LoginEvent::TokenSigned(Ok("tok".into())), &mut cache);
    assert!(matches!(state, LoginState::Finished));
    assert!(matches!(action, LoginAction::Finish(Ok(ref t)) if t == "tok"));
    assert_eq!(cache.load(42), Some(claims.secret.clone()));
    match login_reply(Ok("tok".into())) {
        LoginReply::SignedIn { token, body } => {
            assert_eq!(token, "tok");
            assert_eq!((body.code, body.message.as_str(), body.data.as_str()), (0, "", ""));
        }
        _ => panic!("expected a signed-in answer"),
    }
}

#[test]
fn login_with_wrong_password_or_unknown_user() {
    let mut cache = user_cache();
    let (state, _) = login("bob", "wrong", 60, "pepper");
    let (_, action) = login_step(state, LoginEvent::UserFound { user: Ok(stored_bob("hunter2", "abc")), now: 0 }, &mut cache);
    let err = match action {
        LoginAction::Finish(Err(e)) => e,
        _ => panic!("expected a refusal"),
    };
    match login_reply(Err(err)) {
        LoginReply::Failed(body) => assert_eq!((body.code, body.message.as_str()), (100002, "param error")),
        _ => panic!("expected a failure"),
    }

    let (state, _) = login("nobody", "x", 60, "pepper");
    let missing = AppError::Db(DbErrorKind::NotFound, "Record not found".into());
    let (_, action) = login_step(state, LoginEvent::UserFound { user: Err(missing), now: 0 }, &mut cache);
    let err = match action {
        LoginAction::Finish(Err(e)) => e,
        _ => panic!("expected a refusal"),
    };
    let body = handle_error(err);
    assert_eq!((body.code, body.message.as_str()), (100004, "record not found"));

    let (state, _) = login("bob", "x", i64::MAX, "pepper");
    assert!(login_expects(&state, &LoginEvent::UserFound { user: Err(AppError::Other("x".into())), now: 1 }));
    assert!(login_expects(&state, &LoginEvent::UserFound { user: Ok(stored_bob("hunter2", "abc")), now: 1 }));
    let (state, _) = login("bob", "hunter2", i64::MAX, "pepper");
    assert!(!login_expects(&state, &LoginEvent::UserFound { user: Ok(stored_bob("hunter2", "abc")), now: 1 }));
}

#[test]
fn refusals_whatever_the_session_length() {
    let mut cache = user_cache();
    let (state, _) = login("nobody", "x", i64::MAX, "pepper");
    let ev = LoginEvent::UserFound {
        user: Err(AppError::Db(DbErrorKind::NotFound, "Record not found".into())),
        now: 5,
    };
    assert!(login_expects(&state, &ev));
    let (_, action) = login_step(state, ev, &mut cache);
    assert_eq!(handle_error(match action {
        LoginAction::Finish(Err(e)) => e,
        _ => panic!("expected a refusal"),
    }).code, 100004);
    let (state, _) = login("bob", "wrong", i64::MAX, "pepper");
    let ev = LoginEvent::UserFound { user: Ok(stored_bob("hunter2", "abc")), now: 5 };
    assert!(login_expects(&state, &ev));
    let (_, action) = login_step(state, ev, &mut cache);
    assert_eq!(handle_error(match action {
        LoginAction::Finish(Err(e)) => e,
        _ => panic!("expected a refusal"),
    }).code, 100002);
    assert_eq!(cache.load(42), None);
}

#[test]
fn signup_answers() {
    match signup_reply(Ok(1), "Bobby") {
        SignupReply::Created(body) => {
            assert_eq!(body.code, 0);
            assert_eq!(body.data, "signup successful, your uid is 1, welcome Bobby");
        }
        _ => panic!("expected success"),
    }
    match signup_reply(Err(AppError::Base(err_user_existed())), "Bobby") {
        SignupReply::Failed(body) => assert_eq!(body.code, 100005),
        _ => panic!("expected failure"),
    }
    let body = handle_error(AppError::Other("weird".into()));
    assert_eq!((body.code, body.message.as_str()), (100000, "weird"));
}
