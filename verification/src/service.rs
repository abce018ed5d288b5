//! The user service: session token checks, signing up and logging in as
//! state machines whose outside work (the database, e-mail, token
//! signing) is done by the caller, and the answers of the HTTP layer.
use vstd::prelude::*;
use crate::cache::UserCache;
use crate::crypt::{encrypted, generate_encrypted_password, generate_secret, is_salt,
    password_matches, verify_encrypted_password};
use crate::decimal::{decimal_int, i64_to_decimal};
use crate::email::{EmailRequest, EMAIL_KEY_USER_REGISTER};
use crate::entity::{NewUserTab, UserTab};
use crate::error::{AppError, DbErrorKind, err_invalid_param, err_invalid_token, err_user_existed,
    err_user_not_found, http_err_duplicate, http_err_param, http_err_record_not_found, is_duplicate,
    is_not_found, spec_err_invalid_param, spec_err_invalid_token, spec_err_user_existed,
    spec_err_user_not_found, spec_http_err_duplicate, spec_http_err_param,
    spec_http_err_record_not_found};
use crate::http_msg::{HttpResult, failure_from, is_failure_for, success};
use crate::model::{User, UserTokenPayload};
use crate::text::owned;

verus! {

/// Whether an error is the service error with the given message.
pub open spec fn is_base(e: AppError, message: Seq<char>) -> bool {
    e matches AppError::Base(b) && b.0@ == message
}

/// Whether a token has expired at `now`: its expiry lies before `now`,
/// read as an unsigned size.
pub open spec fn is_expired(p: UserTokenPayload, now: i64) -> bool {
    p.exp < (now as usize)
}

/// The check of the claims of a verified session token: claims that
/// expired before `now` are refused with the invalid-token service error;
/// an error of the verification stays as it is.
pub open spec fn decrypted_is(
    verified: Result<UserTokenPayload, AppError>,
    now: i64,
    r: Result<UserTokenPayload, AppError>,
) -> bool {
    match verified {
        Err(e) => r == Err::<UserTokenPayload, AppError>(e),
        Ok(p) => if is_expired(p, now) {
            r matches Err(e) && is_base(e, spec_err_invalid_token())
        } else {
            r == Ok::<UserTokenPayload, AppError>(p)
        },
    }
}

/// Checks the claims of a verified session token.
pub fn decrypt_token(verified: Result<UserTokenPayload, AppError>, now: i64) -> (r: Result<UserTokenPayload, AppError>)
    ensures
        decrypted_is(verified, now, r),
        verified matches Ok(p) ==> (if p.exp < (now as usize) {
            r matches Err(e) && e matches AppError::Base(b) && b.0@ == "invalid token"@
        } else {
            r == Ok::<UserTokenPayload, AppError>(p)
        }),
{
    match verified {
        Err(e) => Err(e),
        Ok(p) => {
            if p.exp < now as usize {
                Err(AppError::Base(err_invalid_token()))
            } else {
                Ok(p)
            }
        },
    }
}

/// The answer for an error of the user routes: a missing user answers
/// "record not found", a taken user name "duplicate record", a wrong
/// parameter "param error"; any other error answers with the HTTP error it
/// becomes.
pub open spec fn error_answer_is(r: HttpResult<Option<()>>, err: AppError) -> bool {
    if is_base(err, spec_err_user_not_found()) {
        is_failure_for(r, spec_http_err_record_not_found())
    } else if is_base(err, spec_err_user_existed()) {
        is_failure_for(r, spec_http_err_duplicate())
    } else if is_base(err, spec_err_invalid_param()) {
        is_failure_for(r, spec_http_err_param())
    } else {
        is_failure_for(r, err.http_view())
    }
}

/// The answer for an error of the user routes.
pub fn handle_error(err: AppError) -> (r: HttpResult<Option<()>>)
    ensures
        error_answer_is(r, err),
{
    if err_user_not_found().eq(&err) {
        failure_from(http_err_record_not_found())
    } else if err_user_existed().eq(&err) {
        failure_from(http_err_duplicate())
    } else if err_invalid_param().eq(&err) {
        failure_from(http_err_param())
    } else {
        failure_from(err)
    }
}

/// The answer to a login request.
pub enum LoginReply {
    /// Logged in: the session token to set as the `user_session` cookie,
    /// and an empty successful answer.
    SignedIn { token: String, body: HttpResult<String> },
    /// Refused, with this answer.
    Failed(HttpResult<Option<()>>),
}

/// The answer to a login request, from the outcome of the login.
pub fn login_reply(result: Result<String, AppError>) -> (r: LoginReply)
    ensures
        match result {
            Ok(t) => r matches LoginReply::SignedIn { token, body } && token == t && body.code == 0
                && body.message@.len() == 0 && body.data@.len() == 0,
            Err(e) => r matches LoginReply::Failed(body) && error_answer_is(body, e),
        },
{
    match result {
        Ok(token) => LoginReply::SignedIn { token, body: success(String::new()) },
        Err(e) => LoginReply::Failed(handle_error(e)),
    }
}

/// The text of a successful sign-up answer.
pub open spec fn signup_message(id: i64, nickname: Seq<char>) -> Seq<char> {
    "signup successful, your uid is "@ + decimal_int(id as int) + ", welcome "@ + nickname
}

/// The answer to a sign-up request.
pub enum SignupReply {
    /// Signed up, with this answer.
    Created(HttpResult<String>),
    /// Refused, with this answer.
    Failed(HttpResult<Option<()>>),
}

/// The answer to a sign-up request, from the outcome of the sign-up.
pub fn signup_reply(result: Result<i64, AppError>, nickname: &str) -> (r: SignupReply)
    ensures
        match result {
            Ok(id) => r matches SignupReply::Created(body) && body.code == 0 && body.message@.len() == 0
                && body.data@ == signup_message(id, nickname@),
            Err(e) => r matches SignupReply::Failed(body) && error_answer_is(body, e),
        },
{
    match result {
        Ok(id) => {
            let mut text = String::from_str("signup successful, your uid is ");
            let digits = i64_to_decimal(id);
            text.append(digits.as_str());
            text.append(", welcome ");
            text.append(nickname);
            SignupReply::Created(success(text))
        },
        Err(e) => SignupReply::Failed(handle_error(e)),
    }
}


/// Where a sign-up stands.
#[derive(Debug)]
pub enum SignupState {
    /// A transaction is being opened; the row and the welcome e-mail are
    /// ready.
    BeginningTransaction { record: NewUserTab, email: EmailRequest },
    /// The row is being inserted.
    Inserting { email: EmailRequest },
    /// The welcome e-mail is being sent; the insert affected `rows` rows.
    SendingEmail { rows: i64 },
    /// The transaction is being committed.
    Committing { rows: i64 },
    /// The sign-up is over.
    Finished,
}

/// What the caller reports of the work it was asked to do.
#[derive(Debug)]
pub enum SignupEvent {
    TransactionBegun(Result<(), AppError>),
    Inserted(Result<i64, AppError>),
    EmailSent(Result<(), AppError>),
    Committed(Result<(), AppError>),
}

/// The work the caller is asked to do next. A transaction still open when
/// the sign-up finishes is rolled back.
#[derive(Debug)]
pub enum SignupAction {
    BeginTransaction,
    InsertUser(NewUserTab),
    SendEmail(EmailRequest),
    Commit,
    Finish(Result<i64, AppError>),
}

/// The welcome e-mail of a new user: to the user's address, filled with
/// the user name and the service's address.
pub open spec fn is_welcome_email(email: EmailRequest, user: User) -> bool {
    &&& email.receiver@ == user.email@
    &&& email.data@.len() == 2
    &&& email.data@[0].0@ == "username"@
    &&& email.data@[0].1@ == user.username@
    &&& email.data@[1].0@ == "url"@
    &&& email.data@[1].1@ == "https://www.baidu.com"@
    &&& email.key@ == EMAIL_KEY_USER_REGISTER@
}

/// The row of a new user made at `now`: the user's names, the stored form
/// of the password under a fresh salt, and `now` as both times.
pub open spec fn is_new_user_row(record: NewUserTab, user: User, now: i64) -> bool {
    &&& record.nickname == user.nickname
    &&& record.username == user.username
    &&& is_salt(record.salt@)
    &&& record.password@ == encrypted(user.password@, record.salt@)
    &&& record.password@.len() == 32
    &&& record.create_time == now
    &&& record.update_time == now
}

/// Starts a sign-up at `now`: makes the row of the new user and the
/// welcome e-mail, and asks for a transaction.
pub fn signup(user: &User, now: i64) -> (r: (SignupState, SignupAction))
    ensures
        r.0 matches SignupState::BeginningTransaction { record, email } && is_new_user_row(record, *user, now)
            && is_welcome_email(email, *user),
        r.1 is BeginTransaction,
{
    let (password, salt) = generate_encrypted_password(user.password.as_str());
    let record = NewUserTab {
        nickname: user.nickname.clone(),
        username: user.username.clone(),
        password,
        salt,
        create_time: now,
        update_time: now,
    };
    let mut data: Vec<(String, String)> = Vec::new();
    data.push((String::from_str("username"), user.username.clone()));
    data.push((String::from_str("url"), String::from_str("https://www.baidu.com")));
    let email = EmailRequest { receiver: user.email.clone(), data, key: owned(EMAIL_KEY_USER_REGISTER) };
    (SignupState::BeginningTransaction { record, email }, SignupAction::BeginTransaction)
}

/// Whether the caller reports on the work that a sign-up in this state
/// asked for.
pub open spec fn signup_event_fits(state: SignupState, event: SignupEvent) -> bool {
    match state {
        SignupState::BeginningTransaction { .. } => event is TransactionBegun,
        SignupState::Inserting { .. } => event is Inserted,
        SignupState::SendingEmail { .. } => event is EmailSent,
        SignupState::Committing { .. } => event is Committed,
        SignupState::Finished => false,
    }
}

/// Whether the caller reports on the work that a sign-up in this state
/// asked for.
pub fn signup_expects(state: &SignupState, event: &SignupEvent) -> (r: bool)
    ensures
        r == signup_event_fits(*state, *event),
{
    match (state, event) {
        (SignupState::BeginningTransaction { .. }, SignupEvent::TransactionBegun(_)) => true,
        (SignupState::Inserting { .. }, SignupEvent::Inserted(_)) => true,
        (SignupState::SendingEmail { .. }, SignupEvent::EmailSent(_)) => true,
        (SignupState::Committing { .. }, SignupEvent::Committed(_)) => true,
        _ => false,
    }
}

/// The next step of a sign-up: each failure finishes it with its error
/// (a taken user name with the user-existed service error); the row is
/// inserted once the transaction is open, the welcome e-mail is sent once
/// the row is in, the transaction is committed once the e-mail is out, and
/// the sign-up finishes with the number of inserted rows once the commit
/// is done.
pub open spec fn signup_next(state: SignupState, event: SignupEvent, r: (SignupState, SignupAction)) -> bool {
    match (state, event) {
        (SignupState::BeginningTransaction { record, email }, SignupEvent::TransactionBegun(res)) => match res {
            Ok(_) => r == (SignupState::Inserting { email }, SignupAction::InsertUser(record)),
            Err(e) => r == (SignupState::Finished, SignupAction::Finish(Err(e))),
        },
        (SignupState::Inserting { email }, SignupEvent::Inserted(res)) => match res {
            Ok(rows) => r == (SignupState::SendingEmail { rows }, SignupAction::SendEmail(email)),
            Err(e) => {
                &&& r.0 is Finished
                &&& r.1 matches SignupAction::Finish(Err(f)) && if e matches AppError::Db(k, _) && k
                    == DbErrorKind::UniqueViolation {
                    is_base(f, spec_err_user_existed())
                } else {
                    f == e
                }
            },
        },
        (SignupState::SendingEmail { rows }, SignupEvent::EmailSent(res)) => match res {
            Ok(_) => r == (SignupState::Committing { rows }, SignupAction::Commit),
            Err(e) => r == (SignupState::Finished, SignupAction::Finish(Err(e))),
        },
        (SignupState::Committing { rows }, SignupEvent::Committed(res)) => match res {
            Ok(_) => r == (SignupState::Finished, SignupAction::Finish(Ok(rows))),
            Err(e) => r == (SignupState::Finished, SignupAction::Finish(Err(e))),
        },
        _ => false,
    }
}

/// Takes a sign-up one step further on the caller's report.
pub fn signup_step(state: SignupState, event: SignupEvent) -> (r: (SignupState, SignupAction))
    requires
        signup_event_fits(state, event),
    ensures
        signup_next(state, event, r),
{
    match (state, event) {
        (SignupState::BeginningTransaction { record, email }, SignupEvent::TransactionBegun(res)) => match res {
            Ok(()) => (SignupState::Inserting { email }, SignupAction::InsertUser(record)),
            Err(e) => (SignupState::Finished, SignupAction::Finish(Err(e))),
        },
        (SignupState::Inserting { email }, SignupEvent::Inserted(res)) => match res {
            Ok(rows) => (SignupState::SendingEmail { rows }, SignupAction::SendEmail(email)),
            Err(e) => {
                let f = if is_duplicate(&e) {
                    AppError::Base(err_user_existed())
                } else {
                    e
                };
                (SignupState::Finished, SignupAction::Finish(Err(f)))
            },
        },
        (SignupState::SendingEmail { rows }, SignupEvent::EmailSent(res)) => match res {
            Ok(()) => (SignupState::Committing { rows }, SignupAction::Commit),
            Err(e) => (SignupState::Finished, SignupAction::Finish(Err(e))),
        },
        (SignupState::Committing { rows }, SignupEvent::Committed(res)) => match res {
            Ok(()) => (SignupState::Finished, SignupAction::Finish(Ok(rows))),
            Err(e) => (SignupState::Finished, SignupAction::Finish(Err(e))),
        },
        (_, _) => (SignupState::Finished, SignupAction::Finish(Ok(0))),
    }
}

/// Where a login stands.
#[derive(Debug)]
pub enum LoginState {
    /// The user is being looked up by name; the password typed in, how
    /// long the session lasts, and the salt of session secrets are kept.
    FindingUser { password: String, period_secs: i64, token_salt: String },
    /// A session token is being signed for the user; its secret is kept.
    SigningToken { userid: i64, secret: String },
    /// The login is over.
    Finished,
}

/// What the caller reports of the work it was asked to do.
#[derive(Debug)]
pub enum LoginEvent {
    /// The stored user, or the error of the lookup, and the time of the
    /// answer (seconds since the Unix epoch).
    UserFound { user: Result<UserTab, AppError>, now: i64 },
    /// The signed session token, or the error of the signing.
    TokenSigned(Result<String, AppError>),
}

/// The work the caller is asked to do next.
#[derive(Debug)]
pub enum LoginAction {
    FindUser(String),
    SignToken(UserTokenPayload),
    Finish(Result<String, AppError>),
}

/// Starts a login: asks for the stored user of that name.
pub fn login(username: &str, password: &str, period_secs: i64, token_salt: &str) -> (r: (LoginState, LoginAction))
    ensures
        r.0 matches LoginState::FindingUser { password: p, period_secs: d, token_salt: t } && p@ == password@
            && d == period_secs && t@ == token_salt@,
        r.1 matches LoginAction::FindUser(u) && u@ == username@,
{
    (
        LoginState::FindingUser { password: owned(password), period_secs, token_salt: owned(token_salt) },
        LoginAction::FindUser(owned(username)),
    )
}

/// Whether the caller reports on the work that a login in this state asked
/// for; when the user is found and the password matches, the session end
/// (the time of the answer plus the session's length) must fit in a signed
/// 64-bit integer.
pub open spec fn login_event_fits(state: LoginState, event: LoginEvent) -> bool {
    match state {
        LoginState::FindingUser { password, period_secs, .. } => event matches LoginEvent::UserFound { user, now }
            && (user matches Ok(u) && password_matches(password@, u.salt@, u.password@) ==> i64::MIN <= now
            + period_secs <= i64::MAX),
        LoginState::SigningToken { .. } => event is TokenSigned,
        LoginState::Finished => false,
    }
}

/// Whether the caller reports on the work that a login in this state asked
/// for, with a session end that fits where one is made.
pub fn login_expects(state: &LoginState, event: &LoginEvent) -> (r: bool)
    ensures
        r == login_event_fits(*state, *event),
{
    match (state, event) {
        (LoginState::FindingUser { password, period_secs, .. }, LoginEvent::UserFound { user, now }) => {
            match user {
                Ok(u) => if verify_encrypted_password(password.as_str(), u.salt.as_str(), u.password.as_str()) {
                    now.checked_add(*period_secs).is_some()
                } else {
                    true
                },
                Err(_) => true,
            }
        },
        (LoginState::SigningToken { .. }, LoginEvent::TokenSigned(_)) => true,
        _ => false,
    }
}

/// The claims of the session token of a stored user at `now`: the user's
/// id and name, the secret made from the stored password, and the end of
/// the session.
pub open spec fn is_session_claims(p: UserTokenPayload, u: UserTab, now: i64, period_secs: i64, token_salt: Seq<char>) -> bool {
    &&& p.userid == u.id
    &&& p.username == u.username
    &&& p.secret@ == encrypted(u.password@, token_salt)
    &&& p.exp == ((now + period_secs) as i64) as usize
}

/// The next step of a login: a user that is not found finishes it with the
/// user-not-found service error, any other lookup error with that error; a
/// wrong password finishes it with the invalid-parameter service error; a
/// right one asks for a session token; a signed token finishes it
/// successfully, a signing error with that error.
pub open spec fn login_next(state: LoginState, event: LoginEvent, r: (LoginState, LoginAction)) -> bool {
    match (state, event) {
        (LoginState::FindingUser { password, period_secs, token_salt }, LoginEvent::UserFound { user, now }) => match user {
            Err(e) => {
                &&& r.0 is Finished
                &&& r.1 matches LoginAction::Finish(Err(f)) && if e matches AppError::Db(k, _) && k
                    == DbErrorKind::NotFound {
                    is_base(f, spec_err_user_not_found())
                } else {
                    f == e
                }
            },
            Ok(u) => if password_matches(password@, u.salt@, u.password@) {
                &&& r.0 matches LoginState::SigningToken { userid, secret } && userid == u.id && secret@
                    == encrypted(u.password@, token_salt@)
                &&& r.1 matches LoginAction::SignToken(p) && is_session_claims(p, u, now, period_secs, token_salt@)
            } else {
                &&& r.0 is Finished
                &&& r.1 matches LoginAction::Finish(Err(f)) && is_base(f, spec_err_invalid_param())
            },
        },
        (LoginState::SigningToken { .. }, LoginEvent::TokenSigned(res)) => r == (
            LoginState::Finished,
            LoginAction::Finish(res),
        ),
        _ => false,
    }
}

/// What a login step does to the secrets stored in the session cache: once
/// a token is signed, the session's secret is stored under the user's id;
/// no other step stores or removes anything.
pub open spec fn login_cache_after(
    state: LoginState,
    event: LoginEvent,
    before: Map<i64, Seq<char>>,
    after: Map<i64, Seq<char>>,
) -> bool {
    match (state, event) {
        (LoginState::SigningToken { userid, secret }, LoginEvent::TokenSigned(Ok(_))) => after == before.insert(
            userid,
            secret@,
        ),
        _ => after == before,
    }
}

/// Takes a login one step further on the caller's report. Once a token is
/// signed, its secret is stored in the cache of session secrets under the
/// user's id.
pub fn login_step(state: LoginState, event: LoginEvent, cache: &mut UserCache) -> (r: (LoginState, LoginAction))
    requires
        login_event_fits(state, event),
    ensures
        login_next(state, event, r),
        login_cache_after(state, event, old(cache).stored(), final(cache).stored()),
        final(cache).max_capacity() == old(cache).max_capacity(),
        final(cache).time_to_live_secs() == old(cache).time_to_live_secs(),
{
    match (state, event) {
        (LoginState::FindingUser { password, period_secs, token_salt }, LoginEvent::UserFound { user, now }) => match user {
            Err(e) => {
                let f = if is_not_found(&e) {
                    AppError::Base(err_user_not_found())
                } else {
                    e
                };
                (LoginState::Finished, LoginAction::Finish(Err(f)))
            },
            Ok(u) => {
                if !verify_encrypted_password(password.as_str(), u.salt.as_str(), u.password.as_str()) {
                    return (LoginState::Finished, LoginAction::Finish(Err(AppError::Base(err_invalid_param()))));
                }
                let secret = generate_secret(u.password.as_str(), token_salt.as_str());
                let expires: i64 = now + period_secs;
                let claims = UserTokenPayload {
                    userid: u.id,
                    username: u.username,
                    secret: secret.clone(),
                    exp: expires as usize,
                };
                (LoginState::SigningToken { userid: u.id, secret }, LoginAction::SignToken(claims))
            },
        },
        (LoginState::SigningToken { userid, secret }, LoginEvent::TokenSigned(res)) => {
            match res {
                Ok(token) => {
                    cache.store(userid, secret);
                    (LoginState::Finished, LoginAction::Finish(Ok(token)))
                },
                Err(e) => (LoginState::Finished, LoginAction::Finish(Err(e))),
            }
        },
        (_, _) => (LoginState::Finished, LoginAction::Finish(Ok(String::new()))),
    }
}


/// The welcome e-mail of a sign-up goes out only once the new row is in.
pub proof fn lemma_signup_email_only_after_insert(state: SignupState, event: SignupEvent, r: (SignupState, SignupAction))
    requires
        signup_event_fits(state, event),
        signup_next(state, event, r),
        r.1 is SendEmail,
    ensures
        state is Inserting,
        event matches SignupEvent::Inserted(res) && res is Ok,
{
}

/// A sign-up commits only once the welcome e-mail is out.
pub proof fn lemma_signup_commit_only_after_email(state: SignupState, event: SignupEvent, r: (SignupState, SignupAction))
    requires
        signup_event_fits(state, event),
        signup_next(state, event, r),
        r.1 is Commit,
    ensures
        state is SendingEmail,
        event matches SignupEvent::EmailSent(res) && res is Ok,
{
}

/// A sign-up succeeds only once its commit is done, and with the number of
/// rows the insert affected.
pub proof fn lemma_signup_success_only_after_commit(state: SignupState, event: SignupEvent, r: (SignupState, SignupAction), n: i64)
    requires
        signup_event_fits(state, event),
        signup_next(state, event, r),
        r.1 == SignupAction::Finish(Ok::<i64, AppError>(n)),
    ensures
        state matches SignupState::Committing { rows } && rows == n,
        event matches SignupEvent::Committed(res) && res is Ok,
{
}

/// A finished sign-up stays finished: no report fits it any more.
pub proof fn lemma_signup_finish_is_final(state: SignupState, event: SignupEvent, r: (SignupState, SignupAction), later: SignupEvent)
    requires
        signup_event_fits(state, event),
        signup_next(state, event, r),
        r.1 is Finish,
    ensures
        r.0 is Finished,
        !signup_event_fits(r.0, later),
{
}

/// A user name that is taken already makes the sign-up finish with the
/// user-existed error, before any e-mail or commit.
pub proof fn lemma_signup_taken_name(email: EmailRequest, message: String, r: (SignupState, SignupAction))
    requires
        signup_next(
            SignupState::Inserting { email },
            SignupEvent::Inserted(Err(AppError::Db(DbErrorKind::UniqueViolation, message))),
            r,
        ),
    ensures
        r.0 is Finished,
        r.1 matches SignupAction::Finish(Err(f)) && is_base(f, spec_err_user_existed()),
{
}

/// A login asks for a session token only for a stored user whose stored
/// password the typed-in password matches, and the token is for that user.
pub proof fn lemma_login_token_only_for_matching_password(state: LoginState, event: LoginEvent, r: (LoginState, LoginAction))
    requires
        login_event_fits(state, event),
        login_next(state, event, r),
        r.1 is SignToken,
    ensures
        state is FindingUser,
        event matches LoginEvent::UserFound { user, .. } && user is Ok,
        password_matches(state->FindingUser_password@, event->UserFound_user->Ok_0.salt@, event->UserFound_user->Ok_0.password@),
        r.1 matches LoginAction::SignToken(p) && p.userid == event->UserFound_user->Ok_0.id,
{
}

/// What a sign-up stores, a login with the same password accepts: once
/// the row a sign-up made is read back, logging in with the user's
/// password asks for a session token for that row.
pub proof fn lemma_signed_up_user_can_log_in(
    user: User,
    now: i64,
    record: NewUserTab,
    row: UserTab,
    password: String,
    period_secs: i64,
    token_salt: String,
    later: i64,
    r: (LoginState, LoginAction),
)
    requires
        is_new_user_row(record, user, now),
        row.password == record.password,
        row.salt == record.salt,
        password@ == user.password@,
        login_next(
            LoginState::FindingUser { password, period_secs, token_salt },
            LoginEvent::UserFound { user: Ok(row), now: later },
            r,
        ),
    ensures
        r.1 matches LoginAction::SignToken(p) && p.userid == row.id && p.username == row.username,
{
}

/// Logging in and checking the session token agree on the session's end:
/// the claims of a login at `now` for `period_secs` seconds are not
/// expired at any time from the Unix epoch up to the session's end (for a
/// session end that a `usize` holds).
pub proof fn lemma_fresh_token_not_expired(p: UserTokenPayload, u: UserTab, now: i64, period_secs: i64, token_salt: Seq<char>, check: i64)
    requires
        is_session_claims(p, u, now, period_secs, token_salt),
        0 <= check <= now + period_secs <= i64::MAX,
        now + period_secs <= usize::MAX,
    ensures
        !is_expired(p, check),
{
}


/// A taken user name is answered as a duplicate record.
pub proof fn lemma_taken_name_answer(f: AppError, r: HttpResult<Option<()>>)
    requires
        is_base(f, spec_err_user_existed()),
        error_answer_is(r, f),
    ensures
        r.code == crate::error::HTTP_ERR_CODE_DUPLICATE,
        r.message@ == "duplicate record"@,
{
    reveal_strlit("user existed");
    reveal_strlit("user not found");
    assert(spec_err_user_existed()[5] != spec_err_user_not_found()[5]);
}

/// A user that is not found is answered as a missing record.
pub proof fn lemma_missing_user_answer(f: AppError, r: HttpResult<Option<()>>)
    requires
        is_base(f, spec_err_user_not_found()),
        error_answer_is(r, f),
    ensures
        r.code == crate::error::HTTP_ERR_CODE_RECORD_NOT_FOUND,
        r.message@ == "record not found"@,
{
}

/// A wrong password is answered as a parameter error.
pub proof fn lemma_wrong_password_answer(f: AppError, r: HttpResult<Option<()>>)
    requires
        is_base(f, spec_err_invalid_param()),
        error_answer_is(r, f),
    ensures
        r.code == crate::error::HTTP_ERR_CODE_PARAM,
        r.message@ == "param error"@,
{
    reveal_strlit("invalid param");
    reveal_strlit("user existed");
    reveal_strlit("user not found");
    assert(spec_err_invalid_param()[0] != spec_err_user_not_found()[0]);
    assert(spec_err_invalid_param()[0] != spec_err_user_existed()[0]);
}

/// A user that is not found is refused with the user-not-found error,
/// whatever the session's length and the time of the answer, and nothing
/// is stored in the session cache.
pub proof fn lemma_login_unknown_user(
    password: String,
    period_secs: i64,
    token_salt: String,
    message: String,
    now: i64,
    r: (LoginState, LoginAction),
    before: Map<i64, Seq<char>>,
    after: Map<i64, Seq<char>>,
)
    requires
        login_next(
            LoginState::FindingUser { password, period_secs, token_salt },
            LoginEvent::UserFound { user: Err(AppError::Db(DbErrorKind::NotFound, message)), now },
            r,
        ),
        login_cache_after(
            LoginState::FindingUser { password, period_secs, token_salt },
            LoginEvent::UserFound { user: Err(AppError::Db(DbErrorKind::NotFound, message)), now },
            before,
            after,
        ),
    ensures
        login_event_fits(
            LoginState::FindingUser { password, period_secs, token_salt },
            LoginEvent::UserFound { user: Err(AppError::Db(DbErrorKind::NotFound, message)), now },
        ),
        r.0 is Finished,
        r.1 matches LoginAction::Finish(Err(f)) && is_base(f, spec_err_user_not_found()),
        after == before,
{
}

/// A password that does not match the stored one is refused with the
/// invalid-parameter error, whatever the session's length and the time of
/// the answer, and nothing is stored in the session cache.
pub proof fn lemma_login_wrong_password(
    password: String,
    period_secs: i64,
    token_salt: String,
    u: UserTab,
    now: i64,
    r: (LoginState, LoginAction),
    before: Map<i64, Seq<char>>,
    after: Map<i64, Seq<char>>,
)
    requires
        !password_matches(password@, u.salt@, u.password@),
        login_next(
            LoginState::FindingUser { password, period_secs, token_salt },
            LoginEvent::UserFound { user: Ok(u), now },
            r,
        ),
        login_cache_after(
            LoginState::FindingUser { password, period_secs, token_salt },
            LoginEvent::UserFound { user: Ok(u), now },
            before,
            after,
        ),
    ensures
        login_event_fits(
            LoginState::FindingUser { password, period_secs, token_salt },
            LoginEvent::UserFound { user: Ok(u), now },
        ),
        r.0 is Finished,
        r.1 matches LoginAction::Finish(Err(f)) && is_base(f, spec_err_invalid_param()),
        after == before,
{
}

/// A login with the right password ends with the signed token, and the
/// session cache then holds, under the user's id, the secret made from the
/// stored password under the token salt: the secret in the token's claims.
/// A load of the user's id from the cache afterwards (`loaded`, as `load`
/// states it) gives that secret or nothing.
pub proof fn lemma_login_success_stores_secret(
    password: String,
    period_secs: i64,
    token_salt: String,
    u: UserTab,
    now: i64,
    first: (LoginState, LoginAction),
    token: String,
    second: (LoginState, LoginAction),
    before: Map<i64, Seq<char>>,
    after: Map<i64, Seq<char>>,
    loaded: Option<String>,
)
    requires
        password_matches(password@, u.salt@, u.password@),
        login_next(
            LoginState::FindingUser { password, period_secs, token_salt },
            LoginEvent::UserFound { user: Ok(u), now },
            first,
        ),
        login_next(first.0, LoginEvent::TokenSigned(Ok(token)), second),
        login_cache_after(first.0, LoginEvent::TokenSigned(Ok(token)), before, after),
        loaded matches Some(s) ==> after.contains_key(u.id) && s@ == after[u.id],
    ensures
        first.1 matches LoginAction::SignToken(p) && p.userid == u.id && p.secret@ == encrypted(
            u.password@,
            token_salt@,
        ),
        second.0 is Finished,
        second.1 == LoginAction::Finish(Ok::<String, AppError>(token)),
        after == before.insert(u.id, encrypted(u.password@, token_salt@)),
        loaded matches Some(s) ==> s@ == encrypted(u.password@, token_salt@),
{
}

/// A session token is refused exactly when its expiry lies before the
/// time of the check (read as an unsigned size): then with the
/// invalid-token service error, otherwise the claims come through as they
/// are.
pub proof fn lemma_token_expiry(p: UserTokenPayload, now: i64, r: Result<UserTokenPayload, AppError>)
    requires
        decrypted_is(Ok(p), now, r),
    ensures
        p.exp < (now as usize) ==> (r matches Err(e) && e matches AppError::Base(b) && b.0@ == "invalid token"@),
        !(p.exp < (now as usize)) ==> r == Ok::<UserTokenPayload, AppError>(p),
{
}

/// A token accepted at some time is accepted at every earlier time from
/// the Unix epoch on (for times that a `usize` holds).
pub proof fn lemma_token_accepted_earlier(
    p: UserTokenPayload,
    early: i64,
    late: i64,
    r_early: Result<UserTokenPayload, AppError>,
    r_late: Result<UserTokenPayload, AppError>,
)
    requires
        0 <= early <= late <= usize::MAX,
        decrypted_is(Ok(p), early, r_early),
        decrypted_is(Ok(p), late, r_late),
        r_late is Ok,
    ensures
        r_early == Ok::<UserTokenPayload, AppError>(p),
{
}

} // verus!
