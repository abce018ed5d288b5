//! The error model: error codes and messages answered over HTTP
//! (`HttpError`), the fixed errors of the service layer (`BaseError`), and
//! `AppError`, the error that flows through the service and is told apart
//! by kind where the service decides on it.
use vstd::prelude::*;
use crate::decimal::{decimal_digits, u64_to_decimal};
use crate::text::{owned, str_eq};

verus! {

/// The numeric code of an error answered over HTTP.
pub type ErrCode = u32;

/// The code of an internal failure.
pub const HTTP_ERR_CODE_INNER: ErrCode = 100000;
/// The code of a database failure.
pub const HTTP_ERR_CODE_DB: ErrCode = 100001;
/// The code of a bad request parameter.
pub const HTTP_ERR_CODE_PARAM: ErrCode = 100002;
/// The code of a missing, malformed or expired session token.
pub const HTTP_ERR_CODE_INVALID_TOKEN: ErrCode = 100003;
/// The code of a record that does not exist.
pub const HTTP_ERR_CODE_RECORD_NOT_FOUND: ErrCode = 100004;
/// The code of a record that exists already.
pub const HTTP_ERR_CODE_DUPLICATE: ErrCode = 100005;

/// An error answered over HTTP: a code and a message, either one of the
/// built-in messages or a message made at run time.
#[derive(Debug, Clone)]
pub enum HttpError {
    BuiltInErr(ErrCode, &'static str),
    CustomizedErr(ErrCode, String),
}

/// What an `HttpError` holds, with its message as characters.
pub ghost enum HttpErrorView {
    BuiltIn(ErrCode, Seq<char>),
    Customized(ErrCode, Seq<char>),
}

impl HttpErrorView {
    /// The code of the error.
    pub open spec fn code(self) -> ErrCode {
        match self {
            HttpErrorView::BuiltIn(c, _) => c,
            HttpErrorView::Customized(c, _) => c,
        }
    }

    /// The message of the error.
    pub open spec fn message(self) -> Seq<char> {
        match self {
            HttpErrorView::BuiltIn(_, m) => m,
            HttpErrorView::Customized(_, m) => m,
        }
    }

    /// The text of the error: `err_code=<code>, message=<message>`.
    pub open spec fn text(self) -> Seq<char> {
        "err_code="@ + decimal_digits(self.code() as nat) + ", message="@ + self.message()
    }
}

impl View for HttpError {
    type V = HttpErrorView;

    open spec fn view(&self) -> HttpErrorView {
        match self {
            HttpError::BuiltInErr(c, m) => HttpErrorView::BuiltIn(*c, m@),
            HttpError::CustomizedErr(c, m) => HttpErrorView::Customized(*c, m@),
        }
    }
}

/// A built-in error with the given code and message.
pub open spec fn builtin(code: ErrCode, message: Seq<char>) -> HttpErrorView {
    HttpErrorView::BuiltIn(code, message)
}

/// The built-in internal error: `inner error`.
pub open spec fn spec_http_err_inner() -> HttpErrorView {
    builtin(HTTP_ERR_CODE_INNER, "inner error"@)
}

/// The built-in database error: `database error`.
pub open spec fn spec_http_err_db() -> HttpErrorView {
    builtin(HTTP_ERR_CODE_DB, "database error"@)
}

/// The built-in parameter error: `param error`.
pub open spec fn spec_http_err_param() -> HttpErrorView {
    builtin(HTTP_ERR_CODE_PARAM, "param error"@)
}

/// The built-in session error: `invalid token`.
pub open spec fn spec_http_err_invalid_token() -> HttpErrorView {
    builtin(HTTP_ERR_CODE_INVALID_TOKEN, "invalid token"@)
}

/// The built-in missing-record error: `record not found`.
pub open spec fn spec_http_err_record_not_found() -> HttpErrorView {
    builtin(HTTP_ERR_CODE_RECORD_NOT_FOUND, "record not found"@)
}

/// The built-in duplicate-record error: `duplicate record`.
pub open spec fn spec_http_err_duplicate() -> HttpErrorView {
    builtin(HTTP_ERR_CODE_DUPLICATE, "duplicate record"@)
}

/// The built-in error for an internal failure.
pub fn http_err_inner() -> (e: HttpError)
    ensures
        e@ == spec_http_err_inner(),
{
    HttpError::BuiltInErr(HTTP_ERR_CODE_INNER, "inner error")
}

/// The built-in error for a database failure.
pub fn http_err_db() -> (e: HttpError)
    ensures
        e@ == spec_http_err_db(),
{
    HttpError::BuiltInErr(HTTP_ERR_CODE_DB, "database error")
}

/// The built-in error for a bad request parameter.
pub fn http_err_param() -> (e: HttpError)
    ensures
        e@ == spec_http_err_param(),
{
    HttpError::BuiltInErr(HTTP_ERR_CODE_PARAM, "param error")
}

/// The built-in error for a missing, malformed or expired session token.
pub fn http_err_invalid_token() -> (e: HttpError)
    ensures
        e@ == spec_http_err_invalid_token(),
{
    HttpError::BuiltInErr(HTTP_ERR_CODE_INVALID_TOKEN, "invalid token")
}

/// The built-in error for a record that does not exist.
pub fn http_err_record_not_found() -> (e: HttpError)
    ensures
        e@ == spec_http_err_record_not_found(),
{
    HttpError::BuiltInErr(HTTP_ERR_CODE_RECORD_NOT_FOUND, "record not found")
}

/// The built-in error for a record that exists already.
pub fn http_err_duplicate() -> (e: HttpError)
    ensures
        e@ == spec_http_err_duplicate(),
{
    HttpError::BuiltInErr(HTTP_ERR_CODE_DUPLICATE, "duplicate record")
}

/// An error with a code and a message made at run time.
pub fn new_customized_error(code: ErrCode, msg: String) -> (e: HttpError)
    ensures
        e@ == HttpErrorView::Customized(code, msg@),
{
    HttpError::CustomizedErr(code, msg)
}

/// An error with a code and one of the fixed messages.
pub fn new_builtin_error(code: ErrCode, msg: &'static str) -> (e: HttpError)
    ensures
        e@ == HttpErrorView::BuiltIn(code, msg@),
{
    HttpError::BuiltInErr(code, msg)
}

impl HttpError {
    /// The code of the error.
    pub fn code(&self) -> (c: ErrCode)
        ensures
            c == self@.code(),
    {
        match self {
            HttpError::BuiltInErr(c, _) => *c,
            HttpError::CustomizedErr(c, _) => *c,
        }
    }

    /// The message of the error.
    pub fn message(&self) -> (m: String)
        ensures
            m@ == self@.message(),
    {
        match self {
            HttpError::BuiltInErr(_, m) => owned(m),
            HttpError::CustomizedErr(_, m) => m.clone(),
        }
    }

    /// The text of the error, `err_code=<code>, message=<message>`, as it
    /// is shown to people.
    pub fn to_text(&self) -> (t: String)
        ensures
            t@ == self@.text(),
    {
        let mut t = String::from_str("err_code=");
        let digits = u64_to_decimal(self.code() as u64);
        t.append(digits.as_str());
        t.append(", message=");
        let m = self.message();
        t.append(m.as_str());
        t
    }
}

/// One of the fixed errors of the service layer, known by its message.
#[derive(Debug, Clone)]
pub struct BaseError(pub &'static str);

/// The kind of a failed database operation, as far as the service tells
/// kinds apart.
#[derive(Debug, Clone, Copy, PartialEq, Eq, Structural)]
pub enum DbErrorKind {
    /// The query found no row.
    NotFound,
    /// The statement broke a uniqueness constraint.
    UniqueViolation,
    /// Any other failure.
    Other,
}

/// An error as it flows through the service: one of the fixed service
/// errors, an HTTP error, a database failure, or any other failure with its
/// text.
#[derive(Debug, Clone)]
pub enum AppError {
    Base(BaseError),
    Http(HttpError),
    Db(DbErrorKind, String),
    Other(String),
}

impl AppError {
    /// The text of the error as it is shown to people.
    pub open spec fn text(self) -> Seq<char> {
        match self {
            AppError::Base(b) => b.0@,
            AppError::Http(h) => h@.text(),
            AppError::Db(_, m) => m@,
            AppError::Other(m) => m@,
        }
    }

    /// The HTTP error this error is answered with: itself when it is one,
    /// otherwise an internal error carrying the error's text.
    pub open spec fn http_view(self) -> HttpErrorView {
        match self {
            AppError::Http(h) => h@,
            _ => HttpErrorView::Customized(HTTP_ERR_CODE_INNER, self.text()),
        }
    }

    /// The text of the error as it is shown to people.
    pub fn to_text(&self) -> (t: String)
        ensures
            t@ == self.text(),
    {
        match self {
            AppError::Base(b) => owned(b.0),
            AppError::Http(h) => h.to_text(),
            AppError::Db(_, m) => m.clone(),
            AppError::Other(m) => m.clone(),
        }
    }
}

impl HttpError {
    /// The HTTP error for any error of the service: the error itself when
    /// it is an HTTP error, otherwise an internal error that carries the
    /// error's text.
    pub fn from_error(err: AppError) -> (e: HttpError)
        ensures
            e@ == err.http_view(),
    {
        match err {
            AppError::Http(h) => h,
            other => {
                let t = other.to_text();
                HttpError::CustomizedErr(HTTP_ERR_CODE_INNER, t)
            },
        }
    }
}

impl BaseError {
    /// Whether `err` is this service error: a `BaseError` with the same
    /// message.
    pub fn eq(&self, err: &AppError) -> (r: bool)
        ensures
            r == (err matches AppError::Base(b) && b.0@ == self.0@),
    {
        match err {
            AppError::Base(b) => str_eq(b.0, self.0),
            _ => false,
        }
    }
}

/// Whether an error is a database query that found no row.
pub fn is_not_found(err: &AppError) -> (r: bool)
    ensures
        r == (err matches AppError::Db(k, _) && k == DbErrorKind::NotFound),
{
    match err {
        AppError::Db(k, _) => *k == DbErrorKind::NotFound,
        _ => false,
    }
}

/// Whether an error is a statement that broke a uniqueness constraint.
pub fn is_duplicate(err: &AppError) -> (r: bool)
    ensures
        r == (err matches AppError::Db(k, _) && k == DbErrorKind::UniqueViolation),
{
    match err {
        AppError::Db(k, _) => *k == DbErrorKind::UniqueViolation,
        _ => false,
    }
}

/// The message of the service error for a session that is no longer valid.
pub open spec fn spec_err_invalid_token() -> Seq<char> {
    "invalid token"@
}

/// The message of the service error for a user that does not exist.
pub open spec fn spec_err_user_not_found() -> Seq<char> {
    "user not found"@
}

/// The message of the service error for a user name that is taken.
pub open spec fn spec_err_user_existed() -> Seq<char> {
    "user existed"@
}

/// The message of the service error for a wrong parameter.
pub open spec fn spec_err_invalid_param() -> Seq<char> {
    "invalid param"@
}

/// The service error for a session token that is no longer valid.
pub fn err_invalid_token() -> (e: BaseError)
    ensures
        e.0@ == spec_err_invalid_token(),
{
    BaseError("invalid token")
}

/// The service error for a user that does not exist.
pub fn err_user_not_found() -> (e: BaseError)
    ensures
        e.0@ == spec_err_user_not_found(),
{
    BaseError("user not found")
}

/// The service error for a user name that is taken.
pub fn err_user_existed() -> (e: BaseError)
    ensures
        e.0@ == spec_err_user_existed(),
{
    BaseError("user existed")
}

/// The service error for a wrong parameter, such as a wrong password.
pub fn err_invalid_param() -> (e: BaseError)
    ensures
        e.0@ == spec_err_invalid_param(),
{
    BaseError("invalid param")
}

/// Converts a value into the HTTP error it is answered with.
pub trait IntoErr: Sized {
    /// The HTTP error that the value becomes.
    spec fn err_view(&self) -> HttpErrorView;

    fn into_err(self) -> (e: HttpError)
        ensures
            e@ == self.err_view(),
    ;
}

impl IntoErr for String {
    open spec fn err_view(&self) -> HttpErrorView {
        HttpErrorView::Customized(HTTP_ERR_CODE_INNER, self@)
    }

    fn into_err(self) -> (e: HttpError) {
        new_customized_error(HTTP_ERR_CODE_INNER, self)
    }
}

impl IntoErr for &'static str {
    open spec fn err_view(&self) -> HttpErrorView {
        HttpErrorView::BuiltIn(HTTP_ERR_CODE_INNER, (*self)@)
    }

    fn into_err(self) -> (e: HttpError) {
        new_builtin_error(HTTP_ERR_CODE_INNER, self)
    }
}

impl IntoErr for HttpError {
    open spec fn err_view(&self) -> HttpErrorView {
        self@
    }

    fn into_err(self) -> (e: HttpError) {
        self
    }
}

impl IntoErr for AppError {
    open spec fn err_view(&self) -> HttpErrorView {
        self.http_view()
    }

    fn into_err(self) -> (e: HttpError) {
        HttpError::from_error(self)
    }
}

impl IntoErr for BaseError {
    open spec fn err_view(&self) -> HttpErrorView {
        HttpErrorView::BuiltIn(HTTP_ERR_CODE_INNER, self.0@)
    }

    fn into_err(self) -> (e: HttpError) {
        new_builtin_error(HTTP_ERR_CODE_INNER, self.0)
    }
}

} // verus!
