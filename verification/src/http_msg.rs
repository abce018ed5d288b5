//! The body of every HTTP answer, and the identity of a signed-in caller.
use vstd::prelude::*;
use crate::error::{AppError, HttpError, IntoErr, HttpErrorView};

verus! {

/// The body of an HTTP answer: a code (zero on success), a message, and
/// the data.
pub struct HttpResult<T> {
    pub code: u32,
    pub message: String,
    pub data: T,
}

/// A successful answer: code zero, empty message, and the data.
pub fn success<T>(data: T) -> (r: HttpResult<T>)
    ensures
        r.code == 0,
        r.message@ == Seq::<char>::empty(),
        r.data == data,
{
    HttpResult { code: 0, message: String::new(), data }
}

/// A failed answer with the given code and message and no data.
pub fn failure(code: u32, message: String) -> (r: HttpResult<Option<()>>)
    ensures
        r.code == code,
        r.message@ == message@,
        r.data is None,
{
    HttpResult { code, message, data: None }
}

/// Whether an answer is the failure answer for the given HTTP error.
pub open spec fn is_failure_for(r: HttpResult<Option<()>>, e: HttpErrorView) -> bool {
    &&& r.code == e.code()
    &&& r.message@ == e.message()
    &&& r.data is None
}

/// The failed answer for an error: the code and the message of the HTTP
/// error that the value becomes.
pub fn failure_from<E: IntoErr>(err: E) -> (r: HttpResult<Option<()>>)
    ensures
        is_failure_for(r, err.err_view()),
{
    let e = err.into_err();
    match e {
        HttpError::BuiltInErr(code, msg) => HttpResult {
            code,
            message: crate::text::owned(msg),
            data: None,
        },
        HttpError::CustomizedErr(code, msg) => HttpResult { code, message: msg, data: None },
    }
}

/// The identity of a signed-in caller, taken from a valid session token.
#[derive(Clone, Debug)]
pub struct UserContext {
    pub uid: i64,
    pub username: String,
}

impl Default for UserContext {
    fn default() -> (r: UserContext)
        ensures
            r.uid == 0,
            r.username@ == Seq::<char>::empty(),
    {
        UserContext { uid: 0, username: String::new() }
    }
}

/// A request body that checks its own fields.
pub trait Validate: Sized {
    /// Whether the fields are acceptable.
    spec fn is_valid(&self) -> bool;

    /// Checks the fields: `Ok` exactly when they are acceptable, and the
    /// value is left as it was.
    fn validate(&mut self) -> (r: Result<(), AppError>)
        ensures
            r is Ok <==> old(self).is_valid(),
            *final(self) == *old(self),
    ;
}

} // verus!
