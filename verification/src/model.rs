//! The request bodies and the session token claims of the user service.
use vstd::prelude::*;
use crate::error::{AppError, spec_http_err_param, http_err_param};
use crate::http_msg::Validate;

verus! {

/// A sign-up request.
#[derive(Clone, Debug)]
pub struct User {
    pub nickname: String,
    pub username: String,
    pub email: String,
    pub password: String,
    pub registration_time: i64,
}

/// The claims of a session token: who the token is for, the secret that
/// ties it to the password of the moment, and when it expires (seconds
/// since the Unix epoch).
#[derive(Clone, Debug)]
pub struct UserTokenPayload {
    pub userid: i64,
    pub username: String,
    pub secret: String,
    pub exp: usize,
}

/// A login request.
#[derive(Clone, Debug)]
pub struct UserLogin {
    pub username: String,
    pub password: String,
}

impl Validate for UserLogin {
    /// A login request needs a user name and a password.
    open spec fn is_valid(&self) -> bool {
        self.username@.len() > 0 && self.password@.len() > 0
    }

    /// Refuses a login request whose user name or password is empty, with
    /// the built-in parameter error.
    fn validate(&mut self) -> (r: Result<(), AppError>)
        ensures
            r is Ok <==> old(self).username@.len() > 0 && old(self).password@.len() > 0,
            r matches Err(e) ==> e matches AppError::Http(h) && h@ == spec_http_err_param(),
    {
        if self.username.as_str().is_empty() || self.password.as_str().is_empty() {
            Err(AppError::Http(http_err_param()))
        } else {
            Ok(())
        }
    }
}

/// A login request is accepted exactly when its user name and its password
/// are both non-empty, whatever their length; a refused one is refused with
/// the built-in parameter error.
pub proof fn lemma_login_request_accepted(u: UserLogin, after: UserLogin, r: Result<(), AppError>)
    requires
        r is Ok <==> u.is_valid(),
        after == u,
        r matches Err(e) ==> e matches AppError::Http(h) && h@ == spec_http_err_param(),
    ensures
        r is Ok <==> u.username@.len() > 0 && u.password@.len() > 0,
        r matches Err(e) ==> e matches AppError::Http(h) && h@.code() == 100002 && h@.message() == "param error"@,
        after == u,
{
}

} // verus!
