//! The rows of the user table.
use vstd::prelude::*;

verus! {

/// A stored user.
#[derive(Debug, Clone)]
pub struct UserTab {
    pub id: i64,
    pub nickname: String,
    pub username: String,
    pub password: String,
    pub salt: String,
    pub create_time: i64,
    pub update_time: i64,
}

/// A user to be stored; the table gives the id.
#[derive(Debug, Clone)]
pub struct NewUserTab {
    pub nickname: String,
    pub username: String,
    pub password: String,
    pub salt: String,
    pub create_time: i64,
    pub update_time: i64,
}

/// A change to a stored user: the fields to set, and the time of the
/// change.
#[derive(Debug, Clone)]
pub struct UpdateUserTab {
    pub nickname: Option<String>,
    pub password: Option<String>,
    pub salt: Option<String>,
    pub update_time: i64,
}

} // verus!
