//! A user service: accounts, sign-up and login, session tokens, the
//! error model shared by the HTTP layer, and the configuration tree.
use vstd::prelude::*;

pub mod text;
pub mod decimal;
pub mod error;
pub mod http_msg;
pub mod model;
pub mod entity;
pub mod crypt;
pub mod config;
pub mod email;
pub mod cache;
pub mod auth;
pub mod service;
pub mod datasource;
pub mod access_log;
pub mod clock;

verus! {

} // verus!
