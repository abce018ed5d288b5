//! The wall clock of the service.
use vstd::prelude::*;
use chrono::Utc;

verus! {

/// The current time, in whole seconds since the Unix epoch.
///
/// Calls `chrono::Utc::now` and `DateTime::timestamp`. Nothing is said of
/// the result: it is the time of the machine's clock.
#[verifier::external_body]
pub fn now_timestamp() -> (t: i64) {
    Utc::now().timestamp()
}

} // verus!
