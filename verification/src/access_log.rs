//! The access log: one line for every request, with what came in, what
//! went out, and how long it took.
use vstd::prelude::*;
use crate::decimal::{decimal_digits, u128_to_decimal, u64_to_decimal};
use crate::text::owned;

verus! {

/// What is known of a request before it is handled.
#[derive(Clone, Debug)]
pub struct AccessRecord {
    pub remote_addr: String,
    pub method: String,
    pub path: String,
    pub version: String,
    pub user_agent: String,
    pub param: String,
    pub req_body: String,
}

/// An optional text, or a default when it is missing.
pub open spec fn or_text(o: Option<String>, default: Seq<char>) -> Seq<char> {
    match o {
        Some(s) => s@,
        None => default,
    }
}

fn or_default(o: Option<String>, default: &str) -> (r: String)
    ensures
        r@ == or_text(o, default@),
{
    match o {
        Some(s) => s,
        None => owned(default),
    }
}

/// The record of a request: a missing peer address is `unknown`, a missing
/// or unreadable user agent is `-`, and a body that is not UTF-8 is empty.
pub fn access_record(
    remote_addr: Option<String>,
    method: String,
    path: String,
    version: String,
    user_agent: Option<String>,
    param: String,
    req_body: Option<String>,
) -> (r: AccessRecord)
    ensures
        r.remote_addr@ == or_text(remote_addr, "unknown"@),
        r.method == method,
        r.path == path,
        r.version == version,
        r.user_agent@ == or_text(user_agent, "-"@),
        r.param == param,
        r.req_body@ == or_text(req_body, Seq::empty()),
{
    AccessRecord {
        remote_addr: or_default(remote_addr, "unknown"),
        method,
        path,
        version,
        user_agent: or_default(user_agent, "-"),
        param,
        req_body: match req_body {
            Some(b) => b,
            None => String::new(),
        },
    }
}

/// The log line of a handled request: who asked, what for, the status,
/// the length of the answer (`-` when unknown), the user agent, the
/// caller, the query, both bodies (the answer's `-` when it is not UTF-8),
/// and the milliseconds it took.
pub open spec fn response_line(
    r: AccessRecord,
    status: u16,
    content_length: Seq<char>,
    user: Seq<char>,
    resp_body: Seq<char>,
    cost_ms: u128,
) -> Seq<char> {
    r.remote_addr@ + " "@ + r.method@ + " "@ + r.path@ + " "@ + r.version@ + " "@ + decimal_digits(status as nat)
        + " "@ + content_length + " "@ + r.user_agent@ + " user=["@ + user + "] param=["@ + r.param@
        + "] req_body=["@ + r.req_body@ + "] resp_body=["@ + resp_body + "] cost=["@ + decimal_digits(
        cost_ms as nat,
    ) + "]ms"@
}

/// The log line of a handled request.
pub fn response_log_line(
    r: &AccessRecord,
    status: u16,
    content_length: Option<String>,
    user: &str,
    resp_body: Option<String>,
    cost_ms: u128,
) -> (line: String)
    ensures
        line@ == response_line(*r, status, or_text(content_length, "-"@), user@, or_text(resp_body, "-"@), cost_ms),
{
    let content_length = or_default(content_length, "-");
    let resp_body = or_default(resp_body, "-");
    let status_text = u64_to_decimal(status as u64);
    let cost_text = u128_to_decimal(cost_ms);
    let mut s = owned(r.remote_addr.as_str());
    s.append(" ");
    s.append(r.method.as_str());
    s.append(" ");
    s.append(r.path.as_str());
    s.append(" ");
    s.append(r.version.as_str());
    s.append(" ");
    s.append(status_text.as_str());
    s.append(" ");
    s.append(content_length.as_str());
    s.append(" ");
    s.append(r.user_agent.as_str());
    s.append(" user=[");
    s.append(user);
    s.append("] param=[");
    s.append(r.param.as_str());
    s.append("] req_body=[");
    s.append(r.req_body.as_str());
    s.append("] resp_body=[");
    s.append(resp_body.as_str());
    s.append("] cost=[");
    s.append(cost_text.as_str());
    s.append("]ms");
    s
}

/// The log line of a request whose handling failed: who asked, what for,
/// the user agent, the query, the body, the error, and the milliseconds it
/// took.
pub open spec fn error_line(r: AccessRecord, error: Seq<char>, cost_ms: u128) -> Seq<char> {
    "[ERROR]"@ + r.remote_addr@ + " "@ + r.method@ + " "@ + r.path@ + " "@ + r.version@ + " "@
        + r.user_agent@ + " param=["@ + r.param@ + "] req_body=["@ + r.req_body@ + "] error="@ + error
        + " cost=["@ + decimal_digits(cost_ms as nat) + "]ms"@
}

/// The log line of a request whose handling failed.
pub fn error_log_line(r: &AccessRecord, error: &str, cost_ms: u128) -> (line: String)
    ensures
        line@ == error_line(*r, error@, cost_ms),
{
    let cost_text = u128_to_decimal(cost_ms);
    let mut s = String::from_str("[ERROR]");
    s.append(r.remote_addr.as_str());
    s.append(" ");
    s.append(r.method.as_str());
    s.append(" ");
    s.append(r.path.as_str());
    s.append(" ");
    s.append(r.version.as_str());
    s.append(" ");
    s.append(r.user_agent.as_str());
    s.append(" param=[");
    s.append(r.param.as_str());
    s.append("] req_body=[");
    s.append(r.req_body.as_str());
    s.append("] error=");
    s.append(error);
    s.append(" cost=[");
    s.append(cost_text.as_str());
    s.append("]ms");
    s
}

} // verus!
