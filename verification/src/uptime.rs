//! Uptime probe results: target normalization, URL construction, and the
//! classification of a probe outcome into an observation.

use crate::text::strip_prefix_all;
use crate::text::strip_prefix_repeated;
use crate::text::trim_whitespace;
use crate::text::trim_ws;
use vstd::prelude::*;
use vstd::string::StringExecFns;

verus! {

/// One uptime observation. `checked_at` is in Unix epoch seconds.
#[derive(Clone, Debug)]
pub struct UptimeCheckResult {
    pub domain: String,
    pub url: String,
    pub is_up: bool,
    pub status_code: Option<u16>,
    pub response_time_ms: u64,
    pub error_message: Option<String>,
    pub checked_at: i64,
}

/// Failure of an uptime probe.
#[derive(Clone, Debug)]
pub enum UptimeError {
    RequestFailed(String),
    InvalidUrl(String),
}

impl UptimeError {
    /// Render the error as its one-line display string.
    pub fn display_message(&self) -> (r: String)
        ensures
            match *self {
                UptimeError::RequestFailed(m) => r@ == "Request failed: "@ + m@,
                UptimeError::InvalidUrl(m) => r@ == "Invalid URL: "@ + m@,
            },
    {
        let mut s = String::new();
        match self {
            UptimeError::RequestFailed(m) => {
                s.append("Request failed: ");
                s.append(m.as_str());
                assert(s@ =~= "Request failed: "@ + m@);
            },
            UptimeError::InvalidUrl(m) => {
                s.append("Invalid URL: ");
                s.append(m.as_str());
                assert(s@ =~= "Invalid URL: "@ + m@);
            },
        }
        s
    }
}

/// A site counts as up exactly when a response was obtained and its status
/// code is below 500.
pub open spec fn spec_is_up(status_code: Option<u16>) -> bool {
    status_code matches Some(c) && c < 500
}

/// Well-formedness of an observation: the up flag agrees with the status.
pub open spec fn uptime_result_wf(r: UptimeCheckResult) -> bool {
    r.is_up == spec_is_up(r.status_code)
}

/// Every well-formed uptime result has `is_up` true exactly when a status
/// code is present and below 500.
pub proof fn lemma_uptime_up_iff(r: UptimeCheckResult)
    requires
        uptime_result_wf(r),
    ensures
        r.is_up <==> (r.status_code matches Some(c) && c < 500),
{
}

/// The probe target derived from a configured domain: surrounding
/// whitespace and any leading scheme prefixes removed.
pub open spec fn spec_uptime_target(d: Seq<char>) -> Seq<char> {
    strip_prefix_all(strip_prefix_all(trim_ws(d), "https://"@), "http://"@)
}

/// Normalize a configured domain into the probe target.
pub fn normalize_uptime_target(domain: &str) -> (r: String)
    ensures
        r@ == spec_uptime_target(domain@),
{
    proof {
        reveal_strlit("https://");
        reveal_strlit("http://");
    }
    let trimmed = trim_whitespace(domain);
    let no_https = strip_prefix_repeated(trimmed.as_str(), "https://");
    strip_prefix_repeated(no_https.as_str(), "http://")
}

/// The URL a probe requests: scheme, target, and path.
pub open spec fn spec_probe_url(https: bool, target: Seq<char>, path: Seq<char>) -> Seq<char> {
    (if https {
        "https://"@
    } else {
        "http://"@
    }) + target + path
}

/// Build the URL for a probe request.
pub fn build_probe_url(https: bool, target: &str, path: &str) -> (r: String)
    ensures
        r@ == spec_probe_url(https, target@, path@),
{
    let mut s = String::new();
    if https {
        s.append("https://");
    } else {
        s.append("http://");
    }
    s.append(target);
    s.append(path);
    assert(s@ =~= spec_probe_url(https, target@, path@));
    s
}

/// Observation for a probe that obtained an HTTP response.
pub fn uptime_result_from_response(
    domain: String,
    url: String,
    status_code: u16,
    response_time_ms: u64,
    checked_at: i64,
) -> (r: UptimeCheckResult)
    ensures
        r.domain == domain,
        r.url == url,
        r.status_code == Some(status_code),
        r.is_up == (status_code < 500),
        r.response_time_ms == response_time_ms,
        r.error_message is None,
        r.checked_at == checked_at,
        uptime_result_wf(r),
{
    UptimeCheckResult {
        domain,
        url,
        is_up: status_code < 500,
        status_code: Some(status_code),
        response_time_ms,
        error_message: None,
        checked_at,
    }
}

/// Observation for a probe whose HTTPS attempt and HTTP fallback both
/// failed at the transport level; `http_error` is the fallback's failure
/// text.
pub fn uptime_result_from_transport_failure(
    domain: String,
    url: String,
    response_time_ms: u64,
    http_error: &str,
    checked_at: i64,
) -> (r: UptimeCheckResult)
    ensures
        r.domain == domain,
        r.url == url,
        r.status_code is None,
        r.is_up == false,
        r.response_time_ms == response_time_ms,
        r.error_message matches Some(m) && m@ == "HTTPS and HTTP failed: "@ + http_error@,
        r.checked_at == checked_at,
        uptime_result_wf(r),
{
    let mut msg = String::new();
    msg.append("HTTPS and HTTP failed: ");
    msg.append(http_error);
    assert(msg@ =~= "HTTPS and HTTP failed: "@ + http_error@);
    UptimeCheckResult {
        domain,
        url,
        is_up: false,
        status_code: None,
        response_time_ms,
        error_message: Some(msg),
        checked_at,
    }
}

/// Observation recorded when a probe inside a multi-endpoint sweep fails
/// with a service error rather than a transport failure.
pub fn uptime_result_from_probe_error(
    domain: String,
    url: String,
    message: String,
    checked_at: i64,
) -> (r: UptimeCheckResult)
    ensures
        r.domain == domain,
        r.url == url,
        r.status_code is None,
        r.is_up == false,
        r.response_time_ms == 0,
        r.error_message == Some(message),
        r.checked_at == checked_at,
        uptime_result_wf(r),
{
    UptimeCheckResult {
        domain,
        url,
        is_up: false,
        status_code: None,
        response_time_ms: 0,
        error_message: Some(message),
        checked_at,
    }
}

} // verus!
