//! The outbound HTTP capability: the checkpoint that every guest request
//! passes before any network I/O, and the checks on what the network
//! returned.
//!
//! The checkpoint consults, in this order: the per-execution request quota, the
//! allow-list, and the guard against private and internal addresses. The
//! first check that fails decides the error.

use crate::error::{HostFunctionError, RuntimeError};
use crate::headers::{keep_text_headers, pairs, text_pairs};
use crate::permissions::{parse_host, url_host, url_is_private, HostAddress, Permissions, UrlHost};
use vstd::prelude::*;
use vstd::string::*;

verus! {

/// HTTP method of an outbound request.
#[derive(Debug, Clone, Copy, PartialEq, Eq, Structural)]
pub enum HttpMethod {
    Get,
    Head,
    Post,
    Put,
    Delete,
    Patch,
    Options,
}

/// Why an outbound request failed.
#[derive(Debug, Clone, Copy, PartialEq, Eq, Structural)]
pub enum HttpError {
    /// The allow-list or the private-address guard rejected the target.
    PermissionDenied,
    /// The request timed out.
    Timeout,
    /// The host name did not resolve.
    DnsError,
    /// No connection could be made.
    ConnectionFailed,
    /// The secure channel could not be set up.
    TlsError,
    /// The response body is larger than the cap.
    BodyTooLarge,
    /// The request quota of the execution is used up.
    RateLimited,
    /// Any other failure.
    Other,
}

/// An outbound request of a guest.
#[derive(Debug, Clone)]
pub struct HttpRequest {
    pub method: HttpMethod,
    pub uri: String,
    pub headers: Vec<(String, String)>,
    pub body: Option<Vec<u8>>,
    pub timeout_ms: Option<u32>,
}

/// The response handed back to the guest.
#[derive(Debug, Clone)]
pub struct HttpResponse {
    pub status: u16,
    pub headers: Vec<(String, String)>,
    pub body: Vec<u8>,
}

/// What the network did with a request that passed the checkpoint.
#[derive(Debug, Clone)]
pub enum TransportOutcome {
    /// A response arrived. A header whose value is not text has no value
    /// here.
    Received { status: u16, headers: Vec<(String, Option<String>)>, body: Vec<u8> },
    /// The request could not be sent or no response came.
    SendFailed { timed_out: bool, connect_failed: bool },
    /// The response body could not be read.
    BodyFailed,
}

/// The checkpoint of one execution: its permission set and the number of requests
/// it has counted.
#[derive(Debug)]
pub struct HttpOutboundHost {
    permissions: Permissions,
    request_count: u32,
}

/// Largest response body handed to a guest, in bytes.
pub const MAX_BODY_BYTES: usize = 10485760;

/// The request count after one more request; it stays at the largest value
/// once reached, so that the count never decreases.
pub open spec fn count_after(count: u32) -> u32 {
    if count < u32::MAX {
        (count + 1) as u32
    } else {
        count
    }
}

/// The decision of the allow-list and the address guard on a target: the
/// allow-list is consulted first, then the guard against private and
/// internal addresses; either one denies.
pub open spec fn target_decision(
    permissions: Permissions,
    host: Option<(Seq<char>, HostAddress)>,
) -> Result<(), HttpError> {
    if !permissions.allows(host) {
        Err(HttpError::PermissionDenied)
    } else if url_is_private(host) {
        Err(HttpError::PermissionDenied)
    } else {
        Ok(())
    }
}

/// The decision of the checkpoint on the request that arrives when `count`
/// requests were counted before it: the quota first, then the target.
pub open spec fn admission(
    count: u32,
    permissions: Permissions,
    host: Option<(Seq<char>, HostAddress)>,
) -> Result<(), HttpError> {
    if count >= permissions.max_http_requests {
        Err(HttpError::RateLimited)
    } else {
        target_decision(permissions, host)
    }
}

/// The error for a request that could not be sent.
pub open spec fn send_failure(timed_out: bool, connect_failed: bool) -> HttpError {
    if timed_out {
        HttpError::Timeout
    } else if connect_failed {
        HttpError::ConnectionFailed
    } else {
        HttpError::Other
    }
}

/// With a quota of zero the checkpoint rejects every request as rate limited,
/// whatever the allow-list and the target are.
pub proof fn zero_quota_rejects_every_request(
    count: u32,
    permissions: Permissions,
    host: Option<(Seq<char>, HostAddress)>,
)
    requires
        permissions.max_http_requests == 0,
    ensures
        admission(count, permissions, host) == Err::<(), HttpError>(HttpError::RateLimited),
{
}

/// A permission set that grants nothing lets no request pass.
pub proof fn nothing_granted_lets_nothing_pass(
    count: u32,
    permissions: Permissions,
    host: Option<(Seq<char>, HostAddress)>,
)
    requires
        permissions.grants_nothing(),
    ensures
        admission(count, permissions, host) is Err,
{
}

/// A used-up quota decides before the allow-list and the address guard are
/// consulted.
pub proof fn rate_limit_is_checked_first(
    count: u32,
    permissions: Permissions,
    host: Option<(Seq<char>, HostAddress)>,
)
    requires
        count >= permissions.max_http_requests,
    ensures
        admission(count, permissions, host) == Err::<(), HttpError>(HttpError::RateLimited),
{
}

/// A private or internal target is denied under every allow-list, also one
/// that holds `*`, whenever the quota admits the request.
pub proof fn private_target_is_always_denied(
    count: u32,
    permissions: Permissions,
    host: Option<(Seq<char>, HostAddress)>,
)
    requires
        url_is_private(host),
        count < permissions.max_http_requests,
    ensures
        admission(count, permissions, host) == Err::<(), HttpError>(HttpError::PermissionDenied),
{
}

/// The checkpoint lets a request pass exactly when the quota admits it, the
/// allow-list allows its target and the target is not private.
pub proof fn request_passes_exactly_when_all_checks_pass(
    count: u32,
    permissions: Permissions,
    host: Option<(Seq<char>, HostAddress)>,
)
    ensures
        admission(count, permissions, host) is Ok <==> (count < permissions.max_http_requests
            && permissions.allows(host) && !url_is_private(host)),
{
}

/// Once the quota has rejected a request it rejects every later one: the
/// count never decreases.
pub proof fn rate_limit_is_monotonic(
    count: u32,
    permissions: Permissions,
    first: Option<(Seq<char>, HostAddress)>,
    later: Option<(Seq<char>, HostAddress)>,
)
    requires
        admission(count, permissions, first) == Err::<(), HttpError>(HttpError::RateLimited),
    ensures
        count_after(count) >= count,
        admission(count_after(count), permissions, later) == Err::<(), HttpError>(
            HttpError::RateLimited,
        ),
{
}

impl HttpOutboundHost {
    /// The number of requests counted so far.
    pub closed spec fn count(&self) -> u32 {
        self.request_count
    }

    /// The permission set of the execution.
    pub closed spec fn granted(&self) -> Permissions {
        self.permissions
    }

    /// A checkpoint for one execution, with no request counted.
    pub fn new(permissions: Permissions) -> (host: Self)
        ensures
            host.count() == 0,
            host.granted() == permissions,
    {
        HttpOutboundHost { permissions, request_count: 0 }
    }

    /// The number of requests counted so far.
    pub fn request_count(&self) -> (n: u32)
        ensures
            n == self.count(),
    {
        self.request_count
    }

    /// Starts counting again from zero.
    pub fn reset_count(&mut self)
        ensures
            final(self).count() == 0,
            final(self).granted() == old(self).granted(),
    {
        self.request_count = 0;
    }

    /// Counts one request and says whether the quota admits it: request
    /// number `n`, counted from zero, is admitted when `n` is below the
    /// quota.
    pub fn count_request(&mut self) -> (admitted: bool)
        ensures
            admitted == (old(self).count() < old(self).granted().max_http_requests),
            final(self).count() == count_after(old(self).count()),
            final(self).granted() == old(self).granted(),
    {
        let count = self.request_count;
        if count < u32::MAX {
            self.request_count = count + 1;
        }
        count < self.permissions.max_http_requests
    }

    /// The decision of the allow-list and the address guard on a target.
    pub fn check_target(&self, host: Option<&UrlHost>) -> (r: Result<(), HttpError>)
        ensures
            r == target_decision(
                self.granted(),
                match host {
                    Some(h) => Some((h.text@, h.address)),
                    None => None,
                },
            ),
    {
        if !self.permissions.allows_host(host) {
            return Err(HttpError::PermissionDenied);
        }
        match host {
            Some(h) => {
                if Permissions::is_private(h) {
                    return Err(HttpError::PermissionDenied);
                }
            },
            None => {},
        }
        Ok(())
    }

    /// Passes one request through the checkpoint, before any network I/O. The
    /// request is counted whatever the decision is.
    pub fn begin_fetch(&mut self, uri: &str) -> (r: Result<(), HttpError>)
        ensures
            r == admission(old(self).count(), old(self).granted(), url_host(uri@)),
            final(self).count() == count_after(old(self).count()),
            final(self).granted() == old(self).granted(),
    {
        if !self.count_request() {
            return Err(HttpError::RateLimited);
        }
        let host = parse_host(uri);
        self.check_target(host.as_ref())
    }

    /// Turns what the network did into what the guest gets: a response with
    /// its text headers, or the error. A body over the cap is discarded.
    pub fn finish_fetch(outcome: TransportOutcome) -> (r: Result<HttpResponse, HttpError>)
        ensures
            match outcome {
                TransportOutcome::Received { status, headers, body } => if body@.len()
                    > MAX_BODY_BYTES {
                    r == Err::<HttpResponse, HttpError>(HttpError::BodyTooLarge)
                } else {
                    &&& r matches Ok(response)
                    &&& response.status == status
                    &&& pairs(response.headers@) == text_pairs(headers@)
                    &&& response.body@ == body@
                },
                TransportOutcome::SendFailed { timed_out, connect_failed } => r == Err::<
                    HttpResponse,
                    HttpError,
                >(send_failure(timed_out, connect_failed)),
                TransportOutcome::BodyFailed => r == Err::<HttpResponse, HttpError>(
                    HttpError::Other,
                ),
            },
    {
        match outcome {
            TransportOutcome::Received { status, headers, body } => {
                if body.len() > MAX_BODY_BYTES {
                    return Err(HttpError::BodyTooLarge);
                }
                let kept = keep_text_headers(&headers);
                Ok(HttpResponse { status, headers: kept, body })
            },
            TransportOutcome::SendFailed { timed_out, connect_failed } => {
                if timed_out {
                    Err(HttpError::Timeout)
                } else if connect_failed {
                    Err(HttpError::ConnectionFailed)
                } else {
                    Err(HttpError::Other)
                }
            },
            TransportOutcome::BodyFailed => Err(HttpError::Other),
        }
    }
}

/// Whether `e` is the runtime error that reports the HTTP error `err`: a
/// denied permission on "HTTP access", a used-up quota of "HTTP request", or
/// for every other error a failed request without URL and status.
pub open spec fn reports(e: RuntimeError, err: HttpError) -> bool {
    match err {
        HttpError::PermissionDenied => e matches RuntimeError::HostFunction(
            HostFunctionError::PermissionDenied { resource },
        ) && resource@ == "HTTP access"@,
        HttpError::RateLimited => e matches RuntimeError::HostFunction(
            HostFunctionError::RateLimitExceeded { operation },
        ) && operation@ == "HTTP request"@,
        _ => e matches RuntimeError::HostFunction(
            HostFunctionError::HttpRequestFailed { url, status },
        ) && url@ == Seq::<char>::empty() && status == 0,
    }
}

impl From<HttpError> for RuntimeError {
    fn from(err: HttpError) -> (e: Self)
        ensures
            reports(e, err),
    {
        match err {
            HttpError::PermissionDenied => RuntimeError::HostFunction(
                HostFunctionError::PermissionDenied { resource: String::from_str("HTTP access") },
            ),
            HttpError::RateLimited => RuntimeError::HostFunction(
                HostFunctionError::RateLimitExceeded {
                    operation: String::from_str("HTTP request"),
                },
            ),
            _ => RuntimeError::HostFunction(
                HostFunctionError::HttpRequestFailed { url: String::new(), status: 0 },
            ),
        }
    }
}

impl vstd::std_specs::convert::FromSpecImpl<HttpError> for RuntimeError {
    /// The conversion is specified by `reports`, through the contract of
    /// `from`, because the texts it holds are known by their view only.
    open spec fn obeys_from_spec() -> bool {
        false
    }

    open spec fn from_spec(err: HttpError) -> Self {
        arbitrary()
    }
}

} // verus!
