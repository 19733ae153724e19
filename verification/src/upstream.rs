//! The upstream registry client's verified side.
//!
//! The gateway forwards `api` requests to one upstream base URL, optionally
//! with credentials injected server-side, and passes the JSON body through
//! re-encoded. The network call itself happens outside the library; this
//! module builds the request URL, decides the startup probe, and translates
//! each call's outcome — the response body, or its absence — into the
//! client-visible reply and the error event to log.

use vstd::prelude::*;

use crate::bytes_util::bytes_eq;
use crate::credentials::Credentials;
use crate::reply::{ContentType, ProxyError, Reply, ReplyModel, STATUS_OK, spec_error_reply,
    error_reply};
use crate::tokens::{SLASH, empty_json_object, empty_json_object_bytes, probe_path,
    probe_path_bytes};

verus! {

/// The upstream registry endpoint: a base URL and optional credentials,
/// immutable after construction and shared read-only by all requests.
pub struct UpstreamTarget {
    pub base_url: Vec<u8>,
    pub auth: Option<Credentials>,
}

impl UpstreamTarget {
    pub fn new(base_url: Vec<u8>, auth: Option<Credentials>) -> (r: UpstreamTarget)
        ensures
            r.base_url@ == base_url@,
            r.auth == auth,
    {
        UpstreamTarget { base_url, auth }
    }

    /// The URL of one forwarded call: the base URL, a `/`, and the relative
    /// path, concatenated without normalization.
    pub fn request_url(&self, tail: &[u8]) -> (r: Vec<u8>)
        ensures
            r@ == self.base_url@ + seq![SLASH] + tail@,
    {
        let mut r = vstd::slice::slice_to_vec(self.base_url.as_slice());
        r.push(SLASH);
        let n = tail.len();
        let mut i: usize = 0;
        while i < n
            invariant
                n == tail@.len(),
                0 <= i <= n,
                r@ == self.base_url@ + seq![SLASH] + tail@.subrange(0, i as int),
            decreases n - i,
        {
            r.push(tail[i]);
            proof {
                assert(r@ =~= self.base_url@ + seq![SLASH] + tail@.subrange(0, i + 1));
            }
            i += 1;
        }
        proof {
            assert(tail@.subrange(0, n as int) =~= tail@);
        }
        r
    }

    /// The URL of the startup probe: the registry's capability endpoint.
    pub fn probe_url(&self) -> (r: Vec<u8>)
        ensures
            r@ == self.base_url@ + seq![SLASH] + probe_path(),
    {
        let p = probe_path_bytes();
        self.request_url(p.as_slice())
    }
}

/// What re-encoding a JSON body yields: `None` when the bytes do not parse
/// as one JSON value, otherwise the parsed value's compact serialization.
/// A function of the byte content alone.
pub uninterp spec fn json_reencoded(b: Seq<u8>) -> Option<Seq<u8>>;

/// Relies on serde_json::from_slice::<serde_json::Value> and
/// serde_json::to_vec: whether bytes parse as JSON, and the compact
/// re-encoding of the parsed value, depend on the byte content alone.
/// `to_vec` fails only on maps with non-string keys, which a `Value` cannot
/// hold.
#[verifier::external_body]
fn json_round_trip(b: &[u8]) -> (r: Option<Vec<u8>>)
    ensures
        r is Some <==> json_reencoded(b@) is Some,
        r matches Some(v) ==> json_reencoded(b@) == Some(v@),
{
    match serde_json::from_slice::<serde_json::Value>(b) {
        Ok(value) => serde_json::to_vec(&value).ok(),
        Err(_) => None,
    }
}

/// A fatal startup failure: the gateway must exit instead of serving.
#[derive(Clone, Copy, PartialEq, Eq, Structural, Debug)]
pub enum StartupError {
    /// The probe call could not reach the upstream at all.
    ProbeUnreachable,
    /// The upstream answered, but not with the empty JSON object.
    ProbeUnexpectedBody,
}

/// Whether the startup probe passed: the capability endpoint answered and
/// its body is the empty JSON object.
pub open spec fn spec_probe_ok(body: Option<Seq<u8>>) -> bool {
    body matches Some(b) && json_reencoded(b) == Some(empty_json_object())
}

/// The view of an optional byte vector.
pub open spec fn opt_bytes_view(body: Option<Vec<u8>>) -> Option<Seq<u8>> {
    match body {
        Some(b) => Some(b@),
        None => None,
    }
}

/// Decide the fail-fast startup check from the probe call's outcome. `body`
/// is the response body, or `None` when the upstream could not be reached.
/// Exactly the empty JSON object lets startup proceed; any other outcome is
/// fatal.
pub fn probe_result(body: Option<Vec<u8>>) -> (r: Result<(), StartupError>)
    ensures
        r is Ok <==> spec_probe_ok(opt_bytes_view(body)),
        r == Err::<(), StartupError>(StartupError::ProbeUnreachable) <==> body is None,
{
    match body {
        None => Err(StartupError::ProbeUnreachable),
        Some(b) => match json_round_trip(b.as_slice()) {
            Some(v) => {
                let expected = empty_json_object_bytes();
                if bytes_eq(v.as_slice(), expected.as_slice()) {
                    Ok(())
                } else {
                    Err(StartupError::ProbeUnexpectedBody)
                }
            },
            None => Err(StartupError::ProbeUnexpectedBody),
        },
    }
}

/// An upstream failure to log: the forwarded tail path and the cause. The
/// client reply never carries this detail.
pub struct LogEvent {
    pub path: Vec<u8>,
    pub cause: ProxyError,
}

/// The mathematical value of a log event.
#[verifier::ext_equal]
pub ghost struct LogEventModel {
    pub path: Seq<u8>,
    pub cause: ProxyError,
}

impl View for LogEvent {
    type V = LogEventModel;

    open spec fn view(&self) -> LogEventModel {
        LogEventModel { path: self.path@, cause: self.cause }
    }
}

/// The view of an optional log event.
pub open spec fn opt_event_view(e: Option<LogEvent>) -> Option<LogEventModel> {
    match e {
        Some(ev) => Some(ev@),
        None => None,
    }
}

/// The reply owed for one forwarded request, and the error event to log:
/// an unreachable upstream or an unparsable body yields the generic server
/// error and one event naming the forwarded path; a JSON body is passed
/// through re-encoded.
pub open spec fn spec_api_reply(tail: Seq<u8>, body: Option<Seq<u8>>) -> (ReplyModel, Option<
    LogEventModel,
>) {
    match body {
        None => (
            spec_error_reply(ProxyError::UpstreamUnreachable),
            Some(LogEventModel { path: tail, cause: ProxyError::UpstreamUnreachable }),
        ),
        Some(b) => match json_reencoded(b) {
            Some(v) => (
                ReplyModel {
                    status: STATUS_OK,
                    content_type: Some(ContentType::Json),
                    cacheable: false,
                    body: v,
                },
                None,
            ),
            None => (
                spec_error_reply(ProxyError::UpstreamDecodeFailure),
                Some(LogEventModel { path: tail, cause: ProxyError::UpstreamDecodeFailure }),
            ),
        },
    }
}

/// Translate one forwarded call's outcome into the client reply and the
/// error event to log, if any. `body` is the upstream response body, or
/// `None` when the upstream could not be reached.
pub fn api_reply(tail: &[u8], body: Option<Vec<u8>>) -> (r: (Reply, Option<LogEvent>))
    ensures
        r.0@ == spec_api_reply(tail@, opt_bytes_view(body)).0,
        opt_event_view(r.1) == spec_api_reply(tail@, opt_bytes_view(body)).1,
{
    match body {
        None => {
            let reply = error_reply(&ProxyError::UpstreamUnreachable);
            let event = LogEvent {
                path: vstd::slice::slice_to_vec(tail),
                cause: ProxyError::UpstreamUnreachable,
            };
            proof {
                assert(opt_event_view(Some(event)) =~= spec_api_reply(
                    tail@,
                    opt_bytes_view(body),
                ).1);
            }
            (reply, Some(event))
        },
        Some(b) => match json_round_trip(b.as_slice()) {
            Some(v) => {
                let reply = Reply {
                    status: STATUS_OK,
                    content_type: Some(ContentType::Json),
                    cacheable: false,
                    body: v,
                };
                proof {
                    assert(reply@ =~= spec_api_reply(tail@, opt_bytes_view(body)).0);
                }
                (reply, None)
            },
            None => {
                let reply = error_reply(&ProxyError::UpstreamDecodeFailure);
                let event = LogEvent {
                    path: vstd::slice::slice_to_vec(tail),
                    cause: ProxyError::UpstreamDecodeFailure,
                };
                proof {
                    assert(opt_event_view(Some(event)) =~= spec_api_reply(
                        tail@,
                        opt_bytes_view(body),
                    ).1);
                }
                (reply, Some(event))
            },
        },
    }
}

} // verus!
