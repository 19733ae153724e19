//! Client-visible replies and error translation.
//!
//! A [`Reply`] is what the gateway hands back for one request: a status
//! code, an optional content-type label, whether the client may cache the
//! body, and the body bytes. Internal failures are translated by
//! [`error_reply`] so that no diagnostic detail reaches the client.

use vstd::prelude::*;

verus! {

/// Content-type label attached to a reply. For static assets it is inferred
/// from the file extension; the main bundle is always JavaScript, the SPA
/// shell always HTML, and forwarded upstream bodies are always JSON.
#[derive(Clone, Copy, PartialEq, Eq, Structural, Debug)]
pub enum ContentType {
    Css,
    Svg,
    Js,
    Html,
    Json,
    OctetStream,
}

pub const STATUS_OK: u16 = 200;

pub const STATUS_NOT_FOUND: u16 = 404;

pub const STATUS_METHOD_NOT_ALLOWED: u16 = 405;

pub const STATUS_BAD_GATEWAY: u16 = 502;

/// The mathematical value of a reply: everything a client can observe.
#[verifier::ext_equal]
pub ghost struct ReplyModel {
    pub status: u16,
    pub content_type: Option<ContentType>,
    pub cacheable: bool,
    pub body: Seq<u8>,
}

/// An HTTP reply produced by the gateway.
pub struct Reply {
    pub status: u16,
    pub content_type: Option<ContentType>,
    pub cacheable: bool,
    pub body: Vec<u8>,
}

impl View for Reply {
    type V = ReplyModel;

    open spec fn view(&self) -> ReplyModel {
        ReplyModel {
            status: self.status,
            content_type: self.content_type,
            cacheable: self.cacheable,
            body: self.body@,
        }
    }
}

/// A failure while handling one request; never fatal to the process.
#[derive(Clone, Copy, PartialEq, Eq, Structural, Debug)]
pub enum ProxyError {
    /// The requested static path is absent from the embedded tree.
    AssetNotFound,
    /// The forwarded call could not reach the upstream registry.
    UpstreamUnreachable,
    /// The upstream response body did not parse as JSON.
    UpstreamDecodeFailure,
}

pub open spec fn spec_error_reply(e: ProxyError) -> ReplyModel {
    ReplyModel {
        status: if e is AssetNotFound {
            STATUS_NOT_FOUND
        } else {
            STATUS_BAD_GATEWAY
        },
        content_type: None,
        cacheable: false,
        body: Seq::empty(),
    }
}

/// Error translation: an asset miss surfaces as "not found", an upstream
/// failure as a bad-gateway style server error. The reply carries no body
/// and no content type, so nothing internal leaks to the client.
pub fn error_reply(e: &ProxyError) -> (r: Reply)
    ensures
        r@ == spec_error_reply(*e),
{
    let status = match e {
        ProxyError::AssetNotFound => STATUS_NOT_FOUND,
        ProxyError::UpstreamUnreachable => STATUS_BAD_GATEWAY,
        ProxyError::UpstreamDecodeFailure => STATUS_BAD_GATEWAY,
    };
    let r = Reply { status, content_type: None, cacheable: false, body: Vec::new() };
    proof {
        assert(r@ =~= spec_error_reply(*e));
    }
    r
}

} // verus!
