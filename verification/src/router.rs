//! The request router: first-match-wins over the ordered route rules.
//!
//! Every inbound request is dispatched to exactly one handler:
//! 1. the exact main-bundle path, served from the fixed in-binary bundle;
//! 2. the static-asset mount, served from the asset store (a miss is "not
//!    found", never a fallthrough);
//! 3. the `api` mount, forwarded to the upstream registry (a failure is a
//!    server error, never a fallthrough);
//! 4. the catch-all, serving the SPA shell for client-side routing.
//!
//! The order is significant: the bundle path is checked before the generic
//! asset rule so the bundle need not live in the embedded tree, and both
//! mounts are checked before the catch-all. Only the retrieval method is
//! accepted; any other method is rejected.

use vstd::prelude::*;

use crate::assets::{AssetModel, AssetStore, spec_content_type, spec_lookup, content_type_of};
use crate::bytes_util::bytes_eq;
use crate::reply::{ContentType, ProxyError, Reply, ReplyModel, STATUS_METHOD_NOT_ALLOWED,
    STATUS_OK, error_reply, spec_error_reply};
use crate::tokens::{SLASH, api_mount, api_mount_bytes, main_bundle_path, main_bundle_path_bytes,
    root_path, statics_mount, statics_mount_bytes};
use crate::upstream::spec_api_reply;

verus! {

/// The immutable content the gateway serves locally: the SPA shell bytes,
/// the main bundle bytes, and the embedded asset store.
pub struct SiteContent {
    pub shell: Vec<u8>,
    pub main_bundle: Vec<u8>,
    pub assets: AssetStore,
}

/// The mathematical value of the site content.
#[verifier::ext_equal]
pub ghost struct SiteModel {
    pub shell: Seq<u8>,
    pub bundle: Seq<u8>,
    pub assets: Seq<AssetModel>,
}

impl View for SiteContent {
    type V = SiteModel;

    open spec fn view(&self) -> SiteModel {
        SiteModel { shell: self.shell@, bundle: self.main_bundle@, assets: self.assets@ }
    }
}

/// Whether `p` sits under the mount segment `m`: it is exactly `/<m>`, or
/// begins with `/<m>/`.
pub open spec fn spec_mounted(p: Seq<u8>, m: Seq<u8>) -> bool {
    &&& p.len() >= m.len() + 1
    &&& p[0] == SLASH
    &&& p.subrange(1, m.len() + 1 as int) == m
    &&& (p.len() == m.len() + 1 || p[m.len() + 1 as int] == SLASH)
}

/// The tail path after the mount prefix `/<m>/`, empty when nothing follows
/// the mount segment.
pub open spec fn spec_mount_tail(p: Seq<u8>, m: Seq<u8>) -> Seq<u8> {
    if p.len() == m.len() + 1 {
        Seq::empty()
    } else {
        p.subrange(m.len() + 2 as int, p.len() as int)
    }
}

/// Split a path under the mount `m` into its tail, or report that the path
/// does not sit under `m`.
fn mount_tail(p: &[u8], m: &[u8]) -> (r: Option<Vec<u8>>)
    ensures
        r is Some <==> spec_mounted(p@, m@),
        r matches Some(t) ==> t@ == spec_mount_tail(p@, m@),
{
    let n = p.len();
    let ml = m.len();
    if n <= ml {
        return None;
    }
    if p[0] != SLASH {
        return None;
    }
    let seg = vstd::slice::slice_subrange(p, 1, ml + 1);
    if !bytes_eq(seg, m) {
        return None;
    }
    if n == ml + 1 {
        let t: Vec<u8> = Vec::new();
        proof {
            assert(t@ =~= spec_mount_tail(p@, m@));
        }
        return Some(t);
    }
    if p[ml + 1] != SLASH {
        return None;
    }
    Some(crate::bytes_util::copy_range(p, ml + 2, n))
}

/// Where one request goes: a finished local reply, or the tail path to
/// forward to the upstream registry.
pub enum Dispatch {
    Done(Reply),
    Forward(Vec<u8>),
}

/// The mathematical value of a dispatch decision.
#[verifier::ext_equal]
pub ghost enum DispatchModel {
    Done(ReplyModel),
    Forward(Seq<u8>),
}

impl View for Dispatch {
    type V = DispatchModel;

    open spec fn view(&self) -> DispatchModel {
        match self {
            Dispatch::Done(r) => DispatchModel::Done(r@),
            Dispatch::Forward(t) => DispatchModel::Forward(t@),
        }
    }
}

/// The routing decision, first match wins: a non-retrieval method is
/// rejected; the main-bundle path is served from the fixed bundle; a path
/// under the static mount is looked up in the asset store, a miss becoming
/// "not found"; a path under the `api` mount is forwarded; everything else
/// gets the SPA shell.
pub open spec fn spec_handle(site: SiteModel, get: bool, path: Seq<u8>) -> DispatchModel {
    if !get {
        DispatchModel::Done(
            ReplyModel {
                status: STATUS_METHOD_NOT_ALLOWED,
                content_type: None,
                cacheable: false,
                body: Seq::empty(),
            },
        )
    } else if path == main_bundle_path() {
        DispatchModel::Done(
            ReplyModel {
                status: STATUS_OK,
                content_type: Some(ContentType::Js),
                cacheable: false,
                body: site.bundle,
            },
        )
    } else if spec_mounted(path, statics_mount()) {
        let tail = spec_mount_tail(path, statics_mount());
        match spec_lookup(site.assets, tail) {
            Some(b) => DispatchModel::Done(
                ReplyModel {
                    status: STATUS_OK,
                    content_type: Some(spec_content_type(tail)),
                    cacheable: true,
                    body: b,
                },
            ),
            None => DispatchModel::Done(spec_error_reply(ProxyError::AssetNotFound)),
        }
    } else if spec_mounted(path, api_mount()) {
        DispatchModel::Forward(spec_mount_tail(path, api_mount()))
    } else {
        DispatchModel::Done(
            ReplyModel {
                status: STATUS_OK,
                content_type: Some(ContentType::Html),
                cacheable: false,
                body: site.shell,
            },
        )
    }
}

/// Dispatch one request: build the local reply, or hand back the tail path
/// that must be fetched from the upstream.
pub fn handle(site: &SiteContent, get: bool, path: &[u8]) -> (r: Dispatch)
    ensures
        r@ == spec_handle(site@, get, path@),
{
    if !get {
        let r = Dispatch::Done(
            Reply {
                status: STATUS_METHOD_NOT_ALLOWED,
                content_type: None,
                cacheable: false,
                body: Vec::new(),
            },
        );
        proof {
            assert(r@ =~~= spec_handle(site@, get, path@));
        }
        return r;
    }
    let mb = main_bundle_path_bytes();
    if bytes_eq(path, mb.as_slice()) {
        let r = Dispatch::Done(
            Reply {
                status: STATUS_OK,
                content_type: Some(ContentType::Js),
                cacheable: false,
                body: vstd::slice::slice_to_vec(site.main_bundle.as_slice()),
            },
        );
        proof {
            assert(r@ =~~= spec_handle(site@, get, path@));
        }
        return r;
    }
    let sm = statics_mount_bytes();
    match mount_tail(path, sm.as_slice()) {
        Some(tail) => {
            let r = match site.assets.lookup(tail.as_slice()) {
                Some(b) => Dispatch::Done(
                    Reply {
                        status: STATUS_OK,
                        content_type: Some(content_type_of(tail.as_slice())),
                        cacheable: true,
                        body: vstd::slice::slice_to_vec(b.as_slice()),
                    },
                ),
                None => Dispatch::Done(error_reply(&ProxyError::AssetNotFound)),
            };
            proof {
                assert(r@ =~~= spec_handle(site@, get, path@));
            }
            return r;
        },
        None => {},
    }
    let am = api_mount_bytes();
    match mount_tail(path, am.as_slice()) {
        Some(tail) => {
            let r = Dispatch::Forward(tail);
            proof {
                assert(r@ =~~= spec_handle(site@, get, path@));
            }
            return r;
        },
        None => {},
    }
    let r = Dispatch::Done(
        Reply {
            status: STATUS_OK,
            content_type: Some(ContentType::Html),
            cacheable: false,
            body: vstd::slice::slice_to_vec(site.shell.as_slice()),
        },
    );
    proof {
        assert(r@ =~~= spec_handle(site@, get, path@));
    }
    r
}

/// The reply owed for one whole request: local routes directly, the
/// forwarded route through the outcome of the upstream call.
pub open spec fn spec_serve(
    site: SiteModel,
    get: bool,
    path: Seq<u8>,
    upstream_body: Option<Seq<u8>>,
) -> ReplyModel {
    match spec_handle(site, get, path) {
        DispatchModel::Done(r) => r,
        DispatchModel::Forward(tail) => spec_api_reply(tail, upstream_body).0,
    }
}

/// Route precedence: a retrieval of the main-bundle path is answered from
/// the fixed in-binary bundle, whatever the asset store holds — even an
/// embedded asset of the same name is never consulted, and the catch-all is
/// never reached.
pub proof fn lemma_main_bundle_precedence(site: SiteModel, path: Seq<u8>)
    requires
        path == main_bundle_path(),
    ensures
        spec_handle(site, true, path) == DispatchModel::Done(
            ReplyModel {
                status: STATUS_OK,
                content_type: Some(ContentType::Js),
                cacheable: false,
                body: site.bundle,
            },
        ),
{
}

/// Catch-all fallback: a retrieval of any path no earlier rule matches is
/// answered with the SPA shell — the same bytes, status and content type as
/// a retrieval of the root path.
pub proof fn lemma_unmatched_serves_shell(site: SiteModel, path: Seq<u8>)
    requires
        path != main_bundle_path(),
        !spec_mounted(path, statics_mount()),
        !spec_mounted(path, api_mount()),
    ensures
        spec_handle(site, true, path) == DispatchModel::Done(
            ReplyModel {
                status: STATUS_OK,
                content_type: Some(ContentType::Html),
                cacheable: false,
                body: site.shell,
            },
        ),
        spec_handle(site, true, path) == spec_handle(site, true, root_path()),
{
    assert(root_path().len() == 1);
    assert(main_bundle_path().len() == 8);
    assert(statics_mount().len() == 7);
    assert(api_mount().len() == 3);
    assert(root_path() != main_bundle_path());
    assert(!spec_mounted(root_path(), statics_mount()));
    assert(!spec_mounted(root_path(), api_mount()));
}

/// Idempotence: repeated identical retrievals get byte-identical replies.
/// The reply is a function of the method, the path, the immutable site
/// content and the upstream body alone; two outcomes of the same request
/// are equal.
pub proof fn lemma_identical_requests_identical_replies(
    site: SiteModel,
    get: bool,
    path: Seq<u8>,
    upstream_body: Option<Seq<u8>>,
    r1: ReplyModel,
    r2: ReplyModel,
)
    requires
        r1 == spec_serve(site, get, path, upstream_body),
        r2 == spec_serve(site, get, path, upstream_body),
    ensures
        r1 == r2,
{
}

} // verus!
