//! The fixed byte strings of the gateway's routing rules.
//!
//! Each token exists twice: a `spec` function giving its mathematical value
//! as a byte sequence, and an executable builder proved to return exactly
//! those bytes. Routing, extension inference and the startup probe compare
//! request bytes against these tokens.

use vstd::prelude::*;

verus! {

/// ASCII `/`, the path separator.
pub const SLASH: u8 = 47;

/// ASCII `.`, the extension separator.
pub const DOT: u8 = 46;

/// ASCII `:`, the credential separator.
pub const COLON: u8 = 58;

/// The root request path: `/`.
pub open spec fn root_path() -> Seq<u8> {
    seq![47u8]
}

/// The exact request path of the main bundle: `/Main.js`.
pub open spec fn main_bundle_path() -> Seq<u8> {
    seq![47u8, 77u8, 97u8, 105u8, 110u8, 46u8, 106u8, 115u8]
}

/// The mount segment of the static-asset route: `statics`.
pub open spec fn statics_mount() -> Seq<u8> {
    seq![115u8, 116u8, 97u8, 116u8, 105u8, 99u8, 115u8]
}

/// The mount segment of the forwarding route: `api`.
pub open spec fn api_mount() -> Seq<u8> {
    seq![97u8, 112u8, 105u8]
}

/// The relative path of the registry capability probe: `v2`.
pub open spec fn probe_path() -> Seq<u8> {
    seq![118u8, 50u8]
}

/// The canonical encoding of the empty JSON object: `{}`.
pub open spec fn empty_json_object() -> Seq<u8> {
    seq![123u8, 125u8]
}

/// The extension `css`.
pub open spec fn ext_css() -> Seq<u8> {
    seq![99u8, 115u8, 115u8]
}

/// The extension `svg`.
pub open spec fn ext_svg() -> Seq<u8> {
    seq![115u8, 118u8, 103u8]
}

/// The extension `js`.
pub open spec fn ext_js() -> Seq<u8> {
    seq![106u8, 115u8]
}

/// The extension `html`.
pub open spec fn ext_html() -> Seq<u8> {
    seq![104u8, 116u8, 109u8, 108u8]
}

pub fn main_bundle_path_bytes() -> (r: Vec<u8>)
    ensures
        r@ == main_bundle_path(),
{
    let mut v: Vec<u8> = Vec::new();
    v.push(47);
    v.push(77);
    v.push(97);
    v.push(105);
    v.push(110);
    v.push(46);
    v.push(106);
    v.push(115);
    proof {
        assert(v@ =~= main_bundle_path());
    }
    v
}

pub fn statics_mount_bytes() -> (r: Vec<u8>)
    ensures
        r@ == statics_mount(),
{
    let mut v: Vec<u8> = Vec::new();
    v.push(115);
    v.push(116);
    v.push(97);
    v.push(116);
    v.push(105);
    v.push(99);
    v.push(115);
    proof {
        assert(v@ =~= statics_mount());
    }
    v
}

pub fn api_mount_bytes() -> (r: Vec<u8>)
    ensures
        r@ == api_mount(),
{
    let mut v: Vec<u8> = Vec::new();
    v.push(97);
    v.push(112);
    v.push(105);
    proof {
        assert(v@ =~= api_mount());
    }
    v
}

pub fn probe_path_bytes() -> (r: Vec<u8>)
    ensures
        r@ == probe_path(),
{
    let mut v: Vec<u8> = Vec::new();
    v.push(118);
    v.push(50);
    proof {
        assert(v@ =~= probe_path());
    }
    v
}

pub fn empty_json_object_bytes() -> (r: Vec<u8>)
    ensures
        r@ == empty_json_object(),
{
    let mut v: Vec<u8> = Vec::new();
    v.push(123);
    v.push(125);
    proof {
        assert(v@ =~= empty_json_object());
    }
    v
}

pub fn ext_css_bytes() -> (r: Vec<u8>)
    ensures
        r@ == ext_css(),
{
    let mut v: Vec<u8> = Vec::new();
    v.push(99);
    v.push(115);
    v.push(115);
    proof {
        assert(v@ =~= ext_css());
    }
    v
}

pub fn ext_svg_bytes() -> (r: Vec<u8>)
    ensures
        r@ == ext_svg(),
{
    let mut v: Vec<u8> = Vec::new();
    v.push(115);
    v.push(118);
    v.push(103);
    proof {
        assert(v@ =~= ext_svg());
    }
    v
}

pub fn ext_js_bytes() -> (r: Vec<u8>)
    ensures
        r@ == ext_js(),
{
    let mut v: Vec<u8> = Vec::new();
    v.push(106);
    v.push(115);
    proof {
        assert(v@ =~= ext_js());
    }
    v
}

pub fn ext_html_bytes() -> (r: Vec<u8>)
    ensures
        r@ == ext_html(),
{
    let mut v: Vec<u8> = Vec::new();
    v.push(104);
    v.push(116);
    v.push(109);
    v.push(108);
    proof {
        assert(v@ =~= ext_html());
    }
    v
}

} // verus!
