//! The read-only store of embedded UI assets.
//!
//! The store maps a normalized relative path (forward-slash segments, no
//! leading slash) to immutable byte content. It is populated once at process
//! start and never mutated; lookups are exact, case-sensitive, full-path
//! matches. The content type of an asset is inferred from its file extension
//! at lookup time through a fixed table.

use vstd::prelude::*;

use crate::bytes_util::bytes_eq;
use crate::reply::ContentType;
use crate::tokens::{DOT, SLASH};
use crate::tokens::{ext_css, ext_css_bytes, ext_html, ext_html_bytes, ext_js, ext_js_bytes,
    ext_svg, ext_svg_bytes};

verus! {

/// One embedded file: a relative path and its byte content.
pub struct AssetEntry {
    pub path: Vec<u8>,
    pub body: Vec<u8>,
}

/// The mathematical value of one entry.
#[verifier::ext_equal]
pub ghost struct AssetModel {
    pub path: Seq<u8>,
    pub body: Seq<u8>,
}

impl View for AssetEntry {
    type V = AssetModel;

    open spec fn view(&self) -> AssetModel {
        AssetModel { path: self.path@, body: self.body@ }
    }
}

/// The embedded asset tree, read-only for the process lifetime.
pub struct AssetStore {
    pub entries: Vec<AssetEntry>,
}

impl View for AssetStore {
    type V = Seq<AssetModel>;

    open spec fn view(&self) -> Seq<AssetModel> {
        Seq::new(self.entries@.len(), |i: int| self.entries@[i]@)
    }
}

/// The body stored under `path`: the first entry whose path matches, or
/// `None` when no entry matches.
pub open spec fn spec_lookup(entries: Seq<AssetModel>, path: Seq<u8>) -> Option<Seq<u8>>
    decreases entries.len(),
{
    if entries.len() == 0 {
        None
    } else if entries[0].path == path {
        Some(entries[0].body)
    } else {
        spec_lookup(entries.drop_first(), path)
    }
}

/// Skipping entries whose paths all differ from `path` does not change the
/// lookup result.
proof fn lemma_spec_lookup_advance(entries: Seq<AssetModel>, path: Seq<u8>, i: int)
    requires
        0 <= i <= entries.len(),
        forall|j: int| 0 <= j < i ==> entries[j].path != path,
    ensures
        spec_lookup(entries, path) == spec_lookup(entries.subrange(i, entries.len() as int), path),
    decreases i,
{
    if i > 0 {
        let rest = entries.drop_first();
        assert(forall|j: int| 0 <= j < i - 1 ==> rest[j].path != path);
        lemma_spec_lookup_advance(rest, path, i - 1);
        assert(rest.subrange(i - 1, rest.len() as int) =~= entries.subrange(
            i,
            entries.len() as int,
        ));
        assert(entries.subrange(0, entries.len() as int) =~= entries);
    } else {
        assert(entries.subrange(0, entries.len() as int) =~= entries);
    }
}

/// Every embedded path finds exactly its own bytes: in a store whose paths
/// are distinct, looking up the path of any entry returns that entry's body.
pub proof fn lemma_lookup_finds_each_entry(entries: Seq<AssetModel>, i: int)
    requires
        0 <= i < entries.len(),
        forall|j: int, k: int| 0 <= j < k < entries.len() ==> entries[j].path != entries[k].path,
    ensures
        spec_lookup(entries, entries[i].path) == Some(entries[i].body),
    decreases i,
{
    if i > 0 {
        let rest = entries.drop_first();
        assert(entries[0].path != entries[i].path);
        assert(forall|j: int, k: int|
            0 <= j < k < rest.len() ==> rest[j].path != rest[k].path);
        lemma_lookup_finds_each_entry(rest, i - 1);
    }
}

/// Every absent path misses: looking up a path no entry holds returns
/// nothing.
pub proof fn lemma_lookup_absent(entries: Seq<AssetModel>, path: Seq<u8>)
    requires
        forall|j: int| 0 <= j < entries.len() ==> entries[j].path != path,
    ensures
        spec_lookup(entries, path) is None,
    decreases entries.len(),
{
    if entries.len() > 0 {
        lemma_lookup_absent(entries.drop_first(), path);
    }
}

impl AssetStore {
    /// Build the store from the embedded entries, in order.
    pub fn new(entries: Vec<AssetEntry>) -> (r: AssetStore)
        ensures
            r@ == Seq::new(entries@.len(), |i: int| entries@[i]@),
    {
        AssetStore { entries }
    }

    /// Exact, case-sensitive, full-path lookup: returns exactly the bytes
    /// stored under `path`, or `None` when the path is absent.
    pub fn lookup(&self, path: &[u8]) -> (r: Option<&Vec<u8>>)
        ensures
            match r {
                Some(body) => spec_lookup(self@, path@) == Some(body@),
                None => spec_lookup(self@, path@) is None,
            },
    {
        let n = self.entries.len();
        let mut i: usize = 0;
        while i < n
            invariant
                n == self.entries@.len(),
                0 <= i <= n,
                forall|j: int| 0 <= j < i ==> self@[j].path != path@,
            decreases n - i,
        {
            let e = &self.entries[i];
            if bytes_eq(e.path.as_slice(), path) {
                proof {
                    lemma_spec_lookup_advance(self@, path@, i as int);
                    assert(self@.subrange(i as int, self@.len() as int)[0] == self@[i as int]);
                }
                return Some(&e.body);
            }
            proof {
                assert(self@[i as int].path != path@);
            }
            i += 1;
        }
        proof {
            lemma_spec_lookup_advance(self@, path@, n as int);
            assert(self@.subrange(n as int, self@.len() as int) =~= Seq::<AssetModel>::empty());
        }
        None
    }
}

/// The greatest index at which `c` occurs in `p`, if any.
pub open spec fn last_pos(p: Seq<u8>, c: u8) -> Option<int>
    decreases p.len(),
{
    if p.len() == 0 {
        None
    } else if p[p.len() - 1] == c {
        Some(p.len() - 1)
    } else {
        last_pos(p.drop_last(), c)
    }
}

/// What `last_pos` returns: the occurrence it points at is the last one, and
/// `None` means no occurrence at all.
proof fn lemma_last_pos_char(p: Seq<u8>, c: u8)
    ensures
        match last_pos(p, c) {
            Some(k) => 0 <= k < p.len() && p[k] == c && (forall|j: int|
                k < j < p.len() ==> p[j] != c),
            None => forall|j: int| 0 <= j < p.len() ==> p[j] != c,
        },
    decreases p.len(),
{
    if p.len() > 0 && p[p.len() - 1] != c {
        lemma_last_pos_char(p.drop_last(), c);
        assert(forall|j: int| 0 <= j < p.len() - 1 ==> p.drop_last()[j] == p[j]);
    }
}

/// The greatest index at which `c` occurs in `s`, if any.
pub fn find_last(s: &[u8], c: u8) -> (r: Option<usize>)
    ensures
        match r {
            Some(k) => last_pos(s@, c) == Some(k as int),
            None => last_pos(s@, c) is None,
        },
{
    let mut i: usize = s.len();
    while i > 0
        invariant
            i <= s@.len(),
            forall|j: int| i <= j < s@.len() ==> s@[j] != c,
        decreases i,
    {
        i -= 1;
        if s[i] == c {
            proof {
                lemma_last_pos_char(s@, c);
            }
            return Some(i);
        }
    }
    proof {
        lemma_last_pos_char(s@, c);
    }
    None
}

/// The file extension of an asset path: the bytes after the last `.` of the
/// final `/`-separated segment, absent when that segment holds no `.` or
/// starts with its only `.`.
pub open spec fn spec_extension(name: Seq<u8>) -> Option<Seq<u8>> {
    let start: int = match last_pos(name, SLASH) {
        Some(k) => k + 1,
        None => 0,
    };
    let fname = name.subrange(start, name.len() as int);
    match last_pos(fname, DOT) {
        Some(k) => if k > 0 {
            Some(fname.subrange(k + 1, fname.len() as int))
        } else {
            None
        },
        None => None,
    }
}

/// The fixed extension table: `css`, `svg`, `js` and `html` map to their
/// types; any other or missing extension maps to the generic binary type.
pub open spec fn spec_content_type(name: Seq<u8>) -> ContentType {
    match spec_extension(name) {
        Some(e) => if e == ext_css() {
            ContentType::Css
        } else if e == ext_svg() {
            ContentType::Svg
        } else if e == ext_js() {
            ContentType::Js
        } else if e == ext_html() {
            ContentType::Html
        } else {
            ContentType::OctetStream
        },
        None => ContentType::OctetStream,
    }
}

/// Infer the content type of an asset path from its extension.
pub fn content_type_of(name: &[u8]) -> (r: ContentType)
    ensures
        r == spec_content_type(name@),
{
    let n: usize = name.len();
    proof {
        lemma_last_pos_char(name@, SLASH);
    }
    let start: usize = match find_last(name, SLASH) {
        Some(k) => k + 1,
        None => 0,
    };
    let fname = vstd::slice::slice_subrange(name, start, n);
    let m: usize = fname.len();
    proof {
        lemma_last_pos_char(fname@, DOT);
    }
    let k = match find_last(fname, DOT) {
        Some(k) => k,
        None => {
            return ContentType::OctetStream;
        },
    };
    if k == 0 {
        return ContentType::OctetStream;
    }
    let ext = vstd::slice::slice_subrange(fname, k + 1, m);
    if bytes_eq(ext, ext_css_bytes().as_slice()) {
        ContentType::Css
    } else if bytes_eq(ext, ext_svg_bytes().as_slice()) {
        ContentType::Svg
    } else if bytes_eq(ext, ext_js_bytes().as_slice()) {
        ContentType::Js
    } else if bytes_eq(ext, ext_html_bytes().as_slice()) {
        ContentType::Html
    } else {
        ContentType::OctetStream
    }
}

} // verus!
