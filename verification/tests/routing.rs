use octopod::assets::{AssetEntry, AssetStore};
use octopod::reply::{ContentType, Reply, STATUS_METHOD_NOT_ALLOWED, STATUS_NOT_FOUND, STATUS_OK};
use octopod::router::{handle, Dispatch, SiteContent};

fn site() -> SiteContent {
    let entries = vec![
        AssetEntry { path: b"app.css".to_vec(), body: b"body{}".to_vec() },
        AssetEntry { path: b"img/logo.svg".to_vec(), body: b"<svg/>".to_vec() },
        AssetEntry { path: b"Main.js".to_vec(), body: b"shadowed();".to_vec() },
        AssetEntry { path: b"notes.txt".to_vec(), body: b"hello".to_vec() },
    ];
    SiteContent {
        shell: b"<html>shell</html>".to_vec(),
        main_bundle: b"console.log('bundle');".to_vec(),
        assets: AssetStore::new(entries),
    }
}

fn done(d: Dispatch) -> Reply {
    match d {
        Dispatch::Done(r) => r,
        Dispatch::Forward(t) => panic!("expected a finished reply, got a forward of {:?}", t),
    }
}

fn forwarded(d: Dispatch) -> Vec<u8> {
    match d {
        Dispatch::Done(_) => panic!("expected a forward, got a finished reply"),
        Dispatch::Forward(t) => t,
    }
}

#[test]
fn main_bundle_is_served_from_the_fixed_bundle() {
    let s = site();
    let r = done(handle(&s, true, b"/Main.js"));
    assert_eq!(r.status, STATUS_OK);
    assert_eq!(r.content_type, Some(ContentType::Js));
    assert!(!r.cacheable);
    assert_eq!(r.body, b"console.log('bundle');".to_vec());
}

#[test]
fn main_bundle_shadows_an_embedded_asset_of_the_same_name() {
    // An asset named Main.js exists in the store, but the exact bundle rule
    // wins: its bytes never reach the client through this path.
    let s = site();
    let r = done(handle(&s, true, b"/Main.js"));
    assert_ne!(r.body, b"shadowed();".to_vec());
    // Through the static mount the embedded file is still reachable.
    let r = done(handle(&s, true, b"/statics/Main.js"));
    assert_eq!(r.body, b"shadowed();".to_vec());
}

#[test]
fn static_assets_return_embedded_bytes_and_table_content_types() {
    let s = site();
    let r = done(handle(&s, true, b"/statics/app.css"));
    assert_eq!(r.status, STATUS_OK);
    assert_eq!(r.content_type, Some(ContentType::Css));
    assert!(r.cacheable);
    assert_eq!(r.body, b"body{}".to_vec());

    let r = done(handle(&s, true, b"/statics/img/logo.svg"));
    assert_eq!(r.content_type, Some(ContentType::Svg));
    assert_eq!(r.body, b"<svg/>".to_vec());

    let r = done(handle(&s, true, b"/statics/notes.txt"));
    assert_eq!(r.content_type, Some(ContentType::OctetStream));
    assert_eq!(r.body, b"hello".to_vec());
}

#[test]
fn a_static_miss_is_not_found_not_a_fallthrough() {
    let s = site();
    let r = done(handle(&s, true, b"/statics/absent.css"));
    assert_eq!(r.status, STATUS_NOT_FOUND);
    assert_eq!(r.content_type, None);
    assert!(r.body.is_empty());
}

#[test]
fn the_bare_static_mount_has_an_empty_tail_and_misses() {
    let s = site();
    let r = done(handle(&s, true, b"/statics"));
    assert_eq!(r.status, STATUS_NOT_FOUND);
    let r = done(handle(&s, true, b"/statics/"));
    assert_eq!(r.status, STATUS_NOT_FOUND);
}

#[test]
fn api_paths_are_forwarded_with_the_tail() {
    let s = site();
    assert_eq!(forwarded(handle(&s, true, b"/api/tags/list")), b"tags/list".to_vec());
    assert_eq!(forwarded(handle(&s, true, b"/api/")), b"".to_vec());
    assert_eq!(forwarded(handle(&s, true, b"/api")), b"".to_vec());
}

#[test]
fn unmatched_paths_get_the_spa_shell() {
    let s = site();
    let root = done(handle(&s, true, b"/"));
    assert_eq!(root.status, STATUS_OK);
    assert_eq!(root.content_type, Some(ContentType::Html));
    assert!(!root.cacheable);
    assert_eq!(root.body, b"<html>shell</html>".to_vec());

    for path in [
        b"/dashboard/42".as_slice(),
        b"/about".as_slice(),
        b"/Main.js/".as_slice(),
        b"/staticsx/app.css".as_slice(),
        b"/apix".as_slice(),
    ] {
        let r = done(handle(&s, true, path));
        assert_eq!(r.status, root.status);
        assert_eq!(r.content_type, root.content_type);
        assert_eq!(r.body, root.body);
    }
}

#[test]
fn non_retrieval_methods_are_rejected() {
    let s = site();
    let r = done(handle(&s, false, b"/"));
    assert_eq!(r.status, STATUS_METHOD_NOT_ALLOWED);
    let r = done(handle(&s, false, b"/api/tags/list"));
    assert_eq!(r.status, STATUS_METHOD_NOT_ALLOWED);
}

#[test]
fn repeated_identical_requests_get_byte_identical_replies() {
    let s = site();
    for path in [b"/".as_slice(), b"/Main.js".as_slice(), b"/statics/app.css".as_slice()] {
        let a = done(handle(&s, true, path));
        let b = done(handle(&s, true, path));
        assert_eq!(a.status, b.status);
        assert_eq!(a.content_type, b.content_type);
        assert_eq!(a.cacheable, b.cacheable);
        assert_eq!(a.body, b.body);
    }
}
