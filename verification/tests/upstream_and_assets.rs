use octopod::assets::{content_type_of, AssetEntry, AssetStore};
use octopod::credentials::{ConfigError, Credentials};
use octopod::reply::{ContentType, ProxyError, STATUS_BAD_GATEWAY, STATUS_OK};
use octopod::upstream::{api_reply, probe_result, StartupError, UpstreamTarget};

#[test]
fn lookup_returns_exactly_the_embedded_bytes() {
    let store = AssetStore::new(vec![
        AssetEntry { path: b"a.js".to_vec(), body: b"alert(1)".to_vec() },
        AssetEntry { path: b"deep/dir/b.html".to_vec(), body: b"<p>b</p>".to_vec() },
    ]);
    assert_eq!(store.lookup(b"a.js"), Some(&b"alert(1)".to_vec()));
    assert_eq!(store.lookup(b"deep/dir/b.html"), Some(&b"<p>b</p>".to_vec()));
    assert_eq!(store.lookup(b"A.js"), None);
    assert_eq!(store.lookup(b"a.j"), None);
    assert_eq!(store.lookup(b"deep/dir"), None);
    assert_eq!(store.lookup(b""), None);
}

#[test]
fn content_types_follow_the_fixed_extension_table() {
    assert_eq!(content_type_of(b"style.css"), ContentType::Css);
    assert_eq!(content_type_of(b"img/logo.svg"), ContentType::Svg);
    assert_eq!(content_type_of(b"Main.js"), ContentType::Js);
    assert_eq!(content_type_of(b"index.html"), ContentType::Html);
    assert_eq!(content_type_of(b"photo.png"), ContentType::OctetStream);
    assert_eq!(content_type_of(b"noextension"), ContentType::OctetStream);
    assert_eq!(content_type_of(b".hidden"), ContentType::OctetStream);
    assert_eq!(content_type_of(b"archive.tar."), ContentType::OctetStream);
    assert_eq!(content_type_of(b"a.b.css"), ContentType::Css);
    assert_eq!(content_type_of(b"dir.css/file"), ContentType::OctetStream);
}

#[test]
fn credentials_parse_splits_on_the_single_colon() {
    let c = Credentials::parse(b"alice:secret").unwrap();
    assert_eq!(c.username, b"alice".to_vec());
    assert_eq!(c.password, b"secret".to_vec());
}

#[test]
fn credentials_without_exactly_one_colon_fail() {
    assert_eq!(Credentials::parse(b"alice").unwrap_err(), ConfigError::CredentialsFormat);
    assert_eq!(Credentials::parse(b"a:b:c").unwrap_err(), ConfigError::CredentialsFormat);
    assert_eq!(Credentials::parse(b"").unwrap_err(), ConfigError::CredentialsFormat);
}

#[test]
fn credentials_with_an_empty_side_fail() {
    assert_eq!(Credentials::parse(b":secret").unwrap_err(), ConfigError::CredentialsFormat);
    assert_eq!(Credentials::parse(b"alice:").unwrap_err(), ConfigError::CredentialsFormat);
    assert_eq!(Credentials::parse(b":").unwrap_err(), ConfigError::CredentialsFormat);
}

#[test]
fn request_urls_concatenate_base_slash_tail() {
    let t = UpstreamTarget::new(b"http://registry:5000".to_vec(), None);
    assert_eq!(t.request_url(b"tags/list"), b"http://registry:5000/tags/list".to_vec());
    assert_eq!(t.probe_url(), b"http://registry:5000/v2".to_vec());
}

#[test]
fn forwarded_json_is_passed_through() {
    let (reply, event) = api_reply(b"tags/list", Some(b"{\"x\":1}".to_vec()));
    assert_eq!(reply.status, STATUS_OK);
    assert_eq!(reply.content_type, Some(ContentType::Json));
    assert!(!reply.cacheable);
    assert_eq!(reply.body, b"{\"x\":1}".to_vec());
    assert!(event.is_none());
}

#[test]
fn forwarded_json_is_reencoded_not_echoed() {
    // Surrounding whitespace disappears in the re-encoding; a handler that
    // echoed the upstream bytes unchanged would fail this.
    let (reply, event) = api_reply(b"t", Some(b" {\"x\": 1} ".to_vec()));
    assert_eq!(reply.body, b"{\"x\":1}".to_vec());
    assert!(event.is_none());
}

#[test]
fn an_unreachable_upstream_is_a_server_error_with_one_logged_event() {
    let (reply, event) = api_reply(b"tags/list", None);
    assert_eq!(reply.status, STATUS_BAD_GATEWAY);
    assert!(reply.body.is_empty());
    let event = event.expect("one error event is owed");
    assert_eq!(event.path, b"tags/list".to_vec());
    assert_eq!(event.cause, ProxyError::UpstreamUnreachable);
}

#[test]
fn an_unparsable_body_is_a_server_error_with_one_logged_event() {
    let (reply, event) = api_reply(b"blobs/sha", Some(b"<html>oops</html>".to_vec()));
    assert_eq!(reply.status, STATUS_BAD_GATEWAY);
    assert!(reply.body.is_empty());
    let event = event.expect("one error event is owed");
    assert_eq!(event.path, b"blobs/sha".to_vec());
    assert_eq!(event.cause, ProxyError::UpstreamDecodeFailure);
}

#[test]
fn identical_forwarded_outcomes_give_identical_replies() {
    let (a, _) = api_reply(b"t", Some(b"{\"x\":1}".to_vec()));
    let (b, _) = api_reply(b"t", Some(b"{\"x\":1}".to_vec()));
    assert_eq!(a.status, b.status);
    assert_eq!(a.content_type, b.content_type);
    assert_eq!(a.body, b.body);
}

#[test]
fn the_probe_passes_only_on_the_empty_json_object() {
    assert!(probe_result(Some(b"{}".to_vec())).is_ok());
    // Whitespace still denotes the empty object.
    assert!(probe_result(Some(b" { } ".to_vec())).is_ok());
    assert_eq!(
        probe_result(Some(b"{\"errors\":[]}".to_vec())).unwrap_err(),
        StartupError::ProbeUnexpectedBody
    );
    assert_eq!(probe_result(Some(b"[]".to_vec())).unwrap_err(), StartupError::ProbeUnexpectedBody);
    assert_eq!(
        probe_result(Some(b"not json".to_vec())).unwrap_err(),
        StartupError::ProbeUnexpectedBody
    );
    assert_eq!(probe_result(None).unwrap_err(), StartupError::ProbeUnreachable);
}
