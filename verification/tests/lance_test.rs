use curvine::lance::{
    connect_uses_curvine_session, find_curvine_uri, is_curvine_uri, namespace_session,
    unsupported_curvine_uri, CurvineObjectStoreProvider, SessionChoice, CURVINE_SCHEME,
};

fn props(pairs: &[(&str, &str)]) -> Vec<(String, String)> {
    pairs.iter().map(|(k, v)| (k.to_string(), v.to_string())).collect()
}

#[test]
fn curvine_uris_are_recognised() {
    assert!(is_curvine_uri("curvine://cluster/db"));
    assert!(!is_curvine_uri("s3://bucket/db"));
    assert!(!is_curvine_uri("curvine:/x"));
    assert!(connect_uses_curvine_session("curvine://a"));
    assert_eq!(CURVINE_SCHEME, "curvine");
    let _ = CurvineObjectStoreProvider::new();
}

#[test]
fn root_property_comes_first() {
    let p = props(&[("uri", "curvine://b"), ("root", "curvine://a")]);
    assert_eq!(find_curvine_uri(&p), Some("curvine://a".to_string()));
}

#[test]
fn uri_property_comes_next() {
    let p = props(&[("root", "/local"), ("other", "curvine://c"), ("uri", "curvine://b")]);
    assert_eq!(find_curvine_uri(&p), Some("curvine://b".to_string()));
}

#[test]
fn any_curvine_value_is_found() {
    let p = props(&[("root", "/local"), ("other", "curvine://c")]);
    assert_eq!(find_curvine_uri(&p), Some("curvine://c".to_string()));
    let q = props(&[("root", "/local"), ("uri", "s3://x")]);
    assert_eq!(find_curvine_uri(&q), None);
}

#[test]
fn namespace_session_choice() {
    let curvine = props(&[("root", "curvine://a")]);
    let plain = props(&[("root", "/a")]);
    assert_eq!(namespace_session(&curvine, true), SessionChoice::Curvine);
    assert_eq!(namespace_session(&plain, true), SessionChoice::Explicit);
    assert_eq!(namespace_session(&plain, false), SessionChoice::Default);
}

#[test]
fn unsupported_uri_message() {
    let e = unsupported_curvine_uri("curvine://a/b");
    assert_eq!(e.message, "Curvine object store, uri=curvine://a/b is not implemented");
}

#[test]
fn found_uri_is_one_of_the_values() {
    let p = props(&[("a", "s3://x"), ("b", "curvine://y")]);
    let found = find_curvine_uri(&p).unwrap();
    assert!(p.iter().any(|(_, v)| *v == found));
}
