use access_control::cors::{AccessControlAllowHeaders, AccessControlAllowOrigin, AllowCors};
use access_control::header_value::{cors_origin_response, header_name_value, origin_response_value};
use access_control::hosts::Host;
use access_control::{AccessControl, AccessControlBuilder};

fn names(list: &[&str]) -> Vec<String> {
    list.iter().map(|s| s.to_string()).collect()
}

#[test]
fn end_to_end_host_allow_list() {
    let ac = AccessControlBuilder::new().allow_host(Host::from("example.com")).build();
    assert!(ac.deny_host(Some("evil.com")));
    assert!(!ac.deny_host(Some("example.com")));
    assert!(ac.deny_host(None));
}

#[test]
fn default_access_control_is_permissive_on_hosts() {
    let ac = AccessControl::default();
    assert!(!ac.deny_host(Some("anything")));
    assert!(!ac.deny_host(None));
}

#[test]
fn builder_accumulates_hosts() {
    let ac = AccessControlBuilder::new()
        .allow_host(Host::from("example.com"))
        .allow_host(Host::from("*.example.io"))
        .build();
    assert!(!ac.deny_host(Some("example.com")));
    assert!(!ac.deny_host(Some("api.example.io")));
    assert!(ac.deny_host(Some("example.io")));
}

#[test]
fn deny_cors_origin_follows_the_policy() {
    let ac = AccessControlBuilder::new()
        .cors_allow_origin(AccessControlAllowOrigin::Value("https://a.com".to_string()))
        .build();
    assert!(!ac.deny_cors_origin(Some("https://a.com"), Some("b.com")));
    assert!(ac.deny_cors_origin(Some("https://b.com"), Some("b.com")));
    // absent Origin: not a CORS request
    assert!(!ac.deny_cors_origin(None, Some("b.com")));
    // same-origin requests bypass the allow-list
    assert!(!ac.deny_cors_origin(Some("https://c.com"), Some("https://c.com")));
}

#[test]
fn disabled_cors_denies_cross_origin_requests() {
    let ac = AccessControl::default();
    assert!(ac.deny_cors_origin(Some("https://a.com"), Some("b.com")));
    assert!(!ac.deny_cors_origin(None, Some("b.com")));
}

#[test]
fn continue_on_invalid_cors_never_denies() {
    let ac = AccessControlBuilder::new()
        .cors_allow_origin(AccessControlAllowOrigin::Value("https://a.com".to_string()))
        .cors_allow_header("x-foo".to_string())
        .continue_on_invalid_cors(true)
        .build();
    assert!(!ac.deny_cors_origin(Some("https://b.com"), Some("c.com")));
    assert!(!ac.deny_cors_header(&names(&["host"]), &names(&["x-bar"])));
}

#[test]
fn deny_cors_header_follows_the_policy() {
    let ac = AccessControlBuilder::new().cors_allow_header("x-foo".to_string()).build();
    assert!(!ac.deny_cors_header(&names(&["host"]), &names(&["X-Foo"])));
    assert!(ac.deny_cors_header(&names(&["host"]), &names(&["x-bar"])));
    // no Access-Control-Request-Headers at all: nothing to check
    assert!(!ac.deny_cors_header(&names(&["host"]), &Vec::new()));
    // the raw value is split at commas before checking
    assert!(!ac.deny_cors_header(&names(&["host"]), &names(&["x-foo, x-foo"])));
    assert!(ac.deny_cors_header(&names(&["host"]), &names(&["x-foo, x-bar"])));
}

#[test]
fn default_header_policy_accepts_everything() {
    let ac = AccessControl::default();
    assert!(!ac.deny_cors_header(&names(&["host"]), &names(&["x-anything"])));
}

#[test]
fn origin_response_values() {
    assert_eq!(
        origin_response_value(&AccessControlAllowOrigin::Any).to_str().unwrap(),
        "*"
    );
    assert_eq!(
        origin_response_value(&AccessControlAllowOrigin::Null).to_str().unwrap(),
        "null"
    );
    assert_eq!(
        origin_response_value(&AccessControlAllowOrigin::Value("https://a.com".to_string()))
            .to_str()
            .unwrap(),
        "https://a.com"
    );
}

#[test]
fn unrepresentable_origin_value_falls_back_to_null() {
    let bad = AccessControlAllowOrigin::Value("bad\nvalue".to_string());
    assert_eq!(origin_response_value(&bad).to_str().unwrap(), "null");
}

#[test]
fn header_name_values() {
    assert_eq!(header_name_value("x-custom").to_str().unwrap(), "x-custom");
    assert_eq!(header_name_value("bad\u{7f}name").to_str().unwrap(), "unknown");
}

#[test]
fn cors_origin_response_carries_the_header_value() {
    let policy = Some(vec![AccessControlAllowOrigin::Any]);
    match cors_origin_response(Some("https://a.com"), Some("b.com"), &policy) {
        AllowCors::Allowed(v) => assert_eq!(v.to_str().unwrap(), "*"),
        other => panic!("expected an accepted origin, got {:?}", other),
    }
    assert_eq!(cors_origin_response(None, None, &policy), AllowCors::NotRequired);
    assert_eq!(
        cors_origin_response(Some("https://a.com"), Some("b.com"), &None),
        AllowCors::Invalid
    );
}

#[test]
fn builder_turns_any_headers_into_a_list() {
    let b = AccessControlBuilder::new().cors_allow_header("x-foo".to_string());
    match &b.cors_allow_headers {
        AccessControlAllowHeaders::Only(list) => assert_eq!(list, &names(&["x-foo"])),
        other => panic!("expected a one-entry list, got {:?}", other),
    }
    let b = b.cors_allow_header("x-bar".to_string());
    match &b.cors_allow_headers {
        AccessControlAllowHeaders::Only(list) => assert_eq!(list, &names(&["x-foo", "x-bar"])),
        other => panic!("expected a two-entry list, got {:?}", other),
    }
}

#[test]
fn cloned_policy_decides_alike() {
    let ac = AccessControlBuilder::new().allow_host(Host::from("example.com")).build();
    let copy = ac.clone();
    assert_eq!(ac.deny_host(Some("evil.com")), copy.deny_host(Some("evil.com")));
    assert_eq!(ac.deny_host(Some("example.com")), copy.deny_host(Some("example.com")));
}
