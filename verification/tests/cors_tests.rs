use access_control::cors::{
    get_cors_allow_headers, get_cors_allow_origin, split_commas, split_requested_headers,
    AccessControlAllowHeaders, AccessControlAllowOrigin, AllowCors,
};

fn origins(list: Vec<AccessControlAllowOrigin>) -> Option<Vec<AccessControlAllowOrigin>> {
    Some(list)
}

#[test]
fn absent_origin_is_not_required() {
    let policy = origins(vec![AccessControlAllowOrigin::Value("https://a.com".to_string())]);
    assert_eq!(get_cors_allow_origin(None, None, &policy), AllowCors::NotRequired);
    assert_eq!(get_cors_allow_origin(None, Some("example.com"), &None), AllowCors::NotRequired);
}

#[test]
fn same_origin_is_always_allowed() {
    let resolved = get_cors_allow_origin(Some("https://a.com"), Some("https://a.com"), &None);
    assert_eq!(
        resolved,
        AllowCors::Allowed(AccessControlAllowOrigin::Value("https://a.com".to_string()))
    );
}

#[test]
fn same_origin_comparison_ignores_ascii_case() {
    let resolved = get_cors_allow_origin(Some("HTTPS://A.COM"), Some("https://a.com"), &None);
    assert_eq!(
        resolved,
        AllowCors::Allowed(AccessControlAllowOrigin::Value("HTTPS://A.COM".to_string()))
    );
}

#[test]
fn disabled_cors_rejects_cross_origin() {
    let resolved = get_cors_allow_origin(Some("https://a.com"), Some("b.com"), &None);
    assert_eq!(resolved, AllowCors::Invalid);
}

#[test]
fn any_entry_accepts_every_origin() {
    let policy = origins(vec![AccessControlAllowOrigin::Any]);
    let resolved = get_cors_allow_origin(Some("https://a.com"), Some("b.com"), &policy);
    assert_eq!(resolved, AllowCors::Allowed(AccessControlAllowOrigin::Any));
}

#[test]
fn value_entry_matches_case_sensitively() {
    let policy = origins(vec![AccessControlAllowOrigin::Value("https://a.com".to_string())]);
    assert_eq!(
        get_cors_allow_origin(Some("https://a.com"), Some("b.com"), &policy),
        AllowCors::Allowed(AccessControlAllowOrigin::Value("https://a.com".to_string()))
    );
    assert_eq!(
        get_cors_allow_origin(Some("https://b.com"), Some("b.com"), &policy),
        AllowCors::Invalid
    );
    assert_eq!(
        get_cors_allow_origin(Some("HTTPS://A.COM"), Some("b.com"), &policy),
        AllowCors::Invalid
    );
}

#[test]
fn null_entry_matches_the_literal_null_origin() {
    let policy = origins(vec![AccessControlAllowOrigin::Null]);
    assert_eq!(
        get_cors_allow_origin(Some("null"), Some("b.com"), &policy),
        AllowCors::Allowed(AccessControlAllowOrigin::Null)
    );
    assert_eq!(
        get_cors_allow_origin(Some("https://a.com"), Some("b.com"), &policy),
        AllowCors::Invalid
    );
}

#[test]
fn origin_list_is_scanned_in_order() {
    let policy = origins(vec![
        AccessControlAllowOrigin::Value("https://a.com".to_string()),
        AccessControlAllowOrigin::Value("https://b.com".to_string()),
    ]);
    assert_eq!(
        get_cors_allow_origin(Some("https://b.com"), Some("c.com"), &policy),
        AllowCors::Allowed(AccessControlAllowOrigin::Value("https://b.com".to_string()))
    );
}

#[test]
fn empty_origin_list_rejects_cross_origin() {
    let policy = origins(Vec::new());
    assert_eq!(
        get_cors_allow_origin(Some("https://a.com"), Some("b.com"), &policy),
        AllowCors::Invalid
    );
}

fn names(list: &[&str]) -> Vec<String> {
    list.iter().map(|s| s.to_string()).collect()
}

#[test]
fn no_requested_headers_is_not_required() {
    let request = names(&["host", "origin"]);
    let requested = Vec::new();
    let policy = AccessControlAllowHeaders::Only(names(&["x-foo"]));
    assert_eq!(
        get_cors_allow_headers(&request, &requested, &policy),
        AllowCors::NotRequired
    );
    assert_eq!(
        get_cors_allow_headers(&request, &requested, &AccessControlAllowHeaders::Any),
        AllowCors::NotRequired
    );
}

#[test]
fn any_header_policy_echoes_request_headers() {
    let request = names(&["host", "origin"]);
    let requested = names(&["x-anything"]);
    assert_eq!(
        get_cors_allow_headers(&request, &requested, &AccessControlAllowHeaders::Any),
        AllowCors::Allowed(names(&["host", "origin"]))
    );
}

#[test]
fn only_header_policy_is_case_insensitive() {
    let request = names(&["host"]);
    let policy = AccessControlAllowHeaders::Only(names(&["x-foo"]));
    assert_eq!(
        get_cors_allow_headers(&request, &names(&["X-Foo"]), &policy),
        AllowCors::Allowed(names(&["X-Foo"]))
    );
    assert_eq!(
        get_cors_allow_headers(&request, &names(&["x-bar"]), &policy),
        AllowCors::Invalid
    );
}

#[test]
fn one_unlisted_header_rejects_the_whole_request() {
    let request = names(&["host"]);
    let policy = AccessControlAllowHeaders::Only(names(&["x-foo", "x-bar"]));
    assert_eq!(
        get_cors_allow_headers(&request, &names(&["x-foo", "x-bar"]), &policy),
        AllowCors::Allowed(names(&["x-foo", "x-bar"]))
    );
    assert_eq!(
        get_cors_allow_headers(&request, &names(&["x-foo", "x-baz"]), &policy),
        AllowCors::Invalid
    );
}

#[test]
fn split_commas_keeps_every_piece() {
    assert_eq!(split_commas("a,b,c"), names(&["a", "b", "c"]));
    assert_eq!(split_commas(""), names(&[""]));
    assert_eq!(split_commas("a,"), names(&["a", ""]));
    assert_eq!(split_commas(",a"), names(&["", "a"]));
}

#[test]
fn requested_headers_split_on_comma_and_comma_space() {
    assert_eq!(
        split_requested_headers(&names(&["x-a, x-b,x-c"])),
        names(&["x-a", "x-b", "x-c"])
    );
}

#[test]
fn requested_headers_keep_extra_spaces() {
    // one space after a comma belongs to the separator; further spaces do not
    assert_eq!(split_requested_headers(&names(&["x-a,  x-b"])), names(&["x-a", " x-b"]));
    // a leading space not preceded by a comma is kept
    assert_eq!(split_requested_headers(&names(&[" x-a,x-b"])), names(&[" x-a", "x-b"]));
}

#[test]
fn requested_headers_concatenate_repeated_header_values() {
    assert_eq!(
        split_requested_headers(&names(&["x-a, x-b", "x-c"])),
        names(&["x-a", "x-b", "x-c"])
    );
    assert_eq!(split_requested_headers(&Vec::new()), names(&[]));
}
