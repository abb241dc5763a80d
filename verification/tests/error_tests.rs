//! Tests of the error taxonomy: status mapping, wire names, the JSON body,
//! metadata handling, and structural equality.

use twirp::error::{
    aborted, already_exists, bad_route, canceled, data_loss, deadline_exceeded,
    failed_precondition, internal, invalid_argument, malformed, not_found, out_of_range,
    permission_denied, resource_exhausted, unauthenticated, unavailable, unimplemented, unknown,
};
use twirp::strmap::StrMap;

#[test]
fn test_status_mapping() {
    assert_eq!(canceled("x").http_status(), 408);
    assert_eq!(unknown("x").http_status(), 500);
    assert_eq!(invalid_argument("x").http_status(), 400);
    assert_eq!(malformed("x").http_status(), 400);
    assert_eq!(deadline_exceeded("x").http_status(), 504);
    assert_eq!(not_found("x").http_status(), 404);
    assert_eq!(bad_route("x").http_status(), 404);
    assert_eq!(already_exists("x").http_status(), 409);
    assert_eq!(permission_denied("x").http_status(), 403);
    assert_eq!(unauthenticated("x").http_status(), 401);
    assert_eq!(resource_exhausted("x").http_status(), 429);
    assert_eq!(failed_precondition("x").http_status(), 412);
    assert_eq!(aborted("x").http_status(), 409);
    assert_eq!(out_of_range("x").http_status(), 400);
    assert_eq!(unimplemented("x").http_status(), 501);
    assert_eq!(internal("x").http_status(), 500);
    assert_eq!(unavailable("x").http_status(), 503);
    assert_eq!(data_loss("x").http_status(), 500);
}

#[test]
fn test_code_names() {
    assert_eq!(bad_route("x").code_name(), "bad_route");
    assert_eq!(malformed("x").code_name(), "malformed");
    assert_eq!(deadline_exceeded("x").code_name(), "deadline_exceeded");
    assert_eq!(permission_denied("x").code_name(), "permission_denied");
    assert_eq!(data_loss("x").code_name(), "data_loss");
    assert_eq!(internal("x").code_name(), "internal");
}

#[test]
fn test_error_json_without_meta() {
    assert_eq!(
        internal("boom!").to_json(),
        "{\"code\":\"internal\",\"msg\":\"boom!\"}"
    );
}

#[test]
fn test_error_json_with_meta() {
    let mut e = not_found("no such user");
    e.insert_meta("user".to_string(), "u1".to_string());
    e.insert_meta("shard".to_string(), "7".to_string());
    assert_eq!(
        e.to_json(),
        "{\"code\":\"not_found\",\"msg\":\"no such user\",\"meta\":{\"user\":\"u1\",\"shard\":\"7\"}}"
    );
}

#[test]
fn test_error_json_escaping() {
    // The wrapper that appends single characters must not hand text back
    // unchanged: quotes, backslashes and control characters are escaped.
    let e = internal("a\"b\\c\nd\te\u{1}f");
    assert_eq!(
        e.to_json(),
        "{\"code\":\"internal\",\"msg\":\"a\\\"b\\\\c\\nd\\te\\u0001f\"}"
    );
}

#[test]
fn test_insert_meta_overwrites() {
    let mut e = internal("x");
    e.insert_meta("k".to_string(), "v1".to_string());
    e.insert_meta("k".to_string(), "v2".to_string());
    assert_eq!(
        e.to_json(),
        "{\"code\":\"internal\",\"msg\":\"x\",\"meta\":{\"k\":\"v2\"}}"
    );
}

#[test]
fn test_error_equality_is_structural() {
    // Equal exactly on code, message, and the full metadata map.
    let mut a = internal("boom");
    let mut b = internal("boom");
    assert_eq!(a, b);
    a.insert_meta("x".to_string(), "1".to_string());
    assert_ne!(a, b);
    b.insert_meta("x".to_string(), "1".to_string());
    assert_eq!(a, b);
    // Insertion order does not matter: the map is compared.
    let mut c = internal("boom");
    let mut d = internal("boom");
    c.insert_meta("p".to_string(), "1".to_string());
    c.insert_meta("q".to_string(), "2".to_string());
    d.insert_meta("q".to_string(), "2".to_string());
    d.insert_meta("p".to_string(), "1".to_string());
    assert_eq!(c, d);
    // Different code or message or value: unequal.
    assert_ne!(internal("boom"), unknown("boom"));
    assert_ne!(internal("boom"), internal("bust"));
    let mut e = internal("boom");
    e.insert_meta("x".to_string(), "2".to_string());
    assert_ne!(a, e);
}

#[test]
fn test_strmap_basics() {
    let mut m = StrMap::new();
    assert_eq!(m.len(), 0);
    assert!(!m.contains_key(&String::from("a")));
    m.insert("a".to_string(), "1".to_string());
    m.insert("b".to_string(), "2".to_string());
    assert_eq!(m.len(), 2);
    assert_eq!(m.get(&String::from("a")), Some(&String::from("1")));
    assert_eq!(m.get(&String::from("b")), Some(&String::from("2")));
    assert_eq!(m.get(&String::from("c")), None);
    m.insert("a".to_string(), "3".to_string());
    assert_eq!(m.len(), 2);
    assert_eq!(m.get(&String::from("a")), Some(&String::from("3")));
}

#[test]
fn test_strmap_merge() {
    let mut m = StrMap::new();
    m.insert("a".to_string(), "1".to_string());
    m.insert("b".to_string(), "2".to_string());
    let mut o = StrMap::new();
    o.insert("b".to_string(), "9".to_string());
    o.insert("c".to_string(), "3".to_string());
    m.merge_from(&o);
    assert_eq!(m.get(&String::from("a")), Some(&String::from("1")));
    assert_eq!(m.get(&String::from("b")), Some(&String::from("9")));
    assert_eq!(m.get(&String::from("c")), Some(&String::from("3")));
    assert_eq!(m.len(), 3);
}
