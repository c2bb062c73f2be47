//! Text helpers (decimal rendering and parsing, ordering, search) and the
//! JSON document model.

use avix_core::json::Json;
use avix_core::text::{concat3, contains, parse_u64, starts_with, str_eq, str_lt, u64_to_decimal};

#[test]
fn decimal_rendering() {
    assert_eq!(u64_to_decimal(0), "0");
    assert_eq!(u64_to_decimal(57), "57");
    assert_eq!(u64_to_decimal(u64::MAX), "18446744073709551615");
}

#[test]
fn decimal_parsing() {
    assert_eq!(parse_u64("42"), Some(42));
    assert_eq!(parse_u64("+7"), Some(7));
    assert_eq!(parse_u64("18446744073709551615"), Some(u64::MAX));
    assert_eq!(parse_u64("18446744073709551616"), None);
    assert_eq!(parse_u64(""), None);
    assert_eq!(parse_u64("+"), None);
    assert_eq!(parse_u64("-1"), None);
    assert_eq!(parse_u64("1a"), None);
}

#[test]
fn rendering_then_parsing_round_trips() {
    for n in [0u64, 1, 9, 10, 99, 100, 123456789, u64::MAX - 1] {
        assert_eq!(parse_u64(&u64_to_decimal(n)), Some(n));
    }
}

#[test]
fn text_order_is_by_code_point() {
    assert!(str_lt("a", "b"));
    assert!(str_lt("ab", "abc"));
    assert!(!str_lt("abc", "ab"));
    assert!(!str_lt("x", "x"));
    assert!(str_lt("Z", "a"));
}

#[test]
fn search_helpers() {
    assert!(starts_with("kernel/proc/spawn", "kernel/proc/"));
    assert!(!starts_with("kern", "kernel"));
    assert!(contains("pid 4 not found", "not found"));
    assert!(contains("abc", ""));
    assert!(!contains("abc", "abcd"));
    assert!(str_eq("same", "same"));
    assert!(!str_eq("same", "Same"));
    assert_eq!(concat3("a", "-", "b"), "a-b");
}

#[test]
fn json_set_replaces_and_keeps_order() {
    let mut j = Json::empty_object();
    j.set("a", Json::uint(1));
    j.set("b", Json::uint(2));
    j.set("a", Json::uint(3));
    assert_eq!(j.get_u64("a"), Some(3));
    assert_eq!(j.get_u64("b"), Some(2));
    match &j {
        Json::Object(es) => {
            assert_eq!(es.len(), 2);
            assert_eq!(es[0].0, "a");
        }
        _ => panic!("expected an object"),
    }
}

#[test]
fn json_set_on_null_makes_object() {
    let mut j = Json::Null;
    j.set("k", Json::Bool(true));
    assert_eq!(j.get_bool("k"), Some(true));
}

#[test]
fn json_take_moves_member_out() {
    let mut j = Json::empty_object();
    j.set("a", Json::string("x"));
    j.set("b", Json::uint(2));
    assert!(matches!(j.take("a"), Some(Json::Str(s)) if s == "x"));
    assert!(j.get("a").is_none());
    assert_eq!(j.get_u64("b"), Some(2));
    assert!(j.take("zz").is_none());
    assert!(Json::uint(3).take("a").is_none());
}

#[test]
fn json_typed_getters() {
    let mut j = Json::empty_object();
    j.set("n", Json::uint(5));
    j.set("s", Json::string("t"));
    assert_eq!(j.get_u64("s"), None);
    assert_eq!(j.get_str("n"), None);
    assert!(j.member_is_number("n"));
    assert!(!j.member_is_number("s"));
    assert!(Json::Null.get("n").is_none());
}

#[test]
fn json_deep_clone_is_equal_content() {
    let mut inner = Json::empty_object();
    inner.set("x", Json::Array(vec![Json::uint(1), Json::string("y"), Json::Null]));
    let c = inner.deep_clone();
    match (&inner, &c) {
        (Json::Object(a), Json::Object(b)) => {
            assert_eq!(a.len(), b.len());
            assert_eq!(a[0].0, b[0].0);
        }
        _ => panic!("expected objects"),
    }
    match c.get("x") {
        Some(Json::Array(v)) => assert_eq!(v.len(), 3),
        _ => panic!("expected the array"),
    }
}
