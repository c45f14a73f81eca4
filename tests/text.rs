use endpoint_broker::advertising::{AdvertisingImpl, ScopeType};
use endpoint_broker::stack::Stack;
use endpoint_broker::text::{decimal_string, equals_ignore_case, parse_leading_number, split_last_dot};

#[test]
fn leading_numbers() {
    assert_eq!(parse_leading_number("42.fooChanged"), Some(42));
    assert_eq!(parse_leading_number("+5.x"), Some(5));
    assert_eq!(parse_leading_number("7"), Some(7));
    assert_eq!(parse_leading_number("abc.x"), None);
    assert_eq!(parse_leading_number(".x"), None);
    assert_eq!(parse_leading_number("+.x"), None);
    assert_eq!(parse_leading_number("18446744073709551615.x"), Some(u64::MAX));
    assert_eq!(parse_leading_number("18446744073709551616.x"), None);
}

#[test]
fn decimals() {
    assert_eq!(decimal_string(0), "0");
    assert_eq!(decimal_string(1234), "1234");
    assert_eq!(decimal_string(u64::MAX), "18446744073709551615");
}

#[test]
fn case_insensitive_equality() {
    assert!(equals_ignore_case("Device.Id", "device.ID"));
    assert!(!equals_ignore_case("device.id", "device.i"));
    assert!(!equals_ignore_case("a", "b"));
}

#[test]
fn split_at_last_dot() {
    let (a, b) = split_last_dot("Foo.1.changed");
    assert_eq!(a, "Foo.1");
    assert_eq!(b, "changed");
}

#[test]
fn stack_moves() {
    let mut s = Stack::new();
    assert!(s.is_empty());
    s.push("a".to_string());
    s.push("b".to_string());
    s.push("a".to_string());
    assert_eq!(s.peek(), Some(&"a".to_string()));
    assert_eq!(s.len(), 3);
    s.pop_item("a");
    assert_eq!(s.len(), 1);
    assert_eq!(s.peek(), Some(&"b".to_string()));
    s.bring_to_front("c");
    assert_eq!(s.peek(), Some(&"c".to_string()));
    s.send_to_back("c");
    assert_eq!(s.peek(), Some(&"b".to_string()));
    assert!(s.contains(&"c".to_string()));
    assert!(!s.contains(&"z".to_string()));
    s.bring_to_front("c");
    assert_eq!(s.peek(), Some(&"c".to_string()));
    assert_eq!(s.len(), 2);
}

#[test]
fn scope_names_and_bundle_id() {
    assert_eq!(ScopeType::Browse.as_string(), "browse");
    assert_eq!(ScopeType::Content.as_string(), "content");
    assert_eq!(AdvertisingImpl.app_bundle_id("app1"), "app1.Comcast");
}
