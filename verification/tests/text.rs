use delete_blob::text::{decimal_string, is_visible_text, push_decimal};
use delete_blob::{Client, LeaseId};

#[test]
fn decimal_of_small_numbers() {
    assert_eq!(decimal_string(0), "0");
    assert_eq!(decimal_string(7), "7");
    assert_eq!(decimal_string(9), "9");
    assert_eq!(decimal_string(10), "10");
    assert_eq!(decimal_string(30), "30");
    assert_eq!(decimal_string(101), "101");
    assert_eq!(decimal_string(1234567890), "1234567890");
}

#[test]
fn decimal_of_the_largest_number() {
    assert_eq!(decimal_string(u64::MAX), "18446744073709551615");
}

#[test]
fn decimal_agrees_with_the_standard_rendering() {
    let mut n: u64 = 1;
    for _ in 0..64 {
        assert_eq!(decimal_string(n), n.to_string());
        assert_eq!(decimal_string(n - 1), (n - 1).to_string());
        n = n.wrapping_mul(2);
    }
}

#[test]
fn push_decimal_appends() {
    let mut s = String::from("timeout=");
    push_decimal(&mut s, 42);
    assert_eq!(s, "timeout=42");
    push_decimal(&mut s, 0);
    assert_eq!(s, "timeout=420");
}

#[test]
fn visible_text() {
    assert!(is_visible_text(""));
    assert!(is_visible_text("abc"));
    assert!(is_visible_text("a b"));
    assert!(is_visible_text("a\tb"));
    assert!(is_visible_text(" ~"));
    assert!(!is_visible_text("a\nb"));
    assert!(!is_visible_text("a\rb"));
    assert!(!is_visible_text("\u{0}"));
    assert!(!is_visible_text("\u{1f}"));
    assert!(!is_visible_text("\u{7f}"));
    assert!(!is_visible_text("\u{80}"));
    assert!(!is_visible_text("caf\u{e9}"));
}

#[test]
fn client_and_lease_hold_what_they_were_given() {
    assert_eq!(Client::new("account").account(), "account");
    assert_eq!(LeaseId::new("token").as_str(), "token");
    assert_eq!(LeaseId::new("token"), LeaseId::new("token"));
}
