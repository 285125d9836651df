use spotty::text::{decimal, matches_prefix, starts_with};

#[test]
fn decimal_numbers() {
    assert_eq!(decimal(0), "0");
    assert_eq!(decimal(9), "9");
    assert_eq!(decimal(10), "10");
    assert_eq!(decimal(1234567890), "1234567890");
    assert_eq!(decimal(u64::MAX), u64::MAX.to_string());
}

#[test]
fn prefixes() {
    assert!(starts_with("", ""));
    assert!(starts_with("abc", ""));
    assert!(starts_with("abc", "ab"));
    assert!(starts_with("abc", "abc"));
    assert!(!starts_with("abc", "abcd"));
    assert!(!starts_with("abc", "b"));
    assert!(starts_with("\u{e9}t\u{e9}", "\u{e9}t"));
    assert!(!starts_with("\u{e9}t\u{e9}", "et"));
}

#[test]
fn prefixes_in_any_case() {
    assert!(matches_prefix("Summer Mix", "summer"));
    assert!(matches_prefix("summer mix", "SUMMER M"));
    assert!(matches_prefix("\u{c9}t\u{e9}", "\u{e9}T"));
    assert!(matches_prefix("anything", ""));
    assert!(!matches_prefix("Summer", "summer mix"));
    assert!(!matches_prefix("My Summer", "summer"));
}

#[test]
fn only_letters_change_case() {
    assert!(matches_prefix("@[AZ]`{az}09", "@[az]`{AZ}09"));
    assert!(!matches_prefix("@", "`"));
    assert!(!matches_prefix("[", "{"));
}
