use kenja_tools::text::{i64_to_decimal, str_contains, str_eq, u64_to_decimal};

#[test]
fn decimal_of_zero_and_large() {
    assert_eq!(u64_to_decimal(0), "0");
    assert_eq!(u64_to_decimal(7), "7");
    assert_eq!(u64_to_decimal(1234567890), "1234567890");
    assert_eq!(u64_to_decimal(u64::MAX), u64::MAX.to_string());
}

#[test]
fn decimal_of_signed() {
    assert_eq!(i64_to_decimal(-42), "-42");
    assert_eq!(i64_to_decimal(0), "0");
    assert_eq!(i64_to_decimal(i64::MIN), i64::MIN.to_string());
    assert_eq!(i64_to_decimal(i64::MAX), i64::MAX.to_string());
}

#[test]
fn contains_and_eq() {
    assert!(str_contains("Rx - Hentai", "Rx"));
    assert!(str_contains("abc", ""));
    assert!(!str_contains("ab", "abc"));
    assert!(str_contains("日本語テキスト", "テキ"));
    assert!(str_eq("TV", "TV"));
    assert!(!str_eq("TV", "tv"));
    assert!(!str_eq("TV", "TV "));
}
