use yahoo_finance_api::text::{excerpt, format_signed, format_unsigned, join, join_with_commas};

#[test]
fn unsigned_numbers_in_decimal() {
    assert_eq!(format_unsigned(0), "0");
    assert_eq!(format_unsigned(7), "7");
    assert_eq!(format_unsigned(10), "10");
    assert_eq!(format_unsigned(429), "429");
    assert_eq!(format_unsigned(1262304000), "1262304000");
    assert_eq!(format_unsigned(u64::MAX), "18446744073709551615");
}

#[test]
fn signed_numbers_in_decimal() {
    assert_eq!(format_signed(0), "0");
    assert_eq!(format_signed(1710248726), "1710248726");
    assert_eq!(format_signed(-1), "-1");
    assert_eq!(format_signed(-252322200), "-252322200");
    assert_eq!(format_signed(i64::MAX), "9223372036854775807");
    assert_eq!(format_signed(i64::MIN), "-9223372036854775808");
}

#[test]
fn excerpt_is_a_bounded_prefix() {
    assert_eq!(excerpt("hello", 1000), "hello");
    assert_eq!(excerpt("hello", 5), "hello");
    assert_eq!(excerpt("hello", 4), "hell");
    assert_eq!(excerpt("hello", 0), "");
    assert_eq!(excerpt("", 3), "");
}

#[test]
fn excerpt_counts_characters_not_bytes() {
    assert_eq!(excerpt("päivää", 2), "pä");
    assert_eq!(excerpt("日本語のページ", 3), "日本語");
}

#[test]
fn texts_are_joined_with_commas() {
    assert_eq!(join_with_commas(&vec![]), "");
    assert_eq!(join_with_commas(&vec!["a".to_string()]), "a");
    assert_eq!(join_with_commas(&vec!["a".to_string(), "b".to_string(), "c".to_string()]), "a,b,c");
    assert_eq!(join_with_commas(&vec!["".to_string(), "".to_string()]), ",");
    assert_eq!(join("crumb=", "abc"), "crumb=abc");
}
