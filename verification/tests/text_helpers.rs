use sn_releases::text::{
    chars_of, contains, decimal, ends_with, equal, find_first, find_last, parse_decimal,
    starts_with,
};

#[test]
fn chars_of_gives_the_characters_in_order() {
    assert_eq!(chars_of("a-b"), vec!['a', '-', 'b']);
    assert_eq!(chars_of(""), Vec::<char>::new());
    assert_eq!(chars_of("é/ü"), vec!['é', '/', 'ü']);
}

#[test]
fn find_first_gives_the_first_position_or_the_length() {
    assert_eq!(find_first(&chars_of("sn-node-manager"), '-'), 2);
    assert_eq!(find_first(&chars_of("-x"), '-'), 0);
    assert_eq!(find_first(&chars_of("sn_node"), '-'), 7);
    assert_eq!(find_first(&chars_of(""), '-'), 0);
}

#[test]
fn find_last_gives_the_last_position() {
    assert_eq!(find_last(&chars_of("a/b/c"), '/'), Some(3));
    assert_eq!(find_last(&chars_of("/"), '/'), Some(0));
    assert_eq!(find_last(&chars_of("abc"), '/'), None);
    assert_eq!(find_last(&chars_of(""), '/'), None);
}

#[test]
fn equal_compares_character_for_character() {
    assert!(equal("gz", "gz"));
    assert!(equal("", ""));
    assert!(!equal("gz", "gzip"));
    assert!(!equal("gz", "GZ"));
    assert!(!equal("", "a"));
}

#[test]
fn ends_with_and_starts_with() {
    assert!(ends_with("a.tar.gz", ".tar.gz"));
    assert!(ends_with(".zip", ".zip"));
    assert!(ends_with("abc", ""));
    assert!(!ends_with("zip", ".zip"));
    assert!(!ends_with("a.zip.txt", ".zip"));
    assert!(starts_with("/abs", "/"));
    assert!(starts_with("abc", ""));
    assert!(!starts_with("abs/", "/"));
    assert!(!starts_with("", "/"));
}

#[test]
fn contains_finds_a_pattern_anywhere() {
    assert!(contains("<u>; rel=\"next\", <v>; rel=\"last\"", "rel=\"next\""));
    assert!(contains("rel=\"next\"", "rel=\"next\""));
    assert!(contains("abc", ""));
    assert!(contains("", ""));
    assert!(!contains("<v>; rel=\"last\"", "rel=\"next\""));
    assert!(!contains("rel=\"nex", "rel=\"next\""));
    assert!(!contains("", "a"));
    assert!(contains("aab", "ab"));
}

#[test]
fn decimal_writes_without_leading_zeros() {
    assert_eq!(decimal(0), "0");
    assert_eq!(decimal(7), "7");
    assert_eq!(decimal(10), "10");
    assert_eq!(decimal(404), "404");
    assert_eq!(decimal(1_209_600), "1209600");
    assert_eq!(decimal(u64::MAX), "18446744073709551615");
}

#[test]
fn parse_decimal_reads_digits_after_at_most_one_plus() {
    assert_eq!(parse_decimal("0"), Some(0));
    assert_eq!(parse_decimal("12345"), Some(12345));
    assert_eq!(parse_decimal("+5"), Some(5));
    assert_eq!(parse_decimal("00012"), Some(12));
    assert_eq!(parse_decimal("18446744073709551615"), Some(u64::MAX));
}

#[test]
fn parse_decimal_refuses_everything_else() {
    assert_eq!(parse_decimal(""), None);
    assert_eq!(parse_decimal("+"), None);
    assert_eq!(parse_decimal("-5"), None);
    assert_eq!(parse_decimal("++5"), None);
    assert_eq!(parse_decimal("5+"), None);
    assert_eq!(parse_decimal(" 5"), None);
    assert_eq!(parse_decimal("5 "), None);
    assert_eq!(parse_decimal("1.5"), None);
    assert_eq!(parse_decimal("abc"), None);
    assert_eq!(parse_decimal("٣"), None);
    assert_eq!(parse_decimal("18446744073709551616"), None);
    assert_eq!(parse_decimal("99999999999999999999999"), None);
}

#[test]
fn parse_decimal_agrees_with_std() {
    for text in ["", "+", "-", "0", "+0", "-0", "007", "42", "+42", "4 2", "18446744073709551615",
        "18446744073709551616", "1e3", "0x10", "１２"]
    {
        assert_eq!(parse_decimal(text), text.parse::<u64>().ok(), "{:?}", text);
    }
}

#[test]
fn decimal_and_parse_decimal_round_trip() {
    for number in [0u64, 1, 9, 10, 99, 100, 65535, 4294967296, u64::MAX - 1, u64::MAX] {
        assert_eq!(parse_decimal(&decimal(number)), Some(number));
        assert_eq!(decimal(number), number.to_string());
    }
}
