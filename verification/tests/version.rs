use pink_drink::decimal::parse_u32;
use pink_drink::types::ExecMode;
use pink_drink::version;

#[test]
fn version_is_major_and_minor_of_the_package() {
    assert_eq!(version(), (0, 1));
}

#[test]
fn parse_u32_reads_plain_numerals() {
    assert_eq!(parse_u32("0"), Some(0));
    assert_eq!(parse_u32("42"), Some(42));
    assert_eq!(parse_u32("+7"), Some(7));
    assert_eq!(parse_u32("007"), Some(7));
    assert_eq!(parse_u32("4294967295"), Some(u32::MAX));
}

#[test]
fn parse_u32_refuses_what_is_no_numeral() {
    assert_eq!(parse_u32(""), None);
    assert_eq!(parse_u32("+"), None);
    assert_eq!(parse_u32("-1"), None);
    assert_eq!(parse_u32("1_000"), None);
    assert_eq!(parse_u32(" 1"), None);
    assert_eq!(parse_u32("1 "), None);
    assert_eq!(parse_u32("4294967296"), None);
    assert_eq!(parse_u32("99999999999999999999"), None);
}

#[test]
fn parse_u32_agrees_with_the_standard_parser() {
    for text in ["0", "1", "+12", "12a", "", "+", "++1", "4294967295", "4294967296", "00000000000001"] {
        assert_eq!(parse_u32(text), text.parse::<u32>().ok());
    }
}

#[test]
fn is_query_tells_the_modes_apart() {
    assert!(ExecMode::Query.is_query());
    assert!(!ExecMode::Transaction.is_query());
}
