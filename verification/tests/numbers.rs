//! Decimal rendering and parsing.

use nox_throttle::text::{find_first_space, join_ids, parse_u64, str_eq, u128_to_dec, u64_to_dec};

#[test]
fn renders_decimals() {
    assert_eq!(u64_to_dec(0), "0");
    assert_eq!(u64_to_dec(7), "7");
    assert_eq!(u64_to_dec(10), "10");
    assert_eq!(u64_to_dec(105), "105");
    assert_eq!(u64_to_dec(u64::MAX), "18446744073709551615");
    assert_eq!(u128_to_dec(340282366920938463463374607431768211455), "340282366920938463463374607431768211455");
}

#[test]
fn parses_decimals() {
    assert_eq!(parse_u64("0"), Some(0));
    assert_eq!(parse_u64("42"), Some(42));
    assert_eq!(parse_u64("007"), Some(7));
    assert_eq!(parse_u64("18446744073709551615"), Some(u64::MAX));
}

#[test]
fn rejects_non_numbers() {
    assert_eq!(parse_u64(""), None);
    assert_eq!(parse_u64("12a"), None);
    assert_eq!(parse_u64("-3"), None);
    assert_eq!(parse_u64(" 5"), None);
    assert_eq!(parse_u64("18446744073709551616"), None);
    assert_eq!(parse_u64("99999999999999999999"), None);
}

#[test]
fn joins_with_commas() {
    assert_eq!(join_ids(&vec![]), "");
    assert_eq!(join_ids(&vec![1]), "1");
    assert_eq!(join_ids(&vec![1, 2, 3]), "1,2,3");
}

#[test]
fn compares_strings() {
    assert!(str_eq("stop", "stop"));
    assert!(!str_eq("stop", "stopp"));
    assert!(!str_eq("stop", "stoq"));
    assert!(str_eq("", ""));
}

#[test]
fn finds_first_space() {
    assert_eq!(find_first_space("a b c"), Some(1));
    assert_eq!(find_first_space(" x"), Some(0));
    assert_eq!(find_first_space("abc"), None);
    assert_eq!(find_first_space(""), None);
}
