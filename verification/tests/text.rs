use grin_explorer::display::grouped_label;
use grin_explorer::text::{
    format_fixed, format_number, parse_number, power_of_ten, push_decimal, push_padded, same_text,
};

#[test]
fn numbers_are_written_in_decimal() {
    assert_eq!(format_number(0), "0");
    assert_eq!(format_number(7), "7");
    assert_eq!(format_number(10), "10");
    assert_eq!(format_number(1234567890), "1234567890");
    assert_eq!(format_number(u128::MAX), "340282366920938463463374607431768211455");
}

#[test]
fn decimal_is_appended_to_what_is_there() {
    let mut s = String::from("h=");
    push_decimal(&mut s, 42);
    assert_eq!(s, "h=42");
}

#[test]
fn padding_keeps_leading_zeros() {
    let mut s = String::new();
    push_padded(&mut s, 7, 3);
    assert_eq!(s, "007");
    let mut t = String::new();
    push_padded(&mut t, 12345, 3);
    assert_eq!(t, "345");
    let mut u = String::new();
    push_padded(&mut u, 5, 0);
    assert_eq!(u, "");
}

#[test]
fn fixed_point_has_the_places_asked_for() {
    assert_eq!(format_fixed(0, 2), "0.00");
    assert_eq!(format_fixed(5, 2), "0.05");
    assert_eq!(format_fixed(123456, 2), "1234.56");
    assert_eq!(format_fixed(30, 3), "0.030");
    assert_eq!(format_fixed(123, 8), "0.00000123");
    assert_eq!(format_fixed(42, 0), "42.");
}

#[test]
fn powers_of_ten() {
    assert_eq!(power_of_ten(0), 1);
    assert_eq!(power_of_ten(9), 1000000000);
    assert_eq!(power_of_ten(38), 100000000000000000000000000000000000000);
}

#[test]
fn digits_are_read_as_a_number() {
    assert_eq!(parse_number("0"), Some(0));
    assert_eq!(parse_number("007"), Some(7));
    assert_eq!(parse_number("1441"), Some(1441));
    assert_eq!(parse_number("18446744073709551615"), Some(u64::MAX));
}

#[test]
fn what_is_no_number_is_not_read() {
    assert_eq!(parse_number(""), None);
    assert_eq!(parse_number("12a"), None);
    assert_eq!(parse_number("-1"), None);
    assert_eq!(parse_number("+1"), None);
    assert_eq!(parse_number(" 1"), None);
    assert_eq!(parse_number("18446744073709551616"), None);
    assert_eq!(parse_number("99999999999999999999999"), None);
    assert_eq!(parse_number("184467440737095516150x"), None);
}

#[test]
fn written_numbers_read_back() {
    for n in [0u64, 1, 9, 10, 99, 100, 1440, 1441, u64::MAX] {
        assert_eq!(parse_number(&format_number(n as u128)), Some(n));
    }
}

#[test]
fn thousands_are_grouped_by_commas() {
    assert_eq!(grouped_label(Some(0)), "0");
    assert_eq!(grouped_label(Some(999)), "999");
    assert_eq!(grouped_label(Some(1000)), "1,000");
    assert_eq!(grouped_label(Some(1001001)), "1,001,001");
    assert_eq!(grouped_label(Some(168000060)), "168,000,060");
    assert_eq!(
        grouped_label(Some(u128::MAX)),
        "340,282,366,920,938,463,463,374,607,431,768,211,455"
    );
}

#[test]
fn texts_compare_by_their_characters() {
    assert!(same_text("Coinbase", "Coinbase"));
    assert!(!same_text("Coinbase", "coinbase"));
    assert!(!same_text("", "a"));
    assert!(same_text("", ""));
}
