use languagebench::decimal::{push_decimal, push_fixed_point, push_low_digits, whole_part};

fn decimal_of(n: u128) -> String {
    let mut out = String::new();
    push_decimal(&mut out, n);
    out
}

fn fixed_of(scaled: u128, places: u8) -> String {
    let mut out = String::new();
    push_fixed_point(&mut out, scaled, places);
    out
}

#[test]
fn decimal_of_zero_is_one_digit() {
    assert_eq!(decimal_of(0), "0");
}

#[test]
fn decimal_has_no_leading_zeros() {
    assert_eq!(decimal_of(7), "7");
    assert_eq!(decimal_of(10), "10");
    assert_eq!(decimal_of(407), "407");
    assert_eq!(decimal_of(1_000_000_000), "1000000000");
}

#[test]
fn decimal_of_the_largest_number() {
    assert_eq!(decimal_of(u128::MAX), "340282366920938463463374607431768211455");
}

#[test]
fn decimal_is_appended_behind_what_is_there() {
    let mut out = String::from("n=");
    push_decimal(&mut out, 42);
    assert_eq!(out, "n=42");
}

#[test]
fn low_digits_are_filled_with_zeros() {
    let mut out = String::new();
    push_low_digits(&mut out, 5, 4);
    assert_eq!(out, "0005");
    let mut cut = String::new();
    push_low_digits(&mut cut, 123_456, 2);
    assert_eq!(cut, "56");
    let mut none = String::new();
    push_low_digits(&mut none, 123_456, 0);
    assert_eq!(none, "");
}

#[test]
fn whole_part_drops_the_low_digits() {
    assert_eq!(whole_part(1234, 2), 12);
    assert_eq!(whole_part(1234, 0), 1234);
    assert_eq!(whole_part(1234, 4), 0);
    assert_eq!(whole_part(1234, 40), 0);
    assert_eq!(whole_part(u128::MAX, 38), 3);
}

#[test]
fn fixed_point_has_the_places_asked_for() {
    assert_eq!(fixed_of(1234, 2), "12.34");
    assert_eq!(fixed_of(5, 2), "0.05");
    assert_eq!(fixed_of(0, 4), "0.0000");
    assert_eq!(fixed_of(3123, 4), "0.3123");
    assert_eq!(fixed_of(3_000_000, 4), "300.0000");
    assert_eq!(fixed_of(320_158_103_804, 2), "3201581038.04");
}

#[test]
fn fixed_point_with_more_places_than_digits() {
    assert_eq!(fixed_of(7, 255).len(), 257);
    assert!(fixed_of(7, 255).starts_with("0.000"));
    assert!(fixed_of(7, 255).ends_with("007"));
}

#[test]
fn fixed_point_without_places_keeps_its_point() {
    assert_eq!(fixed_of(12, 0), "12.");
}
