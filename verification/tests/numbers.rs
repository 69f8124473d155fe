use tardis::decimal::power_of_ten;
use tardis::decimal::Decimal;
use tardis::decimal::MAX_POWER;
use tardis::text::append_integer;
use tardis::text::append_natural;
use tardis::text::find_point;
use tardis::text::is_blank_byte;
use tardis::text::parse_digits;
use tardis::text::split_sign;
use tardis::text::trim;
use tardis::text::trim_end;
use tardis::text::trim_start;

#[test]
fn powers_of_ten() {
    assert_eq!(power_of_ten(0), 1);
    assert_eq!(power_of_ten(1), 10);
    assert_eq!(power_of_ten(7), 10_000_000);
    assert_eq!(power_of_ten(MAX_POWER), 1_000_000_000_000_000_000);
}

#[test]
fn decimals_are_built_as_written() {
    let decimal = Decimal::new(-7551, -8);
    assert_eq!(decimal.mantissa, -7551);
    assert_eq!(decimal.exponent, -8);
    assert_ne!(Decimal::new(10, -1), Decimal::new(1, 0));
}

#[test]
fn floor_rounds_down() {
    assert_eq!(Decimal::new(31_658_314_353, -8).floor(), 316);
    assert_eq!(Decimal::new(316, 0).floor(), 316);
    assert_eq!(Decimal::new(0, -5).floor(), 0);
    assert_eq!(Decimal::new(99, -2).floor(), 0);
    assert_eq!(Decimal::new(100, -2).floor(), 1);
    assert_eq!(Decimal::new(-1, -2).floor(), -1);
    assert_eq!(Decimal::new(-15, -1).floor(), -2);
    assert_eq!(Decimal::new(-20, -1).floor(), -2);
    assert_eq!(Decimal::new(i64::MAX, -18).floor(), 9);
    assert_eq!(Decimal::new(i64::MIN, -18).floor(), -10);
    assert_eq!(Decimal::new(i64::MIN, 0).floor(), i64::MIN);
}

#[test]
fn fraction_in_parts() {
    assert_eq!(Decimal::new(31_658_314_353, -8).fraction_of(86_400), 50_383);
    assert_eq!(Decimal::new(5, -1).fraction_of(86_400), 43_200);
    assert_eq!(Decimal::new(-15, -1).fraction_of(86_400), 43_200);
    assert_eq!(Decimal::new(-125, -2).fraction_of(4), 3);
    assert_eq!(Decimal::new(316, 0).fraction_of(86_400), 0);
    assert_eq!(Decimal::new(99_999_999, -8).fraction_of(86_400), 86_399);
    assert_eq!(Decimal::new(75, -2).fraction_of(0), 0);
    assert_eq!(Decimal::new(75, -2).fraction_of(1), 0);
    assert_eq!(Decimal::new(999_999_999_999_999_999, -18).fraction_of(u32::MAX), u32::MAX - 1);
}

#[test]
fn blanks() {
    for byte in [b' ', b'\t', b'\n', 0x0b, 0x0c, b'\r'] {
        assert!(is_blank_byte(byte));
    }
    for byte in [0u8, 0x08, 0x0e, 0x1f, b'0', b'a', b'-', 0x7f, 0x85, 0xa0, 0xff] {
        assert!(!is_blank_byte(byte));
    }
}

#[test]
fn trimming() {
    assert_eq!(trim_start(b"  a b  "), b"a b  ");
    assert_eq!(trim_end(b"  a b  "), b"  a b");
    assert_eq!(trim(b"  a b  "), b"a b");
    assert_eq!(trim(b" \t\r\n"), b"");
    assert_eq!(trim_start(b""), b"");
    assert_eq!(trim_end(b""), b"");
    assert_eq!(trim(b"x"), b"x");
}

#[test]
fn digits() {
    assert_eq!(parse_digits(b"0"), Some(0));
    assert_eq!(parse_digits(b"0004731"), Some(4731));
    assert_eq!(parse_digits(b"18446744073709551615"), Some(u64::MAX));
    assert_eq!(parse_digits(b"18446744073709551616"), None);
    assert_eq!(parse_digits(b"99999999999999999999"), None);
    assert_eq!(parse_digits(b""), None);
    assert_eq!(parse_digits(b" 1"), None);
    assert_eq!(parse_digits(b"1 "), None);
    assert_eq!(parse_digits(b"-1"), None);
    assert_eq!(parse_digits(b"1/"), None);
    assert_eq!(parse_digits(b"1:"), None);
}

#[test]
fn signs() {
    assert_eq!(split_sign(b"-12"), (true, &b"12"[..]));
    assert_eq!(split_sign(b"+12"), (false, &b"12"[..]));
    assert_eq!(split_sign(b"12"), (false, &b"12"[..]));
    assert_eq!(split_sign(b"-"), (true, &b""[..]));
    assert_eq!(split_sign(b""), (false, &b""[..]));
    assert_eq!(split_sign(b" -1"), (false, &b" -1"[..]));
}

#[test]
fn decimal_points() {
    assert_eq!(find_point(b"51.6442"), 2);
    assert_eq!(find_point(b".5"), 0);
    assert_eq!(find_point(b"5."), 1);
    assert_eq!(find_point(b"1.2.3"), 1);
    assert_eq!(find_point(b"123"), 3);
    assert_eq!(find_point(b""), 0);
}

#[test]
fn numbers_in_writing() {
    let mut text = String::from("n = ");
    append_natural(&mut text, 0);
    assert_eq!(text, "n = 0");
    append_natural(&mut text, 907);
    assert_eq!(text, "n = 0907");
    append_natural(&mut text, u32::MAX);
    assert_eq!(text, "n = 09074294967295");
    let mut text = String::new();
    append_integer(&mut text, -1);
    append_integer(&mut text, 10);
    append_integer(&mut text, i32::MIN);
    assert_eq!(text, "-110-2147483648");
}
