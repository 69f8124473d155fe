use chrono::Datelike;
use chrono::NaiveDate;
use tardis::decimal::Decimal;
use tardis::epoch::Timestamp;
use tardis::error::Field;
use tardis::error::ParseError;
use tardis::tle::SatelliteClass;
use tardis::tle::TLE;

fn value(decimal: Decimal) -> f64 {
    decimal.mantissa as f64 * 10f64.powi(decimal.exponent)
}

fn day_number(year: i32, month: u32, day: u32) -> i32 {
    NaiveDate::from_ymd_opt(year, month, day).unwrap().num_days_from_ce()
}

#[test]
fn assumed_decimal_decode() {
    let decoded = TLE::parse_pow_10(b"-13101-3").unwrap();
    assert_eq!(decoded, Decimal { mantissa: -13101, exponent: -8 });
    assert!((value(decoded) - -1.3101e-4).abs() < 1e-18);
}

#[test]
fn eccentricity_decode() {
    let decoded = TLE::parse_digits_i(b"0004731").unwrap();
    assert_eq!(decoded, Decimal { mantissa: 4731, exponent: -7 });
    assert!((value(decoded) - 0.0004731).abs() < 1e-18);
}

#[test]
fn checksum_of_the_sample_lines() {
    let line1 = b"1 25544U 98067A   21316.58314353 -.00007551  00000-0 -13101-3 0  9994";
    let line2 = b"2 25544  51.6442 328.9484 0004731 186.1225 318.0089 15.48559922311590";
    assert_eq!(TLE::checksum(line1), Ok(()));
    assert_eq!(TLE::checksum(line2), Ok(()));
    assert_eq!(TLE::checksum(&line1[..68]), Err(ParseError::ChecksumMismatch));
}

#[test]
fn checksum_counts_digits_and_minus_signs() {
    let mut line = vec![b' '; 69];
    line[68] = b'0';
    assert_eq!(TLE::checksum(&line), Ok(()));
    line[3] = b'7';
    assert_eq!(TLE::checksum(&line), Err(ParseError::ChecksumMismatch));
    line[68] = b'7';
    assert_eq!(TLE::checksum(&line), Ok(()));
    line[10] = b'-';
    assert_eq!(TLE::checksum(&line), Err(ParseError::ChecksumMismatch));
    line[68] = b'8';
    assert_eq!(TLE::checksum(&line), Ok(()));
    line[11] = b'+';
    line[12] = b'.';
    line[13] = b'A';
    assert_eq!(TLE::checksum(&line), Ok(()));
    line[14] = b'9';
    line[15] = b'9';
    assert_eq!(TLE::checksum(&line), Err(ParseError::ChecksumMismatch));
    line[68] = b'6';
    assert_eq!(TLE::checksum(&line), Ok(()));
}

#[test]
fn checksum_of_a_long_line() {
    let mut line = vec![b'9'; 1000];
    line[68] = b'1';
    assert_eq!(TLE::checksum(&line), Ok(()));
}

#[test]
fn integers() {
    assert_eq!(TLE::parse_number(b"25544"), Some(25544));
    assert_eq!(TLE::parse_number(b"  067"), Some(67));
    assert_eq!(TLE::parse_number(b" 12 \t"), Some(12));
    assert_eq!(TLE::parse_number(b"-3"), Some(-3));
    assert_eq!(TLE::parse_number(b"+0"), Some(0));
    assert_eq!(TLE::parse_number(b"-0"), Some(0));
    assert_eq!(TLE::parse_number(b"2147483647"), Some(i32::MAX));
    assert_eq!(TLE::parse_number(b"-2147483648"), Some(i32::MIN));
    assert_eq!(TLE::parse_number(b"000000000000000000000000000012"), Some(12));
}

#[test]
fn not_integers() {
    let cases: [&[u8]; 12] = [
        b"",
        b"   ",
        b"-",
        b"+",
        b"1 2",
        b"- 1",
        b"--1",
        b"1.",
        b"12a",
        b"2147483648",
        b"-2147483649",
        b"99999999999999999999999999",
    ];
    for text in cases {
        assert_eq!(TLE::parse_number(text), None);
    }
}

#[test]
fn fixed_point_numbers() {
    let cases: [(&[u8], i64, i32); 12] = [
        (b" 51.6442", 516_442, -4),
        (b"-.00007551", -7551, -8),
        (b" .00001234", 1234, -8),
        (b"+.5", 5, -1),
        (b"15.48559922", 1_548_559_922, -8),
        (b"316.58314353", 31_658_314_353, -8),
        (b"42", 42, 0),
        (b"42.", 42, 0),
        (b"0.0", 0, -1),
        (b"-0", 0, 0),
        (b"  007.50  ", 750, -2),
        (b"9223372036854775807", i64::MAX, 0),
    ];
    for (text, mantissa, exponent) in cases {
        assert_eq!(TLE::parse_float(text), Some(Decimal { mantissa, exponent }));
    }
}

#[test]
fn not_fixed_point_numbers() {
    let cases: [&[u8]; 13] = [
        b"",
        b"  ",
        b".",
        b"-.",
        b"+",
        b"1.2.3",
        b"1..2",
        b"1e5",
        b"inf",
        b"NaN",
        b"1 .5",
        b"-+1",
        b"9223372036854775808",
    ];
    for text in cases {
        assert_eq!(TLE::parse_float(text), None);
    }
}

#[test]
fn implied_decimal_points() {
    assert_eq!(TLE::parse_number_i(b"-13101"), Some(Decimal { mantissa: -13101, exponent: -5 }));
    assert_eq!(TLE::parse_number_i(b" 00000"), Some(Decimal { mantissa: 0, exponent: -5 }));
    assert_eq!(TLE::parse_number_i(b"+00042"), Some(Decimal { mantissa: 42, exponent: -5 }));
    assert_eq!(TLE::parse_number_i(b"5"), Some(Decimal { mantissa: 5, exponent: -1 }));
    assert_eq!(TLE::parse_number_i(b""), None);
    assert_eq!(TLE::parse_number_i(b"-"), None);
    assert_eq!(TLE::parse_number_i(b".5"), None);
    assert_eq!(TLE::parse_number_i(b"1 2"), None);
}

#[test]
fn digits_with_implied_decimal_point() {
    assert_eq!(TLE::parse_digits_i(b"0000000"), Some(Decimal { mantissa: 0, exponent: -7 }));
    assert_eq!(TLE::parse_digits_i(b"9999999"), Some(Decimal { mantissa: 9_999_999, exponent: -7 }));
    assert_eq!(TLE::parse_digits_i(b"5"), Some(Decimal { mantissa: 5, exponent: -1 }));
    assert_eq!(TLE::parse_digits_i(b""), None);
    assert_eq!(TLE::parse_digits_i(b" 004731"), None);
    assert_eq!(TLE::parse_digits_i(b"+004731"), None);
    assert_eq!(TLE::parse_digits_i(b"0004731 "), None);
}

#[test]
fn assumed_decimals() {
    assert_eq!(TLE::parse_pow_10(b" 00000-0"), Some(Decimal { mantissa: 0, exponent: -5 }));
    assert_eq!(TLE::parse_pow_10(b" 00000+0"), Some(Decimal { mantissa: 0, exponent: -5 }));
    assert_eq!(TLE::parse_pow_10(b" 12345-5"), Some(Decimal { mantissa: 12345, exponent: -10 }));
    assert_eq!(TLE::parse_pow_10(b"-12345+9"), Some(Decimal { mantissa: -12345, exponent: 4 }));
    assert_eq!(TLE::parse_pow_10(b"12345 3"), Some(Decimal { mantissa: 12345, exponent: -2 }));
    assert_eq!(TLE::parse_pow_10(b"112"), Some(Decimal { mantissa: 1, exponent: 11 }));
}

#[test]
fn not_assumed_decimals() {
    let cases: [&[u8]; 8] = [b"", b"1", b"12", b" 12345--", b" 12345  ", b" 1234.-3", b"-3", b"x12345-3"];
    for text in cases {
        assert_eq!(TLE::parse_pow_10(text), None);
    }
}

#[test]
fn strings() {
    assert_eq!(TLE::parse_string(b"A  "), Some("A".to_string()));
    assert_eq!(TLE::parse_string(b" A"), Some(" A".to_string()));
    assert_eq!(TLE::parse_string(b"   "), Some(String::new()));
    assert_eq!(TLE::parse_string(b""), Some(String::new()));
    assert_eq!(TLE::parse_string("d\u{e9}j\u{e0} \n".as_bytes()), Some("d\u{e9}j\u{e0}".to_string()));
    assert_eq!(TLE::parse_string(b"\xc3"), None);
    assert_eq!(TLE::parse_string(b"ab\xff  "), None);
}

#[test]
fn classes() {
    assert_eq!(TLE::string_to_class(b"U"), Ok(SatelliteClass::Unclassified));
    assert_eq!(TLE::string_to_class(b"C"), Ok(SatelliteClass::Classified));
    assert_eq!(TLE::string_to_class(b"S"), Ok(SatelliteClass::Secret));
    for text in [&b""[..], b" ", b"u", b" U", b"U ", b"U  ", b"UC", b"UU", b"X", b"c", b"s", b"\xff"] {
        assert_eq!(TLE::string_to_class(text), Err(ParseError::UnknownClassificationCode));
    }
}

#[test]
fn designators() {
    let designator = TLE::parse_designator(b"98067A  ").unwrap();
    assert_eq!(designator.launch_year, 98);
    assert_eq!(designator.launch_number, 67);
    assert_eq!(designator.launch_piece, "A");
    let designator = TLE::parse_designator(b"19029BKZ").unwrap();
    assert_eq!(designator.launch_year, 19);
    assert_eq!(designator.launch_number, 29);
    assert_eq!(designator.launch_piece, "BKZ");
    let designator = TLE::parse_designator(b" 5  1   ").unwrap();
    assert_eq!(designator.launch_year, 5);
    assert_eq!(designator.launch_number, 1);
    assert_eq!(designator.launch_piece, "");
}

#[test]
fn not_designators() {
    let cases: [&[u8]; 8] = [
        b"",
        b"98067A",
        b"98067A   ",
        b"        ",
        b"-1067A  ",
        b"98-67A  ",
        b"9806xA  ",
        b"98067\xff  ",
    ];
    for text in cases {
        assert_eq!(
            TLE::parse_designator(text),
            Err(ParseError::FieldDecodeError(Field::Designator, text.to_vec()))
        );
    }
}

#[test]
fn epoch_of_the_sample_record() {
    let epoch = TLE::parse_date(b"21316.58314353").unwrap();
    assert_eq!(epoch, Timestamp { day: day_number(2021, 11, 12), second: 13 * 3600 + 59 * 60 + 43 });
    assert_eq!(epoch, Timestamp { day: 738_106, second: 50_383 });
}

#[test]
fn epoch_years_turn_at_57() {
    assert_eq!(TLE::parse_date(b"57001.00000000").unwrap().day, day_number(1957, 1, 1));
    assert_eq!(TLE::parse_date(b"56001.00000000").unwrap().day, day_number(2056, 1, 1));
    assert_eq!(TLE::parse_date(b"00001.00000000").unwrap().day, day_number(2000, 1, 1));
    assert_eq!(TLE::parse_date(b"99365.00000000").unwrap().day, day_number(1999, 12, 31));
    assert_eq!(TLE::parse_date(b" 5001.00000000").unwrap().day, day_number(2005, 1, 1));
}

#[test]
fn epoch_days_run_through_the_calendar() {
    assert_eq!(TLE::parse_date(b"00060.50000000"), Ok(Timestamp { day: 730_179, second: 43_200 }));
    assert_eq!(TLE::parse_date(b"00060.50000000").unwrap().day, day_number(2000, 2, 29));
    assert_eq!(TLE::parse_date(b"21366.00000000").unwrap().day, day_number(2022, 1, 1));
    assert_eq!(TLE::parse_date(b"21000.00000000").unwrap().day, day_number(2020, 12, 31));
    assert_eq!(
        TLE::parse_date(b"21-01.5       "),
        Ok(Timestamp { day: day_number(2020, 12, 29), second: 43_200 })
    );
    assert_eq!(TLE::parse_date(b"21001         ").unwrap(), Timestamp { day: 737_791, second: 0 });
}

#[test]
fn epoch_fractions_are_cut_to_seconds() {
    assert_eq!(TLE::parse_date(b"21001.99999999").unwrap().second, 86_399);
    assert_eq!(TLE::parse_date(b"21001.00001157").unwrap().second, 0);
    assert_eq!(TLE::parse_date(b"21001.00001158").unwrap().second, 1);
    assert_eq!(TLE::parse_date(b"21001.25000000").unwrap().second, 21_600);
}

#[test]
fn epoch_at_the_ends_of_the_calendar() {
    let last = NaiveDate::MAX.num_days_from_ce() as i64;
    let first = NaiveDate::MIN.num_days_from_ce() as i64;
    let new_year = day_number(2021, 1, 1) as i64;
    let text = format!("21{:012}", last - new_year + 1);
    assert_eq!(TLE::parse_date(text.as_bytes()).unwrap().day as i64, last);
    let text = format!("21{:012}", last - new_year + 2);
    assert_eq!(TLE::parse_date(text.as_bytes()), Err(ParseError::DateOutOfRange));
    let text = format!("21{:012}", first - new_year + 1);
    assert_eq!(TLE::parse_date(text.as_bytes()).unwrap().day as i64, first);
    let text = format!("21{:012}", first - new_year);
    assert_eq!(TLE::parse_date(text.as_bytes()), Err(ParseError::DateOutOfRange));
    assert_eq!(TLE::parse_date(b"21999999999999"), Err(ParseError::DateOutOfRange));
    assert_eq!(TLE::parse_date(b"21-99999999999"), Err(ParseError::DateOutOfRange));
}

#[test]
fn not_epochs() {
    let cases: [&[u8]; 7] = [
        b"",
        b"21316.5831435",
        b"21316.583143530",
        b"-1316.58314353",
        b"2x316.58314353",
        b"21              "[..14].as_ref(),
        b"21316.58e14353",
    ];
    for text in cases {
        assert_eq!(
            TLE::parse_date(text),
            Err(ParseError::FieldDecodeError(Field::Epoch, text.to_vec()))
        );
    }
}

#[test]
fn epochs_agree_with_the_calendar() {
    for two_digits in 0..100 {
        let year = if two_digits <= 56 { 2000 + two_digits } else { 1900 + two_digits };
        let new_year = NaiveDate::from_ymd_opt(year, 1, 1).unwrap();
        for day in [1i64, 31, 32, 59, 60, 61, 365, 366, 367, 800] {
            let text = format!("{:02}{:03}.00000000", two_digits, day);
            let expected = new_year + chrono::TimeDelta::try_days(day - 1).unwrap();
            assert_eq!(
                TLE::parse_date(text.as_bytes()),
                Ok(Timestamp { day: expected.num_days_from_ce(), second: 0 })
            );
        }
    }
}
