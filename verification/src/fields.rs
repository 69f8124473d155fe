//! The decoders of the single fields of a record.

use vstd::prelude::*;
use vstd::slice::slice_subrange;
use vstd::slice::slice_to_vec;
use crate::decimal::Decimal;
use crate::epoch::day_after_new_year;
use crate::epoch::new_year_plus_days;
use crate::epoch::Timestamp;
use crate::error::Field;
use crate::error::ParseError;
use crate::error::ParseFailure;
use crate::text::assumed_decimal_text;
use crate::text::find_point;
use crate::text::fixed_point_text;
use crate::text::implied_decimal_text;
use crate::text::int32_text;
use crate::text::is_digit;
use crate::text::natural_text;
use crate::text::parse_digits;
use crate::text::split_sign;
use crate::text::string_text;
use crate::text::trim;
use crate::text::trim_end;
use crate::text::unsigned_decimal_text;
use crate::text::utf8_to_string;
use crate::tle::Designator;
use crate::tle::SatelliteClass;
use crate::tle::TLE;

verus! {

/// What a byte adds to the check sum of its line: a digit its value, a
/// minus sign one, anything else nothing.
pub open spec fn glyph_value(byte: u8) -> int {
    if is_digit(byte) {
        byte - 0x30
    } else if byte == 0x2d {
        1
    } else {
        0
    }
}

/// The sum of what the bytes of a text add to a check sum.
pub open spec fn glyph_sum(text: Seq<u8>) -> int
    decreases text.len(),
{
    if text.len() == 0 {
        0
    } else {
        glyph_sum(text.drop_last()) + glyph_value(text.last())
    }
}

/// Whether an element line carries the check digit that it should: the
/// byte in column 68 is a digit, and it is what all other bytes of the
/// line add up to, modulo ten.
pub open spec fn checksum_holds(line: Seq<u8>) -> bool {
    &&& line.len() >= 69
    &&& is_digit(line[68])
    &&& (glyph_sum(line) - glyph_value(line[68])) % 10 == glyph_value(line[68])
}

/// The classification that a text denotes: it is one byte long, and that
/// byte is one of the letters `U`, `C` and `S`.
pub open spec fn class_text(text: Seq<u8>) -> Option<SatelliteClass> {
    if text.len() != 1 {
        None
    } else if text[0] == 0x55 {
        Some(SatelliteClass::Unclassified)
    } else if text[0] == 0x43 {
        Some(SatelliteClass::Classified)
    } else if text[0] == 0x53 {
        Some(SatelliteClass::Secret)
    } else {
        None
    }
}

/// What the three parts of a designator denote, where the column is
/// eight bytes wide and each part can be read: the launch year in two
/// bytes, the launch number in three and the piece in three.
pub open spec fn designator_text(text: Seq<u8>) -> Option<(int, int, Seq<char>)> {
    if text.len() != 8 {
        None
    } else {
        match (
            natural_text(text.subrange(0, 2), 255),
            natural_text(text.subrange(2, 5), 65_535),
            string_text(text.subrange(5, 8)),
        ) {
            (Some(year), Some(number), Some(piece)) => Some((year, number, piece)),
            _ => None,
        }
    }
}

/// The year that the two digits of an epoch stand for: up to 56 they are
/// a year of the 2000s, above that one of the 1900s.
pub open spec fn epoch_year(two_digits: int) -> int {
    if two_digits <= 56 {
        2000 + two_digits
    } else {
        1900 + two_digits
    }
}

/// The point in time that an epoch column denotes.
///
/// The column is fourteen bytes wide: two for the year, twelve for the
/// day of the year with its fraction. Day 1 is January 1. The fraction of
/// the day is cut down to whole seconds.
pub open spec fn epoch_text(text: Seq<u8>) -> Result<Timestamp, ParseFailure> {
    if text.len() != 14 {
        Err(ParseFailure::FieldDecodeError(Field::Epoch, text))
    } else {
        match (natural_text(text.subrange(0, 2), 99), fixed_point_text(text.subrange(2, 14))) {
            (Some(year), Some(days)) => match day_after_new_year(
                epoch_year(year),
                days.whole() - 1,
            ) {
                Some(day) => Ok(
                    Timestamp { day, second: days.parts_of_fraction(86_400) as u32 },
                ),
                None => Err(ParseFailure::DateOutOfRange),
            },
            _ => Err(ParseFailure::FieldDecodeError(Field::Epoch, text)),
        }
    }
}

impl Designator {
    /// Whether the designator holds the three parts given.
    pub open spec fn holds(&self, parts: (int, int, Seq<char>)) -> bool {
        &&& self.launch_year == parts.0
        &&& self.launch_number == parts.1
        &&& self.launch_piece@ == parts.2
    }
}

impl TLE {
    /// Checks the check digit of an element line.
    pub fn checksum(line: &[u8]) -> (checked: Result<(), ParseError>)
        ensures
            checksum_holds(line@) <==> checked is Ok,
            checked matches Err(error) ==> error@ == ParseFailure::ChecksumMismatch,
    {
        if line.len() < 69 {
            return Err(ParseError::ChecksumMismatch);
        }
        let check: u8 = line[68];
        if check < 0x30 || check > 0x39 {
            return Err(ParseError::ChecksumMismatch);
        }
        let digit: u8 = check - 0x30;
        let mut sum: u8 = 0;
        let mut i: usize = 0;
        assert(line@.take(0) =~= Seq::<u8>::empty());
        while i < line.len()
            invariant
                i <= line.len(),
                0 <= sum < 10,
                sum == glyph_sum(line@.take(i as int)) % 10,
            decreases line.len() - i,
        {
            let byte: u8 = line[i];
            let value: u8 = if 0x30 <= byte && byte <= 0x39 {
                byte - 0x30
            } else if byte == 0x2d {
                1
            } else {
                0
            };
            assert(line@.take(i + 1).drop_last() =~= line@.take(i as int));
            assert(value == glyph_value(line@.take(i + 1).last()));
            sum = (sum + value) % 10;
            i = i + 1;
        }
        assert(line@.take(i as int) =~= line@);
        if (sum + 10 - digit) % 10 == digit {
            Ok(())
        } else {
            Err(ParseError::ChecksumMismatch)
        }
    }

    /// Reads a column that holds an integer.
    pub fn parse_number(bytes: &[u8]) -> (number: Option<i32>)
        ensures
            number == int32_text(bytes@),
    {
        let body = trim(bytes);
        let (negative, digits) = split_sign(body);
        match parse_digits(digits) {
            Some(magnitude) => {
                if negative {
                    if magnitude <= 2_147_483_648 {
                        Some((0 - magnitude as i64) as i32)
                    } else {
                        None
                    }
                } else {
                    if magnitude <= 2_147_483_647 {
                        Some(magnitude as i32)
                    } else {
                        None
                    }
                }
            },
            None => None,
        }
    }

    /// Reads a column that holds a number in fixed-point notation, such
    /// as `51.6442` or `-.00007551`.
    pub fn parse_float(bytes: &[u8]) -> (number: Option<Decimal>)
        ensures
            number == fixed_point_text(bytes@),
            number matches Some(decimal) ==> -bytes@.len() <= decimal.exponent <= 0,
    {
        let body = trim(bytes);
        let (negative, number) = split_sign(body);
        let point: usize = find_point(number);
        let mut digits: Vec<u8> = slice_to_vec(number);
        let mut scale: usize = 0;
        if point < number.len() {
            digits.remove(point);
            scale = number.len() - point - 1;
        }
        if scale > 0x7fff_ffff {
            return None;
        }
        match parse_digits(digits.as_slice()) {
            Some(magnitude) => {
                if magnitude <= 0x7fff_ffff_ffff_ffff {
                    let mantissa: i64 = if negative {
                        0 - magnitude as i64
                    } else {
                        magnitude as i64
                    };
                    Some(Decimal { mantissa, exponent: 0 - scale as i32 })
                } else {
                    None
                }
            },
            None => None,
        }
    }

    /// Reads a column that holds a mantissa with an implied decimal
    /// point, such as `-13101` for `-0.13101`.
    pub fn parse_number_i(bytes: &[u8]) -> (number: Option<Decimal>)
        ensures
            number == implied_decimal_text(bytes@),
            number matches Some(decimal) ==> -bytes@.len() <= decimal.exponent <= 0,
    {
        let body = trim(bytes);
        let (negative, digits) = split_sign(body);
        if digits.len() > 0x7fff_ffff {
            return None;
        }
        match parse_digits(digits) {
            Some(magnitude) => {
                if magnitude <= 0x7fff_ffff_ffff_ffff {
                    let mantissa: i64 = if negative {
                        0 - magnitude as i64
                    } else {
                        magnitude as i64
                    };
                    Some(Decimal { mantissa, exponent: 0 - digits.len() as i32 })
                } else {
                    None
                }
            },
            None => None,
        }
    }

    /// Reads a column that holds a number in assumed-decimal notation,
    /// such as `-13101-3` for `-0.13101 × 10^-3`.
    pub fn parse_pow_10(bytes: &[u8]) -> (number: Option<Decimal>)
        ensures
            number == assumed_decimal_text(bytes@),
    {
        if bytes.len() < 2 {
            return None;
        }
        let split: usize = bytes.len() - 2;
        assert(bytes@.take(split as int) =~= bytes@.subrange(0, split as int));
        assert(bytes@.skip(split as int) =~= bytes@.subrange(split as int, bytes.len() as int));
        let base = match TLE::parse_number_i(slice_subrange(bytes, 0, split)) {
            Some(base) => base,
            None => return None,
        };
        let power: i32 = match TLE::parse_number(slice_subrange(bytes, split, bytes.len())) {
            Some(power) => power,
            None => return None,
        };
        match base.exponent.checked_add(power) {
            Some(exponent) => Some(Decimal { mantissa: base.mantissa, exponent }),
            None => None,
        }
    }

    /// Reads a column of digits with an implied decimal point before
    /// them, such as `0004731` for `0.0004731`.
    pub fn parse_digits_i(bytes: &[u8]) -> (number: Option<Decimal>)
        ensures
            number == unsigned_decimal_text(bytes@),
    {
        if bytes.len() > 0x7fff_ffff {
            return None;
        }
        match parse_digits(bytes) {
            Some(magnitude) => {
                if magnitude <= 0x7fff_ffff_ffff_ffff {
                    Some(Decimal { mantissa: magnitude as i64, exponent: 0 - bytes.len() as i32 })
                } else {
                    None
                }
            },
            None => None,
        }
    }

    /// Reads a column that holds text.
    pub fn parse_string(bytes: &[u8]) -> (text: Option<String>)
        ensures
            text is Some <==> string_text(bytes@) is Some,
            text matches Some(string) ==> Some(string@) == string_text(bytes@),
    {
        utf8_to_string(trim_end(bytes))
    }

    /// Reads the classification: `U`, `C` or `S`, and nothing else.
    pub fn string_to_class(class: &[u8]) -> (decoded: Result<SatelliteClass, ParseError>)
        ensures
            match class_text(class@) {
                Some(expected) => decoded matches Ok(found) && found == expected,
                None => decoded matches Err(error) && error@
                    == ParseFailure::UnknownClassificationCode,
            },
    {
        if class.len() != 1 {
            Err(ParseError::UnknownClassificationCode)
        } else if class[0] == 0x55 {
            Ok(SatelliteClass::Unclassified)
        } else if class[0] == 0x43 {
            Ok(SatelliteClass::Classified)
        } else if class[0] == 0x53 {
            Ok(SatelliteClass::Secret)
        } else {
            Err(ParseError::UnknownClassificationCode)
        }
    }

    /// Reads the international designator.
    pub fn parse_designator(designator: &[u8]) -> (decoded: Result<Designator, ParseError>)
        ensures
            match designator_text(designator@) {
                Some(parts) => decoded matches Ok(found) && found.holds(parts),
                None => decoded matches Err(error) && error@ == ParseFailure::FieldDecodeError(
                    Field::Designator,
                    designator@,
                ),
            },
    {
        if designator.len() != 8 {
            return Err(ParseError::FieldDecodeError(Field::Designator, slice_to_vec(designator)));
        }
        let year = TLE::parse_number(slice_subrange(designator, 0, 2));
        let number = TLE::parse_number(slice_subrange(designator, 2, 5));
        let piece = TLE::parse_string(slice_subrange(designator, 5, 8));
        match (year, number, piece) {
            (Some(year), Some(number), Some(piece)) => {
                if 0 <= year && year <= 255 && 0 <= number && number <= 65_535 {
                    Ok(
                        Designator {
                            launch_year: year as u8,
                            launch_number: number as u16,
                            launch_piece: piece,
                        },
                    )
                } else {
                    Err(ParseError::FieldDecodeError(Field::Designator, slice_to_vec(designator)))
                }
            },
            _ => Err(ParseError::FieldDecodeError(Field::Designator, slice_to_vec(designator))),
        }
    }

    /// Reads the epoch.
    pub fn parse_date(date: &[u8]) -> (decoded: Result<Timestamp, ParseError>)
        ensures
            match epoch_text(date@) {
                Ok(expected) => decoded matches Ok(found) && found == expected,
                Err(failure) => decoded matches Err(error) && error@ == failure,
            },
            decoded matches Ok(found) ==> found.second < 86_400,
    {
        if date.len() != 14 {
            return Err(ParseError::FieldDecodeError(Field::Epoch, slice_to_vec(date)));
        }
        let year = TLE::parse_number(slice_subrange(date, 0, 2));
        let days = TLE::parse_float(slice_subrange(date, 2, 14));
        match (year, days) {
            (Some(year), Some(days)) => {
                if year < 0 || year > 99 {
                    return Err(ParseError::FieldDecodeError(Field::Epoch, slice_to_vec(date)));
                }
                let year: i32 = if year <= 56 {
                    2000 + year
                } else {
                    1900 + year
                };
                let whole: i64 = days.floor();
                let second: u32 = days.fraction_of(86_400);
                let offset: i64 = match whole.checked_sub(1) {
                    Some(offset) => offset,
                    None => return Err(ParseError::DateOutOfRange),
                };
                match new_year_plus_days(year, offset) {
                    Some(day) => Ok(Timestamp { day, second }),
                    None => Err(ParseError::DateOutOfRange),
                }
            },
            _ => Err(ParseError::FieldDecodeError(Field::Epoch, slice_to_vec(date))),
        }
    }
}

/// Replacing one byte of a text changes its sum by what the new byte adds
/// more than the old one.
pub proof fn lemma_glyph_sum_update(text: Seq<u8>, index: int, byte: u8)
    requires
        0 <= index < text.len(),
    ensures
        glyph_sum(text.update(index, byte)) == glyph_sum(text) - glyph_value(text[index])
            + glyph_value(byte),
    decreases text.len(),
{
    if index == text.len() - 1 {
        assert(text.update(index, byte).drop_last() =~= text.drop_last());
    } else {
        lemma_glyph_sum_update(text.drop_last(), index, byte);
        assert(text.update(index, byte).drop_last() =~= text.drop_last().update(index, byte));
    }
}

/// An element line that carries the right check digit carries the wrong
/// one as soon as that digit is replaced by any other byte.
pub proof fn lemma_altered_check_digit_fails(line: Seq<u8>, byte: u8)
    requires
        checksum_holds(line),
        byte != line[68],
    ensures
        !checksum_holds(line.update(68, byte)),
{
    lemma_glyph_sum_update(line, 68, byte);
}

/// The two digits of an epoch stand for a year from 1957 to 2056, and for
/// the one year in that span that ends in them.
pub proof fn lemma_epoch_year_window(two_digits: int)
    requires
        0 <= two_digits <= 99,
    ensures
        1957 <= epoch_year(two_digits) <= 2056,
        epoch_year(two_digits) % 100 == two_digits,
        two_digits <= 56 <==> epoch_year(two_digits) >= 2000,
{
}

} // verus!
