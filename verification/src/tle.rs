//! The orbital elements of a satellite, as a two-line element record
//! gives them.

use vstd::prelude::*;
use vstd::slice::slice_subrange;
use vstd::slice::slice_to_vec;
use crate::decimal::Decimal;
use crate::epoch::Timestamp;
use crate::error::Field;
use crate::error::ParseError;
use crate::error::ParseFailure;
use crate::fields::checksum_holds;
use crate::fields::lemma_altered_check_digit_fails;
use crate::text::lemma_digits_value_bound;
use crate::decimal::pow10;
use crate::fields::class_text;
use crate::fields::designator_text;
use crate::fields::epoch_text;
use crate::text::assumed_decimal_text;
use crate::text::fixed_point_text;
use crate::text::natural_text;
use crate::text::string_text;
use crate::text::unsigned_decimal_text;

verus! {

/// The security classification of the elements.
#[derive(Clone, Copy, Debug, PartialEq, Eq, Structural)]
pub enum SatelliteClass {
    /// `U` in the record.
    Unclassified,
    /// `C` in the record.
    Classified,
    /// `S` in the record.
    Secret,
}

/// The international designator of a satellite.
#[derive(Clone, Debug, PartialEq, Eq)]
pub struct Designator {
    /// The last two digits of the launch year.
    pub launch_year: u8,
    /// The number of the launch within its year.
    pub launch_number: u16,
    /// The piece of the launch, up to three characters.
    pub launch_piece: String,
}

/// The orbital elements of one satellite at one epoch.
///
/// Angles are in degrees, the mean motion is in revolutions per day, and
/// its two derivatives are in their units per day. Every decimal is the
/// number as the record writes it.
#[derive(Clone, Debug, PartialEq, Eq)]
pub struct TLE {
    /// The satellite's name.
    pub name: String,
    /// The catalog number.
    pub number: u32,
    /// The classification of the elements.
    pub class: SatelliteClass,
    /// The international designator.
    pub designator: Designator,
    /// The epoch of the elements.
    pub date: Timestamp,
    /// The first derivative of the mean motion.
    pub ndot: Decimal,
    /// The second derivative of the mean motion.
    pub ndotdot: Decimal,
    /// The drag term.
    pub b_star: Decimal,
    /// The number of the element set.
    pub set_number: u16,
    /// The inclination.
    pub inclination: Decimal,
    /// The right ascension of the ascending node.
    pub right_ascension: Decimal,
    /// The eccentricity.
    pub eccentricity: Decimal,
    /// The argument of perigee.
    pub perigee: Decimal,
    /// The mean anomaly.
    pub mean_anomaly: Decimal,
    /// The mean motion.
    pub mean_motion: Decimal,
    /// The revolution count at epoch.
    pub revolutions: u32,
}


/// The largest number that an integer column of a record can hold.
pub const MAX_COUNT: i32 = 0x7fff_ffff;

/// Why the fields of a record cannot be decoded: what the first field
/// that cannot be read gives rise to, in the order in which the fields are
/// read. `None` where every field can be read.
///
/// The name is read first, then the fields of line 1 from left to right,
/// then those of line 2.
pub open spec fn field_failure(line1: Seq<u8>, line2: Seq<u8>, name_line: Seq<u8>) -> Option<
    ParseFailure,
> {
    if string_text(name_line) is None {
        Some(ParseFailure::FieldDecodeError(Field::Name, name_line))
    } else if natural_text(line1.subrange(2, 7), MAX_COUNT as int) is None {
        Some(ParseFailure::FieldDecodeError(Field::SatelliteNumber, line1.subrange(2, 7)))
    } else if class_text(line1.subrange(7, 8)) is None {
        Some(ParseFailure::UnknownClassificationCode)
    } else if designator_text(line1.subrange(9, 17)) is None {
        Some(ParseFailure::FieldDecodeError(Field::Designator, line1.subrange(9, 17)))
    } else if epoch_text(line1.subrange(18, 32)) is Err {
        Some(epoch_text(line1.subrange(18, 32))->Err_0)
    } else if fixed_point_text(line1.subrange(33, 43)) is None {
        Some(ParseFailure::FieldDecodeError(Field::MeanMotionDot, line1.subrange(33, 43)))
    } else if assumed_decimal_text(line1.subrange(44, 52)) is None {
        Some(ParseFailure::FieldDecodeError(Field::MeanMotionDotDot, line1.subrange(44, 52)))
    } else if assumed_decimal_text(line1.subrange(53, 61)) is None {
        Some(ParseFailure::FieldDecodeError(Field::DragTerm, line1.subrange(53, 61)))
    } else if natural_text(line1.subrange(64, 68), u16::MAX as int) is None {
        Some(ParseFailure::FieldDecodeError(Field::SetNumber, line1.subrange(64, 68)))
    } else if fixed_point_text(line2.subrange(8, 16)) is None {
        Some(ParseFailure::FieldDecodeError(Field::Inclination, line2.subrange(8, 16)))
    } else if fixed_point_text(line2.subrange(17, 25)) is None {
        Some(ParseFailure::FieldDecodeError(Field::RightAscension, line2.subrange(17, 25)))
    } else if unsigned_decimal_text(line2.subrange(26, 33)) is None {
        Some(ParseFailure::FieldDecodeError(Field::Eccentricity, line2.subrange(26, 33)))
    } else if fixed_point_text(line2.subrange(34, 42)) is None {
        Some(ParseFailure::FieldDecodeError(Field::Perigee, line2.subrange(34, 42)))
    } else if fixed_point_text(line2.subrange(43, 51)) is None {
        Some(ParseFailure::FieldDecodeError(Field::MeanAnomaly, line2.subrange(43, 51)))
    } else if fixed_point_text(line2.subrange(52, 63)) is None {
        Some(ParseFailure::FieldDecodeError(Field::MeanMotion, line2.subrange(52, 63)))
    } else if natural_text(line2.subrange(63, 68), MAX_COUNT as int) is None {
        Some(ParseFailure::FieldDecodeError(Field::Revolutions, line2.subrange(63, 68)))
    } else {
        None
    }
}

/// Why a record is refused, or `None` where it is accepted.
///
/// The check digits of both element lines are examined first; then the
/// line numbers, the first byte of each element line; then the fields.
pub open spec fn record_failure(line1: Seq<u8>, line2: Seq<u8>, name_line: Seq<u8>) -> Option<
    ParseFailure,
> {
    if !checksum_holds(line1) || !checksum_holds(line2) {
        Some(ParseFailure::ChecksumMismatch)
    } else if line1[0] != 0x31 || line2[0] != 0x32 {
        Some(ParseFailure::LineNumberMismatch)
    } else {
        field_failure(line1, line2, name_line)
    }
}

/// Whether `record` is what the three lines decode to: the elements they
/// give where they are accepted, and the reason where they are refused.
pub open spec fn read_as(
    line1: Seq<u8>,
    line2: Seq<u8>,
    name_line: Seq<u8>,
    record: Result<TLE, ParseError>,
) -> bool {
    match record_failure(line1, line2, name_line) {
        None => record matches Ok(tle) && tle.decodes(line1, line2, name_line),
        Some(failure) => record matches Err(error) && error@ == failure,
    }
}

/// The failure to read `field` out of the bytes `raw`.
fn unreadable(field: Field, raw: &[u8]) -> (error: ParseError)
    ensures
        error@ == ParseFailure::FieldDecodeError(field, raw@),
{
    ParseError::FieldDecodeError(field, slice_to_vec(raw))
}

/// Narrows an integer read from a column to the range from zero to
/// `limit`.
fn natural(number: Option<i32>, limit: i32) -> (narrowed: Option<i32>)
    requires
        limit >= 0,
    ensures
        narrowed == match number {
            Some(value) => if 0 <= value <= limit {
                Some(value)
            } else {
                None
            },
            None => None,
        },
{
    match number {
        Some(value) => if 0 <= value && value <= limit {
            Some(value)
        } else {
            None
        },
        None => None,
    }
}

impl TLE {
    /// The satellite's name.
    pub fn name(&self) -> (name: String)
        ensures
            name@ == self.name@,
    {
        self.name.clone()
    }

    /// Whether these are the elements that a record gives, field by
    /// field.
    pub open spec fn decodes(&self, line1: Seq<u8>, line2: Seq<u8>, name_line: Seq<u8>) -> bool {
        &&& string_text(name_line) == Some(self.name@)
        &&& natural_text(line1.subrange(2, 7), MAX_COUNT as int) == Some(self.number as int)
        &&& class_text(line1.subrange(7, 8)) == Some(self.class)
        &&& designator_text(line1.subrange(9, 17)) matches Some(parts)
            && self.designator.holds(parts)
        &&& epoch_text(line1.subrange(18, 32)) == Ok::<Timestamp, ParseFailure>(self.date)
        &&& fixed_point_text(line1.subrange(33, 43)) == Some(self.ndot)
        &&& assumed_decimal_text(line1.subrange(44, 52)) == Some(self.ndotdot)
        &&& assumed_decimal_text(line1.subrange(53, 61)) == Some(self.b_star)
        &&& natural_text(line1.subrange(64, 68), u16::MAX as int) == Some(self.set_number as int)
        &&& fixed_point_text(line2.subrange(8, 16)) == Some(self.inclination)
        &&& fixed_point_text(line2.subrange(17, 25)) == Some(self.right_ascension)
        &&& unsigned_decimal_text(line2.subrange(26, 33)) == Some(self.eccentricity)
        &&& fixed_point_text(line2.subrange(34, 42)) == Some(self.perigee)
        &&& fixed_point_text(line2.subrange(43, 51)) == Some(self.mean_anomaly)
        &&& fixed_point_text(line2.subrange(52, 63)) == Some(self.mean_motion)
        &&& natural_text(line2.subrange(63, 68), MAX_COUNT as int) == Some(
            self.revolutions as int,
        )
    }

    /// Decodes a record from its two element lines and its name line.
    ///
    /// The record is accepted only as a whole. It is refused for the
    /// first thing found wrong with it, looking first at the check digits
    /// of both element lines, then at the line numbers, then at the fields
    /// in the order of [`field_failure`]. An element line holds 69 bytes;
    /// bytes beyond those count toward the check sum and are not read
    /// otherwise.
    pub fn from_lines(line1: &[u8], line2: &[u8], name_line: &[u8]) -> (record: Result<
        TLE,
        ParseError,
    >)
        ensures
            read_as(line1@, line2@, name_line@, record),
            record matches Ok(tle) ==> tle.date.second < 86_400 && tle.eccentricity.exponent == -7
                && 0 <= tle.eccentricity.mantissa < 10_000_000,
    {
        match TLE::checksum(line1) {
            Ok(_) => {},
            Err(error) => return Err(error),
        }
        match TLE::checksum(line2) {
            Ok(_) => {},
            Err(error) => return Err(error),
        }
        if line1[0] != 0x31 || line2[0] != 0x32 {
            return Err(ParseError::LineNumberMismatch);
        }
        let name = match TLE::parse_string(name_line) {
            Some(name) => name,
            None => return Err(unreadable(Field::Name, name_line)),
        };
        let column = slice_subrange(line1, 2, 7);
        let number: u32 = match natural(TLE::parse_number(column), MAX_COUNT) {
            Some(number) => number as u32,
            None => return Err(unreadable(Field::SatelliteNumber, column)),
        };
        let class = match TLE::string_to_class(slice_subrange(line1, 7, 8)) {
            Ok(class) => class,
            Err(error) => return Err(error),
        };
        let designator = match TLE::parse_designator(slice_subrange(line1, 9, 17)) {
            Ok(designator) => designator,
            Err(error) => return Err(error),
        };
        let date = match TLE::parse_date(slice_subrange(line1, 18, 32)) {
            Ok(date) => date,
            Err(error) => return Err(error),
        };
        let column = slice_subrange(line1, 33, 43);
        let ndot = match TLE::parse_float(column) {
            Some(ndot) => ndot,
            None => return Err(unreadable(Field::MeanMotionDot, column)),
        };
        let column = slice_subrange(line1, 44, 52);
        let ndotdot = match TLE::parse_pow_10(column) {
            Some(ndotdot) => ndotdot,
            None => return Err(unreadable(Field::MeanMotionDotDot, column)),
        };
        let column = slice_subrange(line1, 53, 61);
        let b_star = match TLE::parse_pow_10(column) {
            Some(b_star) => b_star,
            None => return Err(unreadable(Field::DragTerm, column)),
        };
        let column = slice_subrange(line1, 64, 68);
        let set_number: u16 = match natural(TLE::parse_number(column), 0xffff) {
            Some(set_number) => set_number as u16,
            None => return Err(unreadable(Field::SetNumber, column)),
        };
        let column = slice_subrange(line2, 8, 16);
        let inclination = match TLE::parse_float(column) {
            Some(inclination) => inclination,
            None => return Err(unreadable(Field::Inclination, column)),
        };
        let column = slice_subrange(line2, 17, 25);
        let right_ascension = match TLE::parse_float(column) {
            Some(right_ascension) => right_ascension,
            None => return Err(unreadable(Field::RightAscension, column)),
        };
        let column = slice_subrange(line2, 26, 33);
        let eccentricity = match TLE::parse_digits_i(column) {
            Some(eccentricity) => eccentricity,
            None => return Err(unreadable(Field::Eccentricity, column)),
        };
        proof {
            lemma_digits_value_bound(column@);
            assert(pow10(7) == 10_000_000) by {
                reveal_with_fuel(pow10, 8);
            }
        }
        let column = slice_subrange(line2, 34, 42);
        let perigee = match TLE::parse_float(column) {
            Some(perigee) => perigee,
            None => return Err(unreadable(Field::Perigee, column)),
        };
        let column = slice_subrange(line2, 43, 51);
        let mean_anomaly = match TLE::parse_float(column) {
            Some(mean_anomaly) => mean_anomaly,
            None => return Err(unreadable(Field::MeanAnomaly, column)),
        };
        let column = slice_subrange(line2, 52, 63);
        let mean_motion = match TLE::parse_float(column) {
            Some(mean_motion) => mean_motion,
            None => return Err(unreadable(Field::MeanMotion, column)),
        };
        let column = slice_subrange(line2, 63, 68);
        let revolutions: u32 = match natural(TLE::parse_number(column), MAX_COUNT) {
            Some(revolutions) => revolutions as u32,
            None => return Err(unreadable(Field::Revolutions, column)),
        };
        Ok(
            TLE {
                name,
                number,
                class,
                designator,
                date,
                ndot,
                ndotdot,
                b_star,
                set_number,
                inclination,
                right_ascension,
                eccentricity,
                perigee,
                mean_anomaly,
                mean_motion,
                revolutions,
            },
        )
    }
}

/// A record that carries the right check digits is refused for its check
/// sum as soon as the check digit of either element line is replaced by
/// any other byte.
pub proof fn lemma_altered_check_digit_is_refused(
    line1: Seq<u8>,
    line2: Seq<u8>,
    name_line: Seq<u8>,
    byte: u8,
)
    requires
        checksum_holds(line1),
        checksum_holds(line2),
    ensures
        byte != line1[68] ==> record_failure(line1.update(68, byte), line2, name_line) == Some(
            ParseFailure::ChecksumMismatch,
        ),
        byte != line2[68] ==> record_failure(line1, line2.update(68, byte), name_line) == Some(
            ParseFailure::ChecksumMismatch,
        ),
{
    if byte != line1[68] {
        lemma_altered_check_digit_fails(line1, byte);
    }
    if byte != line2[68] {
        lemma_altered_check_digit_fails(line2, byte);
    }
}

/// A record is accepted only where nothing is wrong with it: both check
/// digits are right, both line numbers are right, and every field can be
/// read. Whatever is handed out as elements has passed all of it.
pub proof fn lemma_accepted_record_passed_every_check(
    line1: Seq<u8>,
    line2: Seq<u8>,
    name_line: Seq<u8>,
    record: Result<TLE, ParseError>,
)
    requires
        read_as(line1, line2, name_line, record),
    ensures
        record is Ok <==> checksum_holds(line1) && checksum_holds(line2) && line1[0] == 0x31
            && line2[0] == 0x32 && field_failure(line1, line2, name_line) is None,
        record matches Ok(tle) ==> tle.decodes(line1, line2, name_line),
{
}

} // verus!
