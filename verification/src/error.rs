//! Why a record was refused.

use vstd::prelude::*;
use vstd::string::StringExecFns;

verus! {

/// The parts of a record that are decoded one by one.
///
/// Columns are counted from zero, and a range of columns ends before the
/// second number given: columns 2 to 7 are the five bytes from the third
/// of the line on.
#[derive(Clone, Copy, Debug, PartialEq, Eq, Structural)]
pub enum Field {
    /// The satellite's name, which is all of the name line.
    Name,
    /// The catalog number, columns 2 to 7 of line 1.
    SatelliteNumber,
    /// The international designator, columns 9 to 17 of line 1.
    Designator,
    /// The epoch, columns 18 to 32 of line 1.
    Epoch,
    /// The first derivative of the mean motion, columns 33 to 43 of line 1.
    MeanMotionDot,
    /// The second derivative of the mean motion, columns 44 to 52 of
    /// line 1.
    MeanMotionDotDot,
    /// The drag term, columns 53 to 61 of line 1.
    DragTerm,
    /// The element set number, columns 64 to 68 of line 1.
    SetNumber,
    /// The inclination, columns 8 to 16 of line 2.
    Inclination,
    /// The right ascension of the ascending node, columns 17 to 25 of
    /// line 2.
    RightAscension,
    /// The eccentricity, columns 26 to 33 of line 2.
    Eccentricity,
    /// The argument of perigee, columns 34 to 42 of line 2.
    Perigee,
    /// The mean anomaly, columns 43 to 51 of line 2.
    MeanAnomaly,
    /// The mean motion, columns 52 to 63 of line 2.
    MeanMotion,
    /// The revolution count at epoch, columns 63 to 68 of line 2.
    Revolutions,
}

/// Why a record was refused.
#[derive(Clone, Debug, PartialEq, Eq)]
pub enum ParseError {
    /// The check digit of an element line is missing or is not the sum of
    /// the line, modulo ten.
    ChecksumMismatch,
    /// Line 1 does not begin with `1`, or line 2 does not begin with `2`.
    LineNumberMismatch,
    /// A field does not hold what it should. The bytes are those of the
    /// field as they stand in the record.
    FieldDecodeError(Field, Vec<u8>),
    /// The epoch names a day that the calendar does not reach.
    DateOutOfRange,
    /// The classification is none of `U`, `C` and `S`.
    UnknownClassificationCode,
}

/// What a [`ParseError`] says, with the bytes of the field as a sequence.
pub enum ParseFailure {
    /// See [`ParseError::ChecksumMismatch`].
    ChecksumMismatch,
    /// See [`ParseError::LineNumberMismatch`].
    LineNumberMismatch,
    /// See [`ParseError::FieldDecodeError`].
    FieldDecodeError(Field, Seq<u8>),
    /// See [`ParseError::DateOutOfRange`].
    DateOutOfRange,
    /// See [`ParseError::UnknownClassificationCode`].
    UnknownClassificationCode,
}

impl View for ParseError {
    type V = ParseFailure;

    open spec fn view(&self) -> ParseFailure {
        match self {
            ParseError::ChecksumMismatch => ParseFailure::ChecksumMismatch,
            ParseError::LineNumberMismatch => ParseFailure::LineNumberMismatch,
            ParseError::FieldDecodeError(field, raw) => ParseFailure::FieldDecodeError(
                *field,
                raw@,
            ),
            ParseError::DateOutOfRange => ParseFailure::DateOutOfRange,
            ParseError::UnknownClassificationCode => ParseFailure::UnknownClassificationCode,
        }
    }
}

impl ParseError {
    /// The sentence that describes a failure of each kind.
    pub open spec fn spec_message(failure: ParseFailure) -> Seq<char> {
        match failure {
            ParseFailure::ChecksumMismatch => "Invalid checksum"@,
            ParseFailure::LineNumberMismatch => "Line number is incorrect"@,
            ParseFailure::FieldDecodeError(_, _) => "Cannot parse field"@,
            ParseFailure::DateOutOfRange => "Date is out of bounds"@,
            ParseFailure::UnknownClassificationCode => "Invalid class string"@,
        }
    }

    /// A sentence that describes the failure.
    pub fn message(&self) -> (text: String)
        ensures
            text@ == Self::spec_message(self@),
    {
        match self {
            ParseError::ChecksumMismatch => String::from_str("Invalid checksum"),
            ParseError::LineNumberMismatch => String::from_str("Line number is incorrect"),
            ParseError::FieldDecodeError(_, _) => String::from_str("Cannot parse field"),
            ParseError::DateOutOfRange => String::from_str("Date is out of bounds"),
            ParseError::UnknownClassificationCode => String::from_str("Invalid class string"),
        }
    }
}

} // verus!
