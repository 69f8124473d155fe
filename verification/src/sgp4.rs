//! The vocabulary shared with the orbit propagator: how it is configured
//! and how it reports failure.

use vstd::prelude::*;
use vstd::string::StringExecFns;
use crate::text::append_integer;
use crate::text::integer_digits;

verus! {

/// Why the propagator refused a set of elements or a point in time.
#[derive(Clone, Copy, Debug, PartialEq, Eq, Structural)]
pub enum SGP4Error {
    /// Mean elements out of range: eccentricity not in `[-0.001, 1.0)` or
    /// semi-major axis below 0.95 Earth radii.
    MeanElements,
    /// Mean motion below zero.
    MeanMotion,
    /// Perturbed eccentricity outside `[0.0, 1.0]`.
    PertElements,
    /// Semi-latus rectum below zero.
    SemiLatus,
    /// The elements at epoch describe a sub-orbital object.
    Epoch,
    /// The satellite has decayed.
    Decayed,
    /// A status code that has no meaning assigned.
    UnknownError(i32),
}

impl SGP4Error {
    /// The failure that a propagator status code stands for.
    pub open spec fn spec_from_code(code: i32) -> SGP4Error {
        if code == 1 {
            SGP4Error::MeanElements
        } else if code == 2 {
            SGP4Error::MeanMotion
        } else if code == 3 {
            SGP4Error::PertElements
        } else if code == 4 {
            SGP4Error::SemiLatus
        } else if code == 5 {
            SGP4Error::Epoch
        } else if code == 6 {
            SGP4Error::Decayed
        } else {
            SGP4Error::UnknownError(code)
        }
    }

    /// The status code that a failure is reported under. For an unknown
    /// failure this is the code it was built from.
    pub open spec fn spec_code(&self) -> i32 {
        match self {
            SGP4Error::MeanElements => 1,
            SGP4Error::MeanMotion => 2,
            SGP4Error::PertElements => 3,
            SGP4Error::SemiLatus => 4,
            SGP4Error::Epoch => 5,
            SGP4Error::Decayed => 6,
            SGP4Error::UnknownError(code) => *code,
        }
    }

    /// Maps a propagator status code to the failure it stands for.
    #[verifier::when_used_as_spec(spec_from_code)]
    pub fn from_code(code: i32) -> (error: SGP4Error)
        ensures
            error == Self::spec_from_code(code),
            error.spec_code() == code,
    {
        match code {
            1 => SGP4Error::MeanElements,
            2 => SGP4Error::MeanMotion,
            3 => SGP4Error::PertElements,
            4 => SGP4Error::SemiLatus,
            5 => SGP4Error::Epoch,
            6 => SGP4Error::Decayed,
            _ => SGP4Error::UnknownError(code),
        }
    }

    /// The words that describe this failure.
    pub open spec fn spec_description(&self) -> Seq<char> {
        match self {
            SGP4Error::MeanElements => "Mean elements error"@,
            SGP4Error::MeanMotion => "Mean motion error"@,
            SGP4Error::PertElements => "Pert elements error"@,
            SGP4Error::SemiLatus => "Semi Latus error"@,
            SGP4Error::Epoch => "Epoch error"@,
            SGP4Error::Decayed => "Decayed error"@,
            SGP4Error::UnknownError(code) => "Unknown error "@ + integer_digits(*code as int),
        }
    }

    /// Describes this failure in words. An unknown failure is described
    /// with its status code.
    pub fn description(&self) -> (text: String)
        ensures
            text@ == self.spec_description(),
    {
        match self {
            SGP4Error::MeanElements => String::from_str("Mean elements error"),
            SGP4Error::MeanMotion => String::from_str("Mean motion error"),
            SGP4Error::PertElements => String::from_str("Pert elements error"),
            SGP4Error::SemiLatus => String::from_str("Semi Latus error"),
            SGP4Error::Epoch => String::from_str("Epoch error"),
            SGP4Error::Decayed => String::from_str("Decayed error"),
            SGP4Error::UnknownError(code) => {
                let mut text = String::from_str("Unknown error ");
                append_integer(&mut text, *code);
                text
            },
        }
    }

    /// The status code of this failure.
    #[verifier::when_used_as_spec(spec_code)]
    pub fn code(&self) -> (code: i32)
        ensures
            code == self.spec_code(),
    {
        match self {
            SGP4Error::MeanElements => 1,
            SGP4Error::MeanMotion => 2,
            SGP4Error::PertElements => 3,
            SGP4Error::SemiLatus => 4,
            SGP4Error::Epoch => 5,
            SGP4Error::Decayed => 6,
            SGP4Error::UnknownError(code) => *code,
        }
    }
}

/// What a call of the propagator amounts to, by the status it returns
/// and the error code it leaves behind.
pub open spec fn spec_outcome(status: i32, code: i32) -> Result<(), SGP4Error> {
    if status == 0 {
        Err(SGP4Error::spec_from_code(code))
    } else {
        Ok(())
    }
}

/// Says how a call of the propagator went. The propagator returns a
/// status of zero where it failed, and has then left an error code behind;
/// any other status is success, whatever the code.
pub fn outcome(status: i32, code: i32) -> (result: Result<(), SGP4Error>)
    ensures
        result == spec_outcome(status, code),
        status != 0 ==> result is Ok,
        status == 0 ==> result == Err::<(), SGP4Error>(SGP4Error::spec_from_code(code)),
{
    if status == 0 {
        Err(SGP4Error::from_code(code))
    } else {
        Ok(())
    }
}

/// Which variant of the propagation algorithm runs.
#[derive(Clone, Copy, Debug, PartialEq, Eq, Structural)]
pub enum OpsMode {
    /// The Air Force Space Command version of the algorithm.
    Afspc,
    /// The same algorithm with performance improvements.
    Improved,
}

impl OpsMode {
    /// The letter the propagator knows the mode by.
    pub open spec fn spec_to_char(&self) -> char {
        match self {
            OpsMode::Afspc => 'a',
            OpsMode::Improved => 'i',
        }
    }

    /// The letter the propagator knows the mode by: `'a'` or `'i'`.
    #[verifier::when_used_as_spec(spec_to_char)]
    pub fn to_char(&self) -> (letter: char)
        ensures
            letter == self.spec_to_char(),
    {
        match self {
            OpsMode::Afspc => 'a',
            OpsMode::Improved => 'i',
        }
    }
}

/// Which set of gravitational constants the propagator uses. The 1984 set
/// is the more precise one, but elements should be propagated with the set
/// they were generated with, which is usually that of 1972.
#[derive(Clone, Copy, Debug, PartialEq, Eq, Structural)]
pub enum ConstantsSet {
    /// The constants of WGS 72.
    Set72,
    /// The constants of WGS 84.
    Set84,
}

impl ConstantsSet {
    /// The two-digit year the propagator knows the set by.
    pub open spec fn spec_to_int(&self) -> i32 {
        match self {
            ConstantsSet::Set72 => 72,
            ConstantsSet::Set84 => 84,
        }
    }

    /// The two-digit year the propagator knows the set by: 72 or 84.
    #[verifier::when_used_as_spec(spec_to_int)]
    pub fn to_int(&self) -> (year: i32)
        ensures
            year == self.spec_to_int(),
    {
        match self {
            ConstantsSet::Set72 => 72,
            ConstantsSet::Set84 => 84,
        }
    }
}

} // verus!
