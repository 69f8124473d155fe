//! The conventions that rotations are built under, and how a change of
//! frame fails.

use vstd::prelude::*;
use vstd::string::StringExecFns;

verus! {

/// The order of the axes that three angles turn about, one after the
/// other, to make up a rotation.
#[derive(Clone, Copy, Debug, PartialEq, Eq, Structural)]
pub enum RotationAxis {
    /// About the third axis, the second, and the third again.
    ZYZ,
    /// About the third axis, the second, and the first.
    ZYX,
    /// About the first axis, the third, and the first again.
    XZX,
}

/// Why a conversion between frames failed.
#[derive(Clone, Copy, Debug, PartialEq, Eq, Structural)]
pub enum FrameError {
    /// The matrix of the conversion has a determinant of zero, or so near
    /// zero that it cannot be inverted.
    NonInvertibleMatrix,
}

impl FrameError {
    /// A sentence that describes the failure.
    pub fn message(&self) -> (text: String)
        ensures
            text@ == "Matrix cannot be inverted"@,
    {
        String::from_str("Matrix cannot be inverted")
    }
}

} // verus!
