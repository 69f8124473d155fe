//! Decoding of two-line orbital element records, and the integer side of
//! turning them into timed observations.
//!
//! Every quantity that a record gives as decimal text is kept exactly, as
//! an integer mantissa and a power of ten, so that each decoder can say in
//! its contract precisely which number it read. Points in time are days
//! of the calendar and seconds of the day, and Julian dates are whole
//! milliseconds. Trigonometry, rotations and the propagation itself work
//! on binary floating point and are left to the code that uses this
//! crate.
//!
//! - [`text`] reads numbers out of columns of text, and [`decimal`] holds
//!   them.
//! - [`fields`] decodes the single fields of a record and [`tle`] the
//!   record as a whole; [`catalog`] reads one record after the other.
//!   [`error`] says why a record was refused.
//! - [`epoch`] and [`time`] know the calendar, Julian dates and leap
//!   seconds.
//! - [`sgp4`] is the vocabulary shared with the propagator, and
//!   [`observation`] the steps from elements to an observation.
//! - [`geometry`] and [`sun`] name what the floating-point side builds
//!   on.

pub mod catalog;
pub mod decimal;
pub mod epoch;
pub mod error;
pub mod fields;
pub mod geometry;
pub mod observation;
pub mod sgp4;
pub mod sun;
pub mod text;
pub mod time;
pub mod tle;
