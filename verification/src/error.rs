//! The errors this crate returns to its callers.

use vstd::prelude::*;

use crate::animation::AnimationParseError;

verus! {

/// Types of error
#[derive(Debug)]
pub enum DisplayError {
    /// The provided dimensions do not match or exceed the dimensions of the display.
    InvalidDim,
    /// A blink whose on-duration exceeds its period.
    BlinkInvariantViolation,
    /// GPIO error returned by rppal.
    Gpio(rppal::gpio::Error),
    /// A necessary variable is not initiated.
    Uninitiated,
    /// The given file could not be found.
    FileNotFound,
    /// The animation could not be parsed from string.
    ParseError(AnimationParseError),
}

/// Result used by functions in this crate.
pub type DisplayResult<T> = Result<T, DisplayError>;

} // verus!
