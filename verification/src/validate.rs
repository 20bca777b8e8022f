//! The validation capability every datatype implements.

use vstd::prelude::*;
use crate::error::Error;

verus! {

/// Test raw text against a datatype's format rule.
///
/// Validation is side-effect-free: each implementation's contract pins the
/// outcome as a function of the text alone, so calling it twice on the same
/// input returns the same result.  A failure is always an ordinary
/// [`Error`] value, never an unrecoverable fault.
pub trait Validate {
    fn validate(value: &str) -> Result<(), Error>;
}

} // verus!
