//! What can go wrong during a detection pass.

use vstd::prelude::*;

verus! {

/// Why a detection pass was given up. None of these is the ordinary "no
/// opportunity": each tells of a fault in what the feeds delivered.
#[derive(Clone, Copy, Debug, PartialEq, Eq, Structural)]
pub enum DetectionError {
    /// The oracle's exponent is beyond the 28 decimal places that a decimal holds.
    ExponentOutOfRange,
    /// The oracle's confidence does not fit a signed 64-bit integer.
    ConfidenceOutOfRange,
    /// A price or a quantity of the exchange quote is no decimal number.
    MalformedQuote,
    /// A sum, a difference or a product left the range of decimals.
    Overflow,
}

} // verus!
