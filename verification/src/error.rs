//! The ways in which a request can be refused.

use vstd::prelude::*;

verus! {

/// Why an operation produced no value. None of these is a transient
/// condition: each says that the request itself was wrong.
#[derive(Clone, Copy, Debug, PartialEq, Eq, Structural)]
pub enum DecimalError {
    /// More than 31 decimal places were asked for.
    UnsupportedPrecision,
    /// The two operands carry different numbers of decimal places.
    PrecisionMismatch,
    /// The value to take away is larger than the value to take it from.
    Underflow,
    /// The divisor is zero.
    DivisionByZero,
    /// The precision that a value carries is not the one of the type asked
    /// for.
    RepresentationMismatch,
}

} // verus!
