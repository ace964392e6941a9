//! Errors converting between a slot's physical value and its signal.

use vstd::prelude::*;

verus! {

/// Errors returned when converting between a slot and its value.
#[derive(Debug, Clone, Copy, PartialEq, Eq, Structural)]
pub enum SlotError {
    /// Value cannot be represented by the signal's base type.
    FloatConversion,
    /// Signal parameter does not contain a valid value.
    InvalidParameter,
    /// The raw value lies outside every range of the signal.
    Signal,
}

} // verus!
