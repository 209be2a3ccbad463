//! The errors that the library reports.

use vstd::prelude::*;

verus! {

/// Why bytes could not be decoded.
#[derive(Clone, Copy, Debug, PartialEq, Eq, Structural)]
pub enum DecodeError {
    /// The bytes do not have the structure that the kind and the output mode
    /// call for: they are cut short, hold a number outside its field's range,
    /// or are no well-formed text.
    MalformedInput,
}

/// A pattern text of the catalogue that could not be compiled. The catalogue
/// is fixed, so this reports a defect of the catalogue, not of any input.
#[derive(Clone, Copy, Debug, PartialEq, Eq)]
pub struct PatternError {
    /// The pattern text that was refused.
    pub pattern: &'static str,
}

} // verus!
