//! Byte order of the multi-byte fields of a binary file.

use vstd::prelude::*;

verus! {

/// The byte order in which a file stores its multi-byte numbers.
#[derive(Clone, Copy, Debug, PartialEq, Eq, Structural)]
pub enum Endian {
    /// Least significant byte first.
    Little,
    /// Most significant byte first.
    Big,
}

impl Endian {
    /// Whether this is the little-endian order.
    pub fn is_le(self) -> (b: bool)
        ensures
            b == (self == Endian::Little),
    {
        match self {
            Endian::Little => true,
            Endian::Big => false,
        }
    }

    /// Whether this is the big-endian order.
    pub fn is_be(self) -> (b: bool)
        ensures
            b == (self == Endian::Big),
    {
        match self {
            Endian::Little => false,
            Endian::Big => true,
        }
    }
}

} // verus!
