//! Recognition of NUCC binary file kinds by path, and dispatch of their codecs.

pub mod endian;
pub mod error;
pub mod pattern;
pub mod binary_type;
pub mod detect;
pub mod parsed;
pub mod converter;

pub use crate::endian::Endian;
pub use crate::error::{DecodeError, PatternError};
pub use crate::binary_type::NuccBinaryType;
pub use crate::detect::Catalogue;
pub use crate::parsed::{Codecs, NuccBinaryParsed};
pub use crate::converter::{to_bytes, to_value, ParsedBinary};
