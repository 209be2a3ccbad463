//! What the library asks of the codec of a kind, and what it can say of one.
//!
//! A codec is the type of the decoded contents of one kind of file: it is
//! read from bytes, writes itself as bytes, and names its file extension. The
//! layouts are not this library's business. The codecs come from outside, one
//! for every kind, and nothing is known of what their operations return; the
//! library states of its own operations which codec was asked, with which
//! arguments, and that the answer was handed on as it came.

use vstd::prelude::*;
use crate::endian::Endian;
use crate::error::DecodeError;

verus! {

/// The decoded contents of one kind of file.
///
/// `textual` chooses between the packed binary form (`false`) and the form
/// meant to be edited by hand (`true`). It changes how the field values are
/// written, never what they are. `endian` is the byte order of every
/// multi-byte number in the binary form.
pub trait NuccBinaryParsed: Sized {
    /// The file extension for an output mode. It is asked of the codec, not of
    /// a value, so it cannot depend on the contents of any file.
    fn extension(textual: bool) -> String;

    /// Writes the field values as bytes.
    fn encode(&self, endian: Endian, textual: bool) -> Vec<u8>;

    /// Reads field values from bytes written in the same output mode and byte
    /// order. Fails where the bytes are malformed.
    fn decode(bytes: &[u8], endian: Endian, textual: bool) -> Result<Self, DecodeError>;
}

/// One codec for every kind of the catalogue.
pub trait Codecs {
    type CharaCode: NuccBinaryParsed;

    type DDS: NuccBinaryParsed;

    type Ev: NuccBinaryParsed;

    type FCV: NuccBinaryParsed;

    type LUA: NuccBinaryParsed;

    type MessageInfo: NuccBinaryParsed;

    type PlayerColorParam: NuccBinaryParsed;

    type PNG: NuccBinaryParsed;

    type PrmLoad: NuccBinaryParsed;

    type SoundTestParam: NuccBinaryParsed;

    type StageInfo: NuccBinaryParsed;

    type XML: NuccBinaryParsed;
}

/// `outcome` is an answer of the codec `T` to the request to decode `bytes`
/// in the byte order `endian` and the output mode `textual`.
pub open spec fn decoded_by<T: NuccBinaryParsed>(
    bytes: &[u8],
    endian: Endian,
    textual: bool,
    outcome: Result<T, DecodeError>,
) -> bool {
    call_ensures(T::decode, (bytes, endian, textual), outcome)
}

/// `bytes` is an answer of the codec `T` to the request to encode `contents`
/// in the byte order `endian` and the output mode `textual`.
pub open spec fn encoded_by<T: NuccBinaryParsed>(
    contents: &T,
    endian: Endian,
    textual: bool,
    bytes: Vec<u8>,
) -> bool {
    call_ensures(T::encode, (contents, endian, textual), bytes)
}

/// `extension` is an answer of the codec `T` to the request for its file
/// extension in the output mode `textual`.
pub open spec fn extension_by<T: NuccBinaryParsed>(textual: bool, extension: String) -> bool {
    call_ensures(T::extension, (textual,), extension)
}

} // verus!
