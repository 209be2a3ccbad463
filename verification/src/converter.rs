//! Decoded files of any kind behind one type, and the two conversions
//! between such a value and bytes.

use vstd::prelude::*;
use crate::binary_type::NuccBinaryType;
use crate::endian::Endian;
use crate::error::DecodeError;
use crate::parsed::{decoded_by, encoded_by, extension_by, Codecs, NuccBinaryParsed};

verus! {

/// The decoded contents of a file of any kind: one variant for each kind,
/// holding the contents as that kind's codec and, where the kind carries a
/// byte order, the order in which the file was read and will be written.
pub enum ParsedBinary<C: Codecs> {
    CharaCode(Endian, C::CharaCode),
    DDS(C::DDS),
    Ev(Endian, C::Ev),
    FCV(C::FCV),
    LUA(C::LUA),
    MessageInfo(Endian, C::MessageInfo),
    PlayerColorParam(Endian, C::PlayerColorParam),
    PNG(C::PNG),
    PrmLoad(Endian, C::PrmLoad),
    SoundTestParam(Endian, C::SoundTestParam),
    StageInfo(Endian, C::StageInfo),
    XML(C::XML),
}

impl<C: Codecs> ParsedBinary<C> {
    /// The kind of these contents, with their byte order.
    pub open spec fn spec_binary_type(&self) -> NuccBinaryType {
        match self {
            ParsedBinary::CharaCode(order, _) => NuccBinaryType::CharaCode(*order),
            ParsedBinary::DDS(_) => NuccBinaryType::DDS,
            ParsedBinary::Ev(order, _) => NuccBinaryType::Ev(*order),
            ParsedBinary::FCV(_) => NuccBinaryType::FCV,
            ParsedBinary::LUA(_) => NuccBinaryType::LUA,
            ParsedBinary::MessageInfo(order, _) => NuccBinaryType::MessageInfo(*order),
            ParsedBinary::PlayerColorParam(order, _) => NuccBinaryType::PlayerColorParam(*order),
            ParsedBinary::PNG(_) => NuccBinaryType::PNG,
            ParsedBinary::PrmLoad(order, _) => NuccBinaryType::PrmLoad(*order),
            ParsedBinary::SoundTestParam(order, _) => NuccBinaryType::SoundTestParam(*order),
            ParsedBinary::StageInfo(order, _) => NuccBinaryType::StageInfo(*order),
            ParsedBinary::XML(_) => NuccBinaryType::XML,
        }
    }

    /// The kind of these contents, with their byte order. It is the kind that
    /// they were decoded as.
    pub fn binary_type(&self) -> (kind: NuccBinaryType)
        ensures
            kind == self.spec_binary_type(),
    {
        match self {
            ParsedBinary::CharaCode(order, _) => NuccBinaryType::CharaCode(*order),
            ParsedBinary::DDS(_) => NuccBinaryType::DDS,
            ParsedBinary::Ev(order, _) => NuccBinaryType::Ev(*order),
            ParsedBinary::FCV(_) => NuccBinaryType::FCV,
            ParsedBinary::LUA(_) => NuccBinaryType::LUA,
            ParsedBinary::MessageInfo(order, _) => NuccBinaryType::MessageInfo(*order),
            ParsedBinary::PlayerColorParam(order, _) => NuccBinaryType::PlayerColorParam(*order),
            ParsedBinary::PNG(_) => NuccBinaryType::PNG,
            ParsedBinary::PrmLoad(order, _) => NuccBinaryType::PrmLoad(*order),
            ParsedBinary::SoundTestParam(order, _) => NuccBinaryType::SoundTestParam(*order),
            ParsedBinary::StageInfo(order, _) => NuccBinaryType::StageInfo(*order),
            ParsedBinary::XML(_) => NuccBinaryType::XML,
        }
    }

    /// The file extension of these contents for an output mode: what the
    /// codec of their kind gives for that mode.
    pub fn extension(&self, textual: bool) -> (extension: String)
        ensures
            kind_extension::<C>(self.spec_binary_type(), textual, extension),
    {
        match self {
            ParsedBinary::CharaCode(_, _) => C::CharaCode::extension(textual),
            ParsedBinary::DDS(_) => C::DDS::extension(textual),
            ParsedBinary::Ev(_, _) => C::Ev::extension(textual),
            ParsedBinary::FCV(_) => C::FCV::extension(textual),
            ParsedBinary::LUA(_) => C::LUA::extension(textual),
            ParsedBinary::MessageInfo(_, _) => C::MessageInfo::extension(textual),
            ParsedBinary::PlayerColorParam(_, _) => C::PlayerColorParam::extension(textual),
            ParsedBinary::PNG(_) => C::PNG::extension(textual),
            ParsedBinary::PrmLoad(_, _) => C::PrmLoad::extension(textual),
            ParsedBinary::SoundTestParam(_, _) => C::SoundTestParam::extension(textual),
            ParsedBinary::StageInfo(_, _) => C::StageInfo::extension(textual),
            ParsedBinary::XML(_) => C::XML::extension(textual),
        }
    }
}

/// `extension` is an answer of the codec of `kind` to the request for its
/// file extension in the output mode `textual`.
pub open spec fn kind_extension<C: Codecs>(
    kind: NuccBinaryType,
    textual: bool,
    extension: String,
) -> bool {
    match kind {
        NuccBinaryType::CharaCode(_) => extension_by::<C::CharaCode>(textual, extension),
        NuccBinaryType::DDS => extension_by::<C::DDS>(textual, extension),
        NuccBinaryType::Ev(_) => extension_by::<C::Ev>(textual, extension),
        NuccBinaryType::FCV => extension_by::<C::FCV>(textual, extension),
        NuccBinaryType::LUA => extension_by::<C::LUA>(textual, extension),
        NuccBinaryType::MessageInfo(_) => extension_by::<C::MessageInfo>(textual, extension),
        NuccBinaryType::PlayerColorParam(_) => extension_by::<C::PlayerColorParam>(textual, extension),
        NuccBinaryType::PNG => extension_by::<C::PNG>(textual, extension),
        NuccBinaryType::PrmLoad(_) => extension_by::<C::PrmLoad>(textual, extension),
        NuccBinaryType::SoundTestParam(_) => extension_by::<C::SoundTestParam>(textual, extension),
        NuccBinaryType::StageInfo(_) => extension_by::<C::StageInfo>(textual, extension),
        NuccBinaryType::XML => extension_by::<C::XML>(textual, extension),
    }
}

/// `value` is what the codec of `kind` answered to the request to decode
/// `bytes` in the byte order of `kind` (little-endian where the kind carries
/// none), handed on as it came: its contents under the variant of `kind` with
/// that byte order, or its error.
pub open spec fn spec_to_value<C: Codecs>(
    kind: NuccBinaryType,
    textual: bool,
    bytes: &[u8],
    value: Result<ParsedBinary<C>, DecodeError>,
) -> bool {
    let order = kind.spec_decode_order();
    match kind {
        NuccBinaryType::CharaCode(_) => match value {
            Ok(ParsedBinary::CharaCode(held, contents)) => held == order && decoded_by::<C::CharaCode>(
                bytes,
                order,
                textual,
                Ok(contents),
            ),
            Ok(_) => false,
            Err(error) => decoded_by::<C::CharaCode>(bytes, order, textual, Err(error)),
        },
        NuccBinaryType::DDS => match value {
            Ok(ParsedBinary::DDS(contents)) => decoded_by::<C::DDS>(
                bytes,
                order,
                textual,
                Ok(contents),
            ),
            Ok(_) => false,
            Err(error) => decoded_by::<C::DDS>(bytes, order, textual, Err(error)),
        },
        NuccBinaryType::Ev(_) => match value {
            Ok(ParsedBinary::Ev(held, contents)) => held == order && decoded_by::<C::Ev>(
                bytes,
                order,
                textual,
                Ok(contents),
            ),
            Ok(_) => false,
            Err(error) => decoded_by::<C::Ev>(bytes, order, textual, Err(error)),
        },
        NuccBinaryType::FCV => match value {
            Ok(ParsedBinary::FCV(contents)) => decoded_by::<C::FCV>(
                bytes,
                order,
                textual,
                Ok(contents),
            ),
            Ok(_) => false,
            Err(error) => decoded_by::<C::FCV>(bytes, order, textual, Err(error)),
        },
        NuccBinaryType::LUA => match value {
            Ok(ParsedBinary::LUA(contents)) => decoded_by::<C::LUA>(
                bytes,
                order,
                textual,
                Ok(contents),
            ),
            Ok(_) => false,
            Err(error) => decoded_by::<C::LUA>(bytes, order, textual, Err(error)),
        },
        NuccBinaryType::MessageInfo(_) => match value {
            Ok(ParsedBinary::MessageInfo(held, contents)) => held == order && decoded_by::<C::MessageInfo>(
                bytes,
                order,
                textual,
                Ok(contents),
            ),
            Ok(_) => false,
            Err(error) => decoded_by::<C::MessageInfo>(bytes, order, textual, Err(error)),
        },
        NuccBinaryType::PlayerColorParam(_) => match value {
            Ok(ParsedBinary::PlayerColorParam(held, contents)) => held == order && decoded_by::<C::PlayerColorParam>(
                bytes,
                order,
                textual,
                Ok(contents),
            ),
            Ok(_) => false,
            Err(error) => decoded_by::<C::PlayerColorParam>(bytes, order, textual, Err(error)),
        },
        NuccBinaryType::PNG => match value {
            Ok(ParsedBinary::PNG(contents)) => decoded_by::<C::PNG>(
                bytes,
                order,
                textual,
                Ok(contents),
            ),
            Ok(_) => false,
            Err(error) => decoded_by::<C::PNG>(bytes, order, textual, Err(error)),
        },
        NuccBinaryType::PrmLoad(_) => match value {
            Ok(ParsedBinary::PrmLoad(held, contents)) => held == order && decoded_by::<C::PrmLoad>(
                bytes,
                order,
                textual,
                Ok(contents),
            ),
            Ok(_) => false,
            Err(error) => decoded_by::<C::PrmLoad>(bytes, order, textual, Err(error)),
        },
        NuccBinaryType::SoundTestParam(_) => match value {
            Ok(ParsedBinary::SoundTestParam(held, contents)) => held == order && decoded_by::<C::SoundTestParam>(
                bytes,
                order,
                textual,
                Ok(contents),
            ),
            Ok(_) => false,
            Err(error) => decoded_by::<C::SoundTestParam>(bytes, order, textual, Err(error)),
        },
        NuccBinaryType::StageInfo(_) => match value {
            Ok(ParsedBinary::StageInfo(held, contents)) => held == order && decoded_by::<C::StageInfo>(
                bytes,
                order,
                textual,
                Ok(contents),
            ),
            Ok(_) => false,
            Err(error) => decoded_by::<C::StageInfo>(bytes, order, textual, Err(error)),
        },
        NuccBinaryType::XML => match value {
            Ok(ParsedBinary::XML(contents)) => decoded_by::<C::XML>(
                bytes,
                order,
                textual,
                Ok(contents),
            ),
            Ok(_) => false,
            Err(error) => decoded_by::<C::XML>(bytes, order, textual, Err(error)),
        },
    }
}

/// `bytes` is what the codec of the kind of `value` answered to the request
/// to encode its contents in the byte order that `value` carries
/// (little-endian where its kind carries none).
pub open spec fn spec_to_bytes<C: Codecs>(
    value: &ParsedBinary<C>,
    textual: bool,
    bytes: Vec<u8>,
) -> bool {
    let order = value.spec_binary_type().spec_decode_order();
    match value {
        ParsedBinary::CharaCode(_, contents) => encoded_by::<C::CharaCode>(contents, order, textual, bytes),
        ParsedBinary::DDS(contents) => encoded_by::<C::DDS>(contents, order, textual, bytes),
        ParsedBinary::Ev(_, contents) => encoded_by::<C::Ev>(contents, order, textual, bytes),
        ParsedBinary::FCV(contents) => encoded_by::<C::FCV>(contents, order, textual, bytes),
        ParsedBinary::LUA(contents) => encoded_by::<C::LUA>(contents, order, textual, bytes),
        ParsedBinary::MessageInfo(_, contents) => encoded_by::<C::MessageInfo>(contents, order, textual, bytes),
        ParsedBinary::PlayerColorParam(_, contents) => encoded_by::<C::PlayerColorParam>(contents, order, textual, bytes),
        ParsedBinary::PNG(contents) => encoded_by::<C::PNG>(contents, order, textual, bytes),
        ParsedBinary::PrmLoad(_, contents) => encoded_by::<C::PrmLoad>(contents, order, textual, bytes),
        ParsedBinary::SoundTestParam(_, contents) => encoded_by::<C::SoundTestParam>(contents, order, textual, bytes),
        ParsedBinary::StageInfo(_, contents) => encoded_by::<C::StageInfo>(contents, order, textual, bytes),
        ParsedBinary::XML(contents) => encoded_by::<C::XML>(contents, order, textual, bytes),
    }
}

/// Decodes `bytes` as a file of `kind` with the codec of that kind. The
/// contents remember `kind`: its variant and its byte order.
///
/// Whether the bytes are accepted is the codec's decision; its error is
/// returned as it came.
pub fn to_value<C: Codecs>(kind: NuccBinaryType, textual: bool, bytes: &[u8]) -> (value: Result<
    ParsedBinary<C>,
    DecodeError,
>)
    ensures
        spec_to_value::<C>(kind, textual, bytes, value),
        value matches Ok(contents) ==> contents.spec_binary_type() == kind,
{
    let order = kind.decode_order();
    match kind {
        NuccBinaryType::CharaCode(_) => match C::CharaCode::decode(bytes, order, textual) {
            Ok(contents) => Ok(ParsedBinary::CharaCode(order, contents)),
            Err(error) => Err(error),
        },
        NuccBinaryType::DDS => match C::DDS::decode(bytes, order, textual) {
            Ok(contents) => Ok(ParsedBinary::DDS(contents)),
            Err(error) => Err(error),
        },
        NuccBinaryType::Ev(_) => match C::Ev::decode(bytes, order, textual) {
            Ok(contents) => Ok(ParsedBinary::Ev(order, contents)),
            Err(error) => Err(error),
        },
        NuccBinaryType::FCV => match C::FCV::decode(bytes, order, textual) {
            Ok(contents) => Ok(ParsedBinary::FCV(contents)),
            Err(error) => Err(error),
        },
        NuccBinaryType::LUA => match C::LUA::decode(bytes, order, textual) {
            Ok(contents) => Ok(ParsedBinary::LUA(contents)),
            Err(error) => Err(error),
        },
        NuccBinaryType::MessageInfo(_) => match C::MessageInfo::decode(bytes, order, textual) {
            Ok(contents) => Ok(ParsedBinary::MessageInfo(order, contents)),
            Err(error) => Err(error),
        },
        NuccBinaryType::PlayerColorParam(_) => match C::PlayerColorParam::decode(bytes, order, textual) {
            Ok(contents) => Ok(ParsedBinary::PlayerColorParam(order, contents)),
            Err(error) => Err(error),
        },
        NuccBinaryType::PNG => match C::PNG::decode(bytes, order, textual) {
            Ok(contents) => Ok(ParsedBinary::PNG(contents)),
            Err(error) => Err(error),
        },
        NuccBinaryType::PrmLoad(_) => match C::PrmLoad::decode(bytes, order, textual) {
            Ok(contents) => Ok(ParsedBinary::PrmLoad(order, contents)),
            Err(error) => Err(error),
        },
        NuccBinaryType::SoundTestParam(_) => match C::SoundTestParam::decode(bytes, order, textual) {
            Ok(contents) => Ok(ParsedBinary::SoundTestParam(order, contents)),
            Err(error) => Err(error),
        },
        NuccBinaryType::StageInfo(_) => match C::StageInfo::decode(bytes, order, textual) {
            Ok(contents) => Ok(ParsedBinary::StageInfo(order, contents)),
            Err(error) => Err(error),
        },
        NuccBinaryType::XML => match C::XML::decode(bytes, order, textual) {
            Ok(contents) => Ok(ParsedBinary::XML(contents)),
            Err(error) => Err(error),
        },
    }
}

/// Encodes decoded contents with the codec of their kind, in the byte order
/// that they carry. The output mode is the caller's to choose: the same
/// contents can be written in either.
pub fn to_bytes<C: Codecs>(value: &ParsedBinary<C>, textual: bool) -> (bytes: Vec<u8>)
    ensures
        spec_to_bytes::<C>(value, textual, bytes),
{
    let order = value.binary_type().decode_order();
    match value {
        ParsedBinary::CharaCode(_, contents) => contents.encode(order, textual),
        ParsedBinary::DDS(contents) => contents.encode(order, textual),
        ParsedBinary::Ev(_, contents) => contents.encode(order, textual),
        ParsedBinary::FCV(contents) => contents.encode(order, textual),
        ParsedBinary::LUA(contents) => contents.encode(order, textual),
        ParsedBinary::MessageInfo(_, contents) => contents.encode(order, textual),
        ParsedBinary::PlayerColorParam(_, contents) => contents.encode(order, textual),
        ParsedBinary::PNG(contents) => contents.encode(order, textual),
        ParsedBinary::PrmLoad(_, contents) => contents.encode(order, textual),
        ParsedBinary::SoundTestParam(_, contents) => contents.encode(order, textual),
        ParsedBinary::StageInfo(_, contents) => contents.encode(order, textual),
        ParsedBinary::XML(contents) => contents.encode(order, textual),
    }
}

/// The codec `T` reads back what it writes: whatever bytes it gives for
/// contents in the byte order `endian` and the output mode `textual`,
/// decoding those bytes in the same order and mode gives the same contents
/// and nothing else.
pub open spec fn reads_back<T: NuccBinaryParsed>(endian: Endian, textual: bool) -> bool {
    forall|contents: T, written: Vec<u8>, read: &[u8], outcome: Result<T, DecodeError>|
        #![trigger encoded_by::<T>(&contents, endian, textual, written), decoded_by::<T>(read, endian, textual, outcome)]
        encoded_by::<T>(&contents, endian, textual, written) && read@ == written@ && decoded_by::<T>(
            read,
            endian,
            textual,
            outcome,
        ) ==> outcome == Ok::<T, DecodeError>(contents)
}

/// The codec of `kind` reads back what it writes, in the byte order of
/// `kind` and the output mode `textual`.
pub open spec fn kind_reads_back<C: Codecs>(kind: NuccBinaryType, textual: bool) -> bool {
    let order = kind.spec_decode_order();
    match kind {
        NuccBinaryType::CharaCode(_) => reads_back::<C::CharaCode>(order, textual),
        NuccBinaryType::DDS => reads_back::<C::DDS>(order, textual),
        NuccBinaryType::Ev(_) => reads_back::<C::Ev>(order, textual),
        NuccBinaryType::FCV => reads_back::<C::FCV>(order, textual),
        NuccBinaryType::LUA => reads_back::<C::LUA>(order, textual),
        NuccBinaryType::MessageInfo(_) => reads_back::<C::MessageInfo>(order, textual),
        NuccBinaryType::PlayerColorParam(_) => reads_back::<C::PlayerColorParam>(order, textual),
        NuccBinaryType::PNG => reads_back::<C::PNG>(order, textual),
        NuccBinaryType::PrmLoad(_) => reads_back::<C::PrmLoad>(order, textual),
        NuccBinaryType::SoundTestParam(_) => reads_back::<C::SoundTestParam>(order, textual),
        NuccBinaryType::StageInfo(_) => reads_back::<C::StageInfo>(order, textual),
        NuccBinaryType::XML => reads_back::<C::XML>(order, textual),
    }
}

/// The codec `T` writes contents in one way only: any two answers that it
/// gives for the same contents, byte order and output mode hold the same
/// bytes.
pub open spec fn writes_one_way<T: NuccBinaryParsed>(endian: Endian, textual: bool) -> bool {
    forall|contents: T, first: Vec<u8>, second: Vec<u8>|
        #![trigger encoded_by::<T>(&contents, endian, textual, first), encoded_by::<T>(&contents, endian, textual, second)]
        encoded_by::<T>(&contents, endian, textual, first) && encoded_by::<T>(
            &contents,
            endian,
            textual,
            second,
        ) ==> first@ == second@
}

/// The codec of `kind` writes contents in one way only, in the byte order of
/// `kind` and the output mode `textual`.
pub open spec fn kind_writes_one_way<C: Codecs>(kind: NuccBinaryType, textual: bool) -> bool {
    let order = kind.spec_decode_order();
    match kind {
        NuccBinaryType::CharaCode(_) => writes_one_way::<C::CharaCode>(order, textual),
        NuccBinaryType::DDS => writes_one_way::<C::DDS>(order, textual),
        NuccBinaryType::Ev(_) => writes_one_way::<C::Ev>(order, textual),
        NuccBinaryType::FCV => writes_one_way::<C::FCV>(order, textual),
        NuccBinaryType::LUA => writes_one_way::<C::LUA>(order, textual),
        NuccBinaryType::MessageInfo(_) => writes_one_way::<C::MessageInfo>(order, textual),
        NuccBinaryType::PlayerColorParam(_) => writes_one_way::<C::PlayerColorParam>(order, textual),
        NuccBinaryType::PNG => writes_one_way::<C::PNG>(order, textual),
        NuccBinaryType::PrmLoad(_) => writes_one_way::<C::PrmLoad>(order, textual),
        NuccBinaryType::SoundTestParam(_) => writes_one_way::<C::SoundTestParam>(order, textual),
        NuccBinaryType::StageInfo(_) => writes_one_way::<C::StageInfo>(order, textual),
        NuccBinaryType::XML => writes_one_way::<C::XML>(order, textual),
    }
}

/// The codec `T` names one file extension for an output mode: any two
/// answers that it gives for the mode hold the same text.
pub open spec fn names_one_extension<T: NuccBinaryParsed>(textual: bool) -> bool {
    forall|first: String, second: String|
        #![trigger extension_by::<T>(textual, first), extension_by::<T>(textual, second)]
        extension_by::<T>(textual, first) && extension_by::<T>(textual, second) ==> first@
            == second@
}

/// The codec of `kind` names one file extension for the output mode `textual`.
pub open spec fn kind_names_one_extension<C: Codecs>(kind: NuccBinaryType, textual: bool) -> bool {
    match kind {
        NuccBinaryType::CharaCode(_) => names_one_extension::<C::CharaCode>(textual),
        NuccBinaryType::DDS => names_one_extension::<C::DDS>(textual),
        NuccBinaryType::Ev(_) => names_one_extension::<C::Ev>(textual),
        NuccBinaryType::FCV => names_one_extension::<C::FCV>(textual),
        NuccBinaryType::LUA => names_one_extension::<C::LUA>(textual),
        NuccBinaryType::MessageInfo(_) => names_one_extension::<C::MessageInfo>(textual),
        NuccBinaryType::PlayerColorParam(_) => names_one_extension::<C::PlayerColorParam>(textual),
        NuccBinaryType::PNG => names_one_extension::<C::PNG>(textual),
        NuccBinaryType::PrmLoad(_) => names_one_extension::<C::PrmLoad>(textual),
        NuccBinaryType::SoundTestParam(_) => names_one_extension::<C::SoundTestParam>(textual),
        NuccBinaryType::StageInfo(_) => names_one_extension::<C::StageInfo>(textual),
        NuccBinaryType::XML => names_one_extension::<C::XML>(textual),
    }
}

/// What decoding returns is of the kind that was asked for, byte order
/// included; so encoding it again asks the codec of that same kind.
pub proof fn lemma_value_keeps_kind<C: Codecs>(
    kind: NuccBinaryType,
    textual: bool,
    bytes: &[u8],
    value: ParsedBinary<C>,
)
    requires
        spec_to_value::<C>(kind, textual, bytes, Ok(value)),
    ensures
        value.spec_binary_type() == kind,
{
}

/// The file extension is a matter of the kind and the output mode alone: the
/// byte order that a value carries plays no part in it, and the contents
/// cannot, for the codec is not shown them.
pub proof fn lemma_extension_by_kind<C: Codecs>(
    a: NuccBinaryType,
    b: NuccBinaryType,
    textual: bool,
    extension: String,
)
    requires
        a.same_kind(b),
    ensures
        kind_extension::<C>(a, textual, extension) == kind_extension::<C>(b, textual, extension),
{
}

/// The conversions keep what the codec keeps. Where the codec of a value's
/// kind reads back what it writes, the bytes that `to_bytes` gives for the
/// value, handed to `to_value` with the value's kind and the same output
/// mode, give that value again.
pub proof fn lemma_round_trip<C: Codecs>(
    value: ParsedBinary<C>,
    textual: bool,
    written: Vec<u8>,
    read: &[u8],
    again: Result<ParsedBinary<C>, DecodeError>,
)
    requires
        kind_reads_back::<C>(value.spec_binary_type(), textual),
        spec_to_bytes::<C>(&value, textual, written),
        read@ == written@,
        spec_to_value::<C>(value.spec_binary_type(), textual, read, again),
    ensures
        again == Ok::<ParsedBinary<C>, DecodeError>(value),
{
}

/// Bytes that were written by a codec come back unchanged. Where the codec
/// of `kind` reads back what it writes and writes in one way only, and
/// `canonical` is what `to_bytes` gave for some contents of `kind`, then
/// decoding those bytes as `kind` succeeds, and encoding the result gives the
/// same bytes again.
pub proof fn lemma_canonical_bytes<C: Codecs>(
    source: ParsedBinary<C>,
    textual: bool,
    canonical: Vec<u8>,
    read: &[u8],
    value: Result<ParsedBinary<C>, DecodeError>,
    rewritten: Vec<u8>,
)
    requires
        kind_reads_back::<C>(source.spec_binary_type(), textual),
        kind_writes_one_way::<C>(source.spec_binary_type(), textual),
        spec_to_bytes::<C>(&source, textual, canonical),
        read@ == canonical@,
        spec_to_value::<C>(source.spec_binary_type(), textual, read, value),
        value is Ok ==> spec_to_bytes::<C>(&value->Ok_0, textual, rewritten),
    ensures
        value is Ok,
        rewritten@ == read@,
{
    lemma_round_trip::<C>(source, textual, canonical, read, value);
}

/// Two values of the same kind have the same file extension in an output
/// mode, whatever their contents and byte orders, where the codec of their
/// kind names one extension for that mode.
pub proof fn lemma_same_extension<C: Codecs>(
    a: ParsedBinary<C>,
    b: ParsedBinary<C>,
    textual: bool,
    of_a: String,
    of_b: String,
)
    requires
        a.spec_binary_type().same_kind(b.spec_binary_type()),
        kind_names_one_extension::<C>(a.spec_binary_type(), textual),
        kind_extension::<C>(a.spec_binary_type(), textual, of_a),
        kind_extension::<C>(b.spec_binary_type(), textual, of_b),
    ensures
        of_a@ == of_b@,
{
}

/// A refusal is handed on as it came and nothing is made in its place: where
/// `to_value` fails, the codec of `kind` refused the bytes, the error is
/// `MalformedInput`, and there is no value.
pub proof fn lemma_refusal_handed_on<C: Codecs>(
    kind: NuccBinaryType,
    textual: bool,
    bytes: &[u8],
    value: Result<ParsedBinary<C>, DecodeError>,
)
    requires
        spec_to_value::<C>(kind, textual, bytes, value),
        value is Err,
    ensures
        value == Err::<ParsedBinary<C>, DecodeError>(DecodeError::MalformedInput),
        spec_to_value::<C>(
            kind,
            textual,
            bytes,
            Err::<ParsedBinary<C>, DecodeError>(DecodeError::MalformedInput),
        ),
{
}

} // verus!
