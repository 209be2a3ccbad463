use nucc_binary::{
    to_bytes, to_value, Codecs, DecodeError, Endian, NuccBinaryParsed, NuccBinaryType,
    ParsedBinary,
};

/// A file that is kept as it is.
#[derive(Clone, Debug, PartialEq)]
struct Verbatim {
    file: Vec<u8>,
}

impl NuccBinaryParsed for Verbatim {
    fn extension(textual: bool) -> String {
        String::from(if textual { ".txt" } else { ".raw" })
    }

    fn encode(&self, _endian: Endian, _textual: bool) -> Vec<u8> {
        self.file.clone()
    }

    fn decode(bytes: &[u8], _endian: Endian, _textual: bool) -> Result<Self, DecodeError> {
        Ok(Verbatim { file: bytes.to_vec() })
    }
}

/// A table of 32-bit numbers behind a 32-bit count. In the textual mode the
/// numbers stand in decimal, separated by white space.
#[derive(Clone, Debug, PartialEq)]
struct Words {
    words: Vec<u32>,
}

fn read_u32(bytes: &[u8], endian: Endian) -> u32 {
    let four = [bytes[0], bytes[1], bytes[2], bytes[3]];
    match endian {
        Endian::Little => u32::from_le_bytes(four),
        Endian::Big => u32::from_be_bytes(four),
    }
}

fn write_u32(word: u32, endian: Endian) -> [u8; 4] {
    match endian {
        Endian::Little => word.to_le_bytes(),
        Endian::Big => word.to_be_bytes(),
    }
}

impl NuccBinaryParsed for Words {
    fn extension(textual: bool) -> String {
        String::from(if textual { ".json" } else { ".bin" })
    }

    fn encode(&self, endian: Endian, textual: bool) -> Vec<u8> {
        if textual {
            let lines: Vec<String> = self.words.iter().map(|word| word.to_string()).collect();
            lines.join("\n").into_bytes()
        } else {
            let mut bytes = write_u32(self.words.len() as u32, endian).to_vec();
            for word in &self.words {
                bytes.extend_from_slice(&write_u32(*word, endian));
            }
            bytes
        }
    }

    fn decode(bytes: &[u8], endian: Endian, textual: bool) -> Result<Self, DecodeError> {
        if textual {
            let text = std::str::from_utf8(bytes).map_err(|_| DecodeError::MalformedInput)?;
            let mut words = Vec::new();
            for line in text.split_whitespace() {
                words.push(line.parse::<u32>().map_err(|_| DecodeError::MalformedInput)?);
            }
            Ok(Words { words })
        } else {
            if bytes.len() < 4 {
                return Err(DecodeError::MalformedInput);
            }
            let count = read_u32(bytes, endian) as usize;
            if Some(bytes.len() - 4) != count.checked_mul(4) {
                return Err(DecodeError::MalformedInput);
            }
            let words = (0..count).map(|i| read_u32(&bytes[4 + 4 * i..], endian)).collect();
            Ok(Words { words })
        }
    }
}

/// A second layout for tables, so that a mix-up between two structured
/// kinds shows: every number is stored with all bits flipped.
#[derive(Clone, Debug, PartialEq)]
struct Flipped {
    inner: Words,
}

impl NuccBinaryParsed for Flipped {
    fn extension(textual: bool) -> String {
        String::from(if textual { ".xml" } else { ".flip" })
    }

    fn encode(&self, endian: Endian, textual: bool) -> Vec<u8> {
        let flipped = Words { words: self.inner.words.iter().map(|word| !word).collect() };
        flipped.encode(endian, textual)
    }

    fn decode(bytes: &[u8], endian: Endian, textual: bool) -> Result<Self, DecodeError> {
        let stored = Words::decode(bytes, endian, textual)?;
        Ok(Flipped { inner: Words { words: stored.words.iter().map(|word| !word).collect() } })
    }
}

struct Sample;

impl Codecs for Sample {
    type CharaCode = Words;
    type DDS = Verbatim;
    type Ev = Flipped;
    type FCV = Verbatim;
    type LUA = Verbatim;
    type MessageInfo = Words;
    type PlayerColorParam = Words;
    type PNG = Verbatim;
    type PrmLoad = Words;
    type SoundTestParam = Words;
    type StageInfo = Words;
    type XML = Verbatim;
}

/// A codec that keeps nothing but the byte order it was decoded in, and
/// writes that order beside the one it is asked to encode in (1 for little).
struct Recorder(Endian);

impl NuccBinaryParsed for Recorder {
    fn extension(_textual: bool) -> String {
        String::new()
    }

    fn encode(&self, endian: Endian, _textual: bool) -> Vec<u8> {
        vec![self.0.is_le() as u8, endian.is_le() as u8]
    }

    fn decode(_bytes: &[u8], endian: Endian, _textual: bool) -> Result<Self, DecodeError> {
        Ok(Recorder(endian))
    }
}

struct Probe;

impl Codecs for Probe {
    type CharaCode = Recorder;
    type DDS = Recorder;
    type Ev = Recorder;
    type FCV = Recorder;
    type LUA = Recorder;
    type MessageInfo = Recorder;
    type PlayerColorParam = Recorder;
    type PNG = Recorder;
    type PrmLoad = Recorder;
    type SoundTestParam = Recorder;
    type StageInfo = Recorder;
    type XML = Recorder;
}

fn every_kind_in(order: Endian) -> Vec<NuccBinaryType> {
    NuccBinaryType::all().into_iter().map(|kind| kind.with_endian(order)).collect()
}

/// A binary file that every sample codec accepts: a table of two numbers.
fn table(order: Endian) -> Vec<u8> {
    let mut bytes = write_u32(2, order).to_vec();
    bytes.extend_from_slice(&write_u32(0x1234_5678, order));
    bytes.extend_from_slice(&write_u32(1, order));
    bytes
}

#[test]
fn truncated_player_color_param_is_malformed() {
    let kind = NuccBinaryType::PlayerColorParam(Endian::Little);
    let value = to_value::<Sample>(kind, false, &[1, 0, 0]);
    assert!(matches!(value, Err(DecodeError::MalformedInput)));
}

#[test]
fn malformed_text_is_refused() {
    let kind = NuccBinaryType::StageInfo(Endian::Little);
    assert!(matches!(to_value::<Sample>(kind, true, b"12 twelve"), Err(DecodeError::MalformedInput)));
    assert!(matches!(to_value::<Sample>(kind, true, &[0xff, 0xfe]), Err(DecodeError::MalformedInput)));
    assert!(matches!(
        to_value::<Sample>(kind, true, b"4294967296"),
        Err(DecodeError::MalformedInput)
    ));
}

#[test]
fn a_count_that_does_not_fit_the_length_is_malformed() {
    let kind = NuccBinaryType::MessageInfo(Endian::Little);
    let mut bytes = table(Endian::Little);
    bytes.pop();
    assert!(matches!(to_value::<Sample>(kind, false, &bytes), Err(DecodeError::MalformedInput)));
    // The same bytes read in the other byte order announce far more entries
    // than follow.
    assert!(matches!(
        to_value::<Sample>(NuccBinaryType::MessageInfo(Endian::Big), false, &table(Endian::Little)),
        Err(DecodeError::MalformedInput)
    ));
}

#[test]
fn message_info_bytes_come_back_unchanged() {
    let bytes = [2, 0, 0, 0, 0x78, 0x56, 0x34, 0x12, 1, 0, 0, 0];
    let kind = NuccBinaryType::MessageInfo(Endian::Little);
    let value = to_value::<Sample>(kind, false, &bytes).unwrap();
    assert_eq!(to_bytes(&value, false), bytes.to_vec());
}

#[test]
fn to_value_decodes_with_the_codec_of_the_kind() {
    let bytes = table(Endian::Little);
    match to_value::<Sample>(NuccBinaryType::CharaCode(Endian::Little), false, &bytes) {
        Ok(ParsedBinary::CharaCode(order, contents)) => {
            assert_eq!(order, Endian::Little);
            assert_eq!(contents, Words { words: vec![0x1234_5678, 1] });
        }
        _ => panic!("the contents are not those of a character code table"),
    }
    match to_value::<Sample>(NuccBinaryType::Ev(Endian::Little), false, &bytes) {
        Ok(ParsedBinary::Ev(order, contents)) => {
            assert_eq!(order, Endian::Little);
            assert_eq!(contents.inner, Words { words: vec![!0x1234_5678, !1] });
        }
        _ => panic!("the contents are not those of an event table"),
    }
    match to_value::<Sample>(NuccBinaryType::PNG, false, &bytes) {
        Ok(ParsedBinary::PNG(contents)) => assert_eq!(contents.file, bytes),
        _ => panic!("the contents are not those of an image"),
    }
}

#[test]
fn to_value_honours_the_byte_order_of_the_kind() {
    let bytes = [0, 0, 0, 1, 0, 0, 1, 0];
    match to_value::<Sample>(NuccBinaryType::PrmLoad(Endian::Big), false, &bytes) {
        Ok(ParsedBinary::PrmLoad(order, contents)) => {
            assert_eq!(order, Endian::Big);
            assert_eq!(contents.words, vec![256]);
        }
        _ => panic!("the contents are not those of a load table"),
    }
    assert!(to_value::<Sample>(NuccBinaryType::PrmLoad(Endian::Little), false, &bytes).is_err());
}

#[test]
fn to_bytes_writes_in_the_byte_order_that_the_value_carries() {
    let contents = Words { words: vec![256] };
    let little: ParsedBinary<Sample> = ParsedBinary::SoundTestParam(Endian::Little, contents.clone());
    let big: ParsedBinary<Sample> = ParsedBinary::SoundTestParam(Endian::Big, contents);
    assert_eq!(to_bytes(&little, false), vec![1, 0, 0, 0, 0, 1, 0, 0]);
    assert_eq!(to_bytes(&big, false), vec![0, 0, 0, 1, 0, 0, 1, 0]);
}

#[test]
fn the_kind_of_a_decoded_value_is_the_kind_asked_for() {
    for order in [Endian::Little, Endian::Big] {
        for kind in every_kind_in(order) {
            for textual in [false, true] {
                let bytes = if textual { b"7 8 9".to_vec() } else { table(order) };
                let value = to_value::<Sample>(kind, textual, &bytes).unwrap();
                assert_eq!(value.binary_type(), kind);
            }
        }
    }
}

#[test]
fn to_bytes_encodes_with_the_codec_of_the_kind() {
    let words = Words { words: vec![3] };
    let plain: ParsedBinary<Sample> = ParsedBinary::CharaCode(Endian::Little, words.clone());
    let flipped: ParsedBinary<Sample> = ParsedBinary::Ev(Endian::Little, Flipped { inner: words });
    let verbatim: ParsedBinary<Sample> = ParsedBinary::LUA(Verbatim { file: vec![9, 9] });
    assert_eq!(to_bytes(&plain, false), vec![1, 0, 0, 0, 3, 0, 0, 0]);
    assert_eq!(to_bytes(&flipped, false), vec![1, 0, 0, 0, 0xfc, 0xff, 0xff, 0xff]);
    assert_eq!(to_bytes(&verbatim, false), vec![9, 9]);
    assert_eq!(to_bytes(&plain, true), b"3".to_vec());
}

#[test]
fn binary_round_trip_keeps_the_field_values() {
    for order in [Endian::Little, Endian::Big] {
        let contents = Words { words: vec![0, 1, 0xdead_beef, u32::MAX] };
        let value: ParsedBinary<Sample> = ParsedBinary::StageInfo(order, contents.clone());
        let bytes = to_bytes(&value, false);
        match to_value::<Sample>(value.binary_type(), false, &bytes) {
            Ok(ParsedBinary::StageInfo(held, again)) => {
                assert_eq!(held, order);
                assert_eq!(again, contents);
            }
            _ => panic!("the contents are not those of a stage table"),
        }
    }
}

#[test]
fn textual_round_trip_keeps_the_field_values() {
    let contents = Flipped { inner: Words { words: vec![5, 0, 77] } };
    let value: ParsedBinary<Sample> = ParsedBinary::Ev(Endian::Big, contents.clone());
    let text = to_bytes(&value, true);
    match to_value::<Sample>(value.binary_type(), true, &text) {
        Ok(ParsedBinary::Ev(held, again)) => {
            assert_eq!(held, Endian::Big);
            assert_eq!(again, contents);
        }
        _ => panic!("the contents are not those of an event table"),
    }
}

#[test]
fn text_formatted_otherwise_decodes_to_the_same_field_values() {
    let kind = NuccBinaryType::CharaCode(Endian::Little);
    let packed = to_value::<Sample>(kind, true, b"1\n2\n3").unwrap();
    let loose = to_value::<Sample>(kind, true, b"  1 2\t\n\n3 ").unwrap();
    assert_eq!(to_bytes(&packed, false), to_bytes(&loose, false));
    assert_eq!(to_bytes(&loose, true), b"1\n2\n3".to_vec());
}

#[test]
fn the_output_mode_does_not_change_the_field_values() {
    let kind = NuccBinaryType::PlayerColorParam(Endian::Little);
    let from_binary = to_value::<Sample>(kind, false, &table(Endian::Little)).unwrap();
    let text = to_bytes(&from_binary, true);
    assert_eq!(text, b"305419896\n1".to_vec());
    let from_text = to_value::<Sample>(kind, true, &text).unwrap();
    assert_eq!(to_bytes(&from_text, false), table(Endian::Little));
}

#[test]
fn the_extension_depends_on_kind_and_mode_only() {
    let empty: ParsedBinary<Sample> =
        ParsedBinary::MessageInfo(Endian::Little, Words { words: Vec::new() });
    let full: ParsedBinary<Sample> =
        ParsedBinary::MessageInfo(Endian::Big, Words { words: vec![1, 2, 3] });
    for textual in [false, true] {
        assert_eq!(empty.extension(textual), full.extension(textual));
    }
    assert_eq!(empty.extension(false), ".bin");
    assert_eq!(empty.extension(true), ".json");
}

#[test]
fn the_extension_is_that_of_the_codec_of_the_kind() {
    let event: ParsedBinary<Sample> =
        ParsedBinary::Ev(Endian::Little, Flipped { inner: Words { words: Vec::new() } });
    let image: ParsedBinary<Sample> = ParsedBinary::DDS(Verbatim { file: Vec::new() });
    assert_eq!(event.extension(false), ".flip");
    assert_eq!(event.extension(true), ".xml");
    assert_eq!(image.extension(false), ".raw");
    assert_eq!(image.extension(true), ".txt");
}

#[test]
fn a_kind_without_byte_order_is_decoded_little_endian() {
    for kind in every_kind_in(Endian::Big) {
        let value = to_value::<Probe>(kind, false, &[]).unwrap();
        let expected = if kind.endian().is_some() { 0 } else { 1 };
        assert_eq!(to_bytes(&value, false), vec![expected, expected]);
    }
    for kind in every_kind_in(Endian::Little) {
        let value = to_value::<Probe>(kind, false, &[]).unwrap();
        assert_eq!(to_bytes(&value, false), vec![1, 1]);
    }
}
