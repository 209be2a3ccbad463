//! The closed catalogue of binary file kinds: their order, their names, the
//! path patterns by which a file of each kind is recognised, and example paths.

use vstd::prelude::*;
use vstd::string::StringExecFns;
use regex::Regex;
use crate::endian::Endian;
use crate::error::PatternError;
use crate::pattern::{regex_accepts, regex_pattern};

verus! {

/// One kind of binary file. A kind whose layout holds multi-byte numbers
/// carries the byte order in which they are stored.
#[derive(Clone, Copy, Debug, PartialEq, Eq, Structural)]
pub enum NuccBinaryType {
    CharaCode(Endian),
    DDS,
    Ev(Endian),
    FCV,
    LUA,
    MessageInfo(Endian),
    PlayerColorParam(Endian),
    PNG,
    PrmLoad(Endian),
    SoundTestParam(Endian),
    StageInfo(Endian),
    XML,
}

/// How many kinds the catalogue holds.
pub const KIND_COUNT: usize = 12;

/// Every kind once, in catalogue order, each with the catalogue's default
/// byte order where it carries one.
pub open spec fn all_kinds() -> Seq<NuccBinaryType> {
    seq![
        NuccBinaryType::CharaCode(Endian::Little),
        NuccBinaryType::DDS,
        NuccBinaryType::Ev(Endian::Little),
        NuccBinaryType::FCV,
        NuccBinaryType::LUA,
        NuccBinaryType::MessageInfo(Endian::Little),
        NuccBinaryType::PlayerColorParam(Endian::Little),
        NuccBinaryType::PNG,
        NuccBinaryType::PrmLoad(Endian::Little),
        NuccBinaryType::SoundTestParam(Endian::Little),
        NuccBinaryType::StageInfo(Endian::Little),
        NuccBinaryType::XML,
    ]
}

/// The rows of a pattern table: each pattern text as a sequence of
/// characters, with its byte order.
pub open spec fn source_rows(table: Seq<(&'static str, Endian)>) -> Seq<(Seq<char>, Endian)> {
    Seq::new(table.len(), |i: int| (table[i].0@, table[i].1))
}

/// The rows that a list of compiled patterns stands for: for each regular
/// expression its pattern text, with the byte order beside it.
pub open spec fn compiled_rows(compiled: Seq<(Regex, Endian)>) -> Seq<(Seq<char>, Endian)> {
    Seq::new(compiled.len(), |i: int| (regex_pattern(compiled[i].0), compiled[i].1))
}

/// What becomes of one attempt to compile the pattern text `source`: the
/// regular expression where the text was accepted, else the text as an error.
pub fn compiled_or_refused(
    attempt: Result<Regex, regex::Error>,
    source: &'static str,
) -> (outcome: Result<Regex, PatternError>)
    ensures
        match attempt {
            Ok(regex) => outcome == Ok::<Regex, PatternError>(regex),
            Err(_) => outcome == Err::<Regex, PatternError>(PatternError { pattern: source }),
        },
{
    match attempt {
        Ok(regex) => Ok(regex),
        Err(_) => Err(PatternError { pattern: source }),
    }
}

/// The text shown for one layout version: its name, a space, and its
/// description in round brackets. A version without a description has empty
/// brackets.
pub open spec fn version_label(name: Seq<char>, documentation: Option<String>) -> Seq<char> {
    let described = match documentation {
        Some(text) => text@,
        None => Seq::<char>::empty(),
    };
    name + seq![' ', '('] + described + seq![')']
}

/// The text shown for the layout version called `name`.
pub fn label_version(name: &String, documentation: &Option<String>) -> (label: String)
    ensures
        label@ == version_label(name@, *documentation),
{
    proof {
        reveal_strlit(" (");
        reveal_strlit(")");
    }
    let mut label = name.clone();
    label.append(" (");
    assert(label@ == name@ + seq![' ', '(']);
    match documentation {
        Some(text) => {
            label.append(text.as_str());
        },
        None => {
            assert(label@ + Seq::<char>::empty() == label@);
        },
    }
    label.append(")");
    label
}

impl NuccBinaryType {
    /// The position of this kind in the catalogue, whatever byte order it carries.
    pub open spec fn ordinal(self) -> nat {
        match self {
            NuccBinaryType::CharaCode(_) => 0,
            NuccBinaryType::DDS => 1,
            NuccBinaryType::Ev(_) => 2,
            NuccBinaryType::FCV => 3,
            NuccBinaryType::LUA => 4,
            NuccBinaryType::MessageInfo(_) => 5,
            NuccBinaryType::PlayerColorParam(_) => 6,
            NuccBinaryType::PNG => 7,
            NuccBinaryType::PrmLoad(_) => 8,
            NuccBinaryType::SoundTestParam(_) => 9,
            NuccBinaryType::StageInfo(_) => 10,
            NuccBinaryType::XML => 11,
        }
    }

    /// Two values are of the same kind when they differ at most in byte order.
    pub open spec fn same_kind(self, other: NuccBinaryType) -> bool {
        self.ordinal() == other.ordinal()
    }

    /// The byte order that this value carries, if its kind carries one.
    pub open spec fn spec_endian(self) -> Option<Endian> {
        match self {
            NuccBinaryType::CharaCode(e) => Some(e),
            NuccBinaryType::Ev(e) => Some(e),
            NuccBinaryType::MessageInfo(e) => Some(e),
            NuccBinaryType::PlayerColorParam(e) => Some(e),
            NuccBinaryType::PrmLoad(e) => Some(e),
            NuccBinaryType::SoundTestParam(e) => Some(e),
            NuccBinaryType::StageInfo(e) => Some(e),
            _ => None,
        }
    }

    /// The byte order in which a file of this kind is decoded: the one that
    /// this value carries, and little-endian where its kind carries none.
    pub open spec fn spec_decode_order(self) -> Endian {
        match self.spec_endian() {
            Some(order) => order,
            None => Endian::Little,
        }
    }

    /// This kind with the byte order `order`; a kind that carries none is unchanged.
    pub open spec fn spec_with_endian(self, order: Endian) -> NuccBinaryType {
        match self {
            NuccBinaryType::CharaCode(_) => NuccBinaryType::CharaCode(order),
            NuccBinaryType::Ev(_) => NuccBinaryType::Ev(order),
            NuccBinaryType::MessageInfo(_) => NuccBinaryType::MessageInfo(order),
            NuccBinaryType::PlayerColorParam(_) => NuccBinaryType::PlayerColorParam(order),
            NuccBinaryType::PrmLoad(_) => NuccBinaryType::PrmLoad(order),
            NuccBinaryType::SoundTestParam(_) => NuccBinaryType::SoundTestParam(order),
            NuccBinaryType::StageInfo(_) => NuccBinaryType::StageInfo(order),
            other => other,
        }
    }

    /// The name under which this kind is shown.
    pub open spec fn spec_name(self) -> &'static str {
        match self {
            NuccBinaryType::CharaCode(_) => "CharaCode",
            NuccBinaryType::DDS => "DDS",
            NuccBinaryType::Ev(_) => "Ev",
            NuccBinaryType::FCV => "FCV",
            NuccBinaryType::LUA => "LUA",
            NuccBinaryType::MessageInfo(_) => "MessageInfo",
            NuccBinaryType::PlayerColorParam(_) => "PlayerColorParam",
            NuccBinaryType::PNG => "PNG",
            NuccBinaryType::PrmLoad(_) => "PrmLoad",
            NuccBinaryType::SoundTestParam(_) => "SoundTestParam",
            NuccBinaryType::StageInfo(_) => "StageInfo",
            NuccBinaryType::XML => "XML",
        }
    }

    /// The pattern texts of this kind, in the order in which they are tried,
    /// each with the byte order that a match implies.
    pub open spec fn pattern_table(self) -> Seq<(&'static str, Endian)> {
        match self {
            NuccBinaryType::CharaCode(_) => seq![(r"(characode\.bin)$", Endian::Little)],
            NuccBinaryType::DDS => seq![(r"(\.dds)$", Endian::Little)],
            NuccBinaryType::Ev(_) => seq![(r"(_ev\.bin)$", Endian::Little)],
            NuccBinaryType::FCV => seq![(r"(\.fcv)$", Endian::Little)],
            NuccBinaryType::LUA => seq![(r"(\.lua)$", Endian::Little)],
            NuccBinaryType::MessageInfo(_) => seq![
                (r"((WIN(32|64)|PS4).*?/message.*?\.bin)$", Endian::Little),
            ],
            NuccBinaryType::PlayerColorParam(_) => seq![
                (r"(PlayerColorParam\.bin)$", Endian::Little),
            ],
            NuccBinaryType::PNG => seq![(r"(\.png)$", Endian::Little)],
            NuccBinaryType::PrmLoad(_) => seq![(r"(prm_load\.bin)$", Endian::Little)],
            NuccBinaryType::SoundTestParam(_) => seq![
                (r"(SoundTestParam\.bin)$", Endian::Little),
            ],
            NuccBinaryType::StageInfo(_) => seq![(r"(stageInfo\.bin)$", Endian::Little)],
            NuccBinaryType::XML => seq![(r"(\.xml)$", Endian::Little)],
        }
    }

    /// Whether `regex` accepts every pattern text of this kind.
    pub open spec fn patterns_accepted(self) -> bool {
        forall|i: int|
            0 <= i < self.pattern_table().len() ==> regex_accepts(
                (#[trigger] self.pattern_table()[i]).0@,
            )
    }

    /// The rows of this kind's pattern table.
    pub open spec fn pattern_rows(self) -> Seq<(Seq<char>, Endian)> {
        source_rows(self.pattern_table())
    }

    /// Paths of files of this kind, as they are found in practice.
    pub open spec fn example_table(self) -> Seq<&'static str> {
        match self {
            NuccBinaryType::CharaCode(_) => seq![
                "D:/JARP/param/player/Converter/bin/characode.bin",
            ],
            NuccBinaryType::DDS => seq!["Z:/STORM4_UI_DATA/charsel/charsel_I3.dds"],
            NuccBinaryType::Ev(_) => seq!["player/1dio01_ev/1dio01_ev.bin"],
            NuccBinaryType::FCV => seq![
                "J:/char/c/0bao01/anm/ghh1/fcv/0bao01ghh1_cut2_bright_rate.fcv",
            ],
            NuccBinaryType::LUA => seq!["d01/d01_010.lua"],
            NuccBinaryType::MessageInfo(_) => seq!["WIN64/eng/message_DLC110.bin"],
            NuccBinaryType::PlayerColorParam(_) => seq!["PlayerColorParam.bin"],
            NuccBinaryType::PNG => seq!["Z:/char/x/duel_item/tex/c_bat_067.png"],
            NuccBinaryType::PrmLoad(_) => seq![
                "D:/JARP/trunk/param/player/Converter/bin/0bao01/0bao01prm_load.bin",
            ],
            NuccBinaryType::SoundTestParam(_) => seq!["SoundTestParam.bin"],
            NuccBinaryType::StageInfo(_) => seq!["stageInfo.bin"],
            NuccBinaryType::XML => seq!["D:/JARP/trunk/param/spm/spm/0bao01_SPM.xml"],
        }
    }

    /// Every kind once, in catalogue order.
    pub fn all() -> (kinds: Vec<NuccBinaryType>)
        ensures
            kinds@ == all_kinds(),
    {
        vec![
            NuccBinaryType::CharaCode(Endian::Little),
            NuccBinaryType::DDS,
            NuccBinaryType::Ev(Endian::Little),
            NuccBinaryType::FCV,
            NuccBinaryType::LUA,
            NuccBinaryType::MessageInfo(Endian::Little),
            NuccBinaryType::PlayerColorParam(Endian::Little),
            NuccBinaryType::PNG,
            NuccBinaryType::PrmLoad(Endian::Little),
            NuccBinaryType::SoundTestParam(Endian::Little),
            NuccBinaryType::StageInfo(Endian::Little),
            NuccBinaryType::XML,
        ]
    }

    /// The position of this kind in the catalogue.
    pub fn index(&self) -> (i: usize)
        ensures
            i == self.ordinal(),
            i < KIND_COUNT,
    {
        match self {
            NuccBinaryType::CharaCode(_) => 0,
            NuccBinaryType::DDS => 1,
            NuccBinaryType::Ev(_) => 2,
            NuccBinaryType::FCV => 3,
            NuccBinaryType::LUA => 4,
            NuccBinaryType::MessageInfo(_) => 5,
            NuccBinaryType::PlayerColorParam(_) => 6,
            NuccBinaryType::PNG => 7,
            NuccBinaryType::PrmLoad(_) => 8,
            NuccBinaryType::SoundTestParam(_) => 9,
            NuccBinaryType::StageInfo(_) => 10,
            NuccBinaryType::XML => 11,
        }
    }

    /// The byte order that this value carries, if its kind carries one.
    pub fn endian(&self) -> (order: Option<Endian>)
        ensures
            order == self.spec_endian(),
    {
        match self {
            NuccBinaryType::CharaCode(e) => Some(*e),
            NuccBinaryType::Ev(e) => Some(*e),
            NuccBinaryType::MessageInfo(e) => Some(*e),
            NuccBinaryType::PlayerColorParam(e) => Some(*e),
            NuccBinaryType::PrmLoad(e) => Some(*e),
            NuccBinaryType::SoundTestParam(e) => Some(*e),
            NuccBinaryType::StageInfo(e) => Some(*e),
            _ => None,
        }
    }

    /// The byte order in which a file of this kind is decoded: the one that
    /// this value carries, and little-endian where its kind carries none.
    pub fn decode_order(&self) -> (order: Endian)
        ensures
            order == self.spec_decode_order(),
    {
        match self.endian() {
            Some(order) => order,
            None => Endian::Little,
        }
    }

    /// This kind with the byte order `order`; a kind that carries none is unchanged.
    pub fn with_endian(self, order: Endian) -> (kind: NuccBinaryType)
        ensures
            kind == self.spec_with_endian(order),
    {
        match self {
            NuccBinaryType::CharaCode(_) => NuccBinaryType::CharaCode(order),
            NuccBinaryType::Ev(_) => NuccBinaryType::Ev(order),
            NuccBinaryType::MessageInfo(_) => NuccBinaryType::MessageInfo(order),
            NuccBinaryType::PlayerColorParam(_) => NuccBinaryType::PlayerColorParam(order),
            NuccBinaryType::PrmLoad(_) => NuccBinaryType::PrmLoad(order),
            NuccBinaryType::SoundTestParam(_) => NuccBinaryType::SoundTestParam(order),
            NuccBinaryType::StageInfo(_) => NuccBinaryType::StageInfo(order),
            other => other,
        }
    }

    /// The name under which this kind is shown.
    pub fn name(&self) -> (name: &'static str)
        ensures
            name == self.spec_name(),
    {
        match self {
            NuccBinaryType::CharaCode(_) => "CharaCode",
            NuccBinaryType::DDS => "DDS",
            NuccBinaryType::Ev(_) => "Ev",
            NuccBinaryType::FCV => "FCV",
            NuccBinaryType::LUA => "LUA",
            NuccBinaryType::MessageInfo(_) => "MessageInfo",
            NuccBinaryType::PlayerColorParam(_) => "PlayerColorParam",
            NuccBinaryType::PNG => "PNG",
            NuccBinaryType::PrmLoad(_) => "PrmLoad",
            NuccBinaryType::SoundTestParam(_) => "SoundTestParam",
            NuccBinaryType::StageInfo(_) => "StageInfo",
            NuccBinaryType::XML => "XML",
        }
    }

    /// The pattern texts of this kind with their byte orders, in the order in
    /// which they are tried.
    pub fn pattern_sources(&self) -> (table: Vec<(&'static str, Endian)>)
        ensures
            table@ == self.pattern_table(),
    {
        match self {
            NuccBinaryType::CharaCode(_) => vec![(r"(characode\.bin)$", Endian::Little)],
            NuccBinaryType::DDS => vec![(r"(\.dds)$", Endian::Little)],
            NuccBinaryType::Ev(_) => vec![(r"(_ev\.bin)$", Endian::Little)],
            NuccBinaryType::FCV => vec![(r"(\.fcv)$", Endian::Little)],
            NuccBinaryType::LUA => vec![(r"(\.lua)$", Endian::Little)],
            NuccBinaryType::MessageInfo(_) => vec![
                (r"((WIN(32|64)|PS4).*?/message.*?\.bin)$", Endian::Little),
            ],
            NuccBinaryType::PlayerColorParam(_) => vec![
                (r"(PlayerColorParam\.bin)$", Endian::Little),
            ],
            NuccBinaryType::PNG => vec![(r"(\.png)$", Endian::Little)],
            NuccBinaryType::PrmLoad(_) => vec![(r"(prm_load\.bin)$", Endian::Little)],
            NuccBinaryType::SoundTestParam(_) => vec![
                (r"(SoundTestParam\.bin)$", Endian::Little),
            ],
            NuccBinaryType::StageInfo(_) => vec![(r"(stageInfo\.bin)$", Endian::Little)],
            NuccBinaryType::XML => vec![(r"(\.xml)$", Endian::Little)],
        }
    }

    /// The patterns of this kind, compiled, each with its byte order, in the
    /// order in which they are tried.
    ///
    /// Succeeds exactly where `regex` accepts every pattern text of this
    /// kind. Otherwise the error names the first text that it refuses.
    pub fn patterns(&self) -> (compiled: Result<Vec<(Regex, Endian)>, PatternError>)
        ensures
            compiled is Ok <==> self.patterns_accepted(),
            match compiled {
                Ok(list) => compiled_rows(list@) == self.pattern_rows(),
                Err(refused) => exists|i: int|
                    0 <= i < self.pattern_table().len() && refused.pattern
                        == (#[trigger] self.pattern_table()[i]).0 && !regex_accepts(
                        self.pattern_table()[i].0@,
                    ) && forall|j: int|
                        0 <= j < i ==> regex_accepts((#[trigger] self.pattern_table()[j]).0@),
            },
    {
        let sources = self.pattern_sources();
        let mut list: Vec<(Regex, Endian)> = Vec::new();
        let mut i: usize = 0;
        while i < sources.len()
            invariant
                sources@ == self.pattern_table(),
                i <= sources.len(),
                list@.len() == i,
                forall|j: int|
                    0 <= j < i ==> regex_pattern((#[trigger] list@[j]).0) == sources@[j].0@
                        && list@[j].1 == sources@[j].1,
                forall|j: int| 0 <= j < i ==> regex_accepts((#[trigger] sources@[j]).0@),
            decreases sources.len() - i,
        {
            let (source, order) = sources[i];
            let attempt = Regex::new(source);
            match compiled_or_refused(attempt, source) {
                Ok(regex) => {
                    list.push((regex, order));
                },
                Err(refused) => {
                    assert(refused.pattern == self.pattern_table()[i as int].0);
                    return Err(refused);
                },
            }
            i += 1;
        }
        assert(compiled_rows(list@) =~= self.pattern_rows());
        Ok(list)
    }

    /// Paths of files of this kind, as they are found in practice.
    pub fn examples(&self) -> (paths: Vec<String>)
        ensures
            paths@.len() == self.example_table().len(),
            forall|i: int|
                0 <= i < paths@.len() ==> (#[trigger] paths@[i])@ == self.example_table()[i]@,
    {
        match self {
            NuccBinaryType::CharaCode(_) => vec![
                "D:/JARP/param/player/Converter/bin/characode.bin".to_owned(),
            ],
            NuccBinaryType::DDS => vec!["Z:/STORM4_UI_DATA/charsel/charsel_I3.dds".to_owned()],
            NuccBinaryType::Ev(_) => vec!["player/1dio01_ev/1dio01_ev.bin".to_owned()],
            NuccBinaryType::FCV => vec![
                "J:/char/c/0bao01/anm/ghh1/fcv/0bao01ghh1_cut2_bright_rate.fcv".to_owned(),
            ],
            NuccBinaryType::LUA => vec!["d01/d01_010.lua".to_owned()],
            NuccBinaryType::MessageInfo(_) => vec!["WIN64/eng/message_DLC110.bin".to_owned()],
            NuccBinaryType::PlayerColorParam(_) => vec!["PlayerColorParam.bin".to_owned()],
            NuccBinaryType::PNG => vec!["Z:/char/x/duel_item/tex/c_bat_067.png".to_owned()],
            NuccBinaryType::PrmLoad(_) => vec![
                "D:/JARP/trunk/param/player/Converter/bin/0bao01/0bao01prm_load.bin".to_owned(),
            ],
            NuccBinaryType::SoundTestParam(_) => vec!["SoundTestParam.bin".to_owned()],
            NuccBinaryType::StageInfo(_) => vec!["stageInfo.bin".to_owned()],
            NuccBinaryType::XML => vec!["D:/JARP/trunk/param/spm/spm/0bao01_SPM.xml".to_owned()],
        }
    }

    /// What `version_options` returns: one label for each of `versions` where
    /// this kind is `Ev`, and nothing for any other kind.
    pub open spec fn spec_version_options(
        self,
        versions: Seq<(String, Option<String>)>,
    ) -> Seq<Seq<char>> {
        if self is Ev {
            Seq::new(versions.len(), |i: int| version_label(versions[i].0@, versions[i].1))
        } else {
            Seq::empty()
        }
    }

    /// The layout versions that a file of this kind can be written in, as
    /// texts to choose from. Only `Ev` files have versions; `versions` holds
    /// each one's name and, where it has one, its description, in the order in
    /// which they are offered.
    pub fn version_options(&self, versions: &Vec<(String, Option<String>)>) -> (options: Vec<
        String,
    >)
        ensures
            options@.len() == self.spec_version_options(versions@).len(),
            forall|i: int|
                0 <= i < options@.len() ==> (#[trigger] options@[i])@
                    == self.spec_version_options(versions@)[i],
    {
        match self {
            NuccBinaryType::Ev(_) => {
                let mut options: Vec<String> = Vec::new();
                let mut i: usize = 0;
                while i < versions.len()
                    invariant
                        self is Ev,
                        i <= versions.len(),
                        options@.len() == i,
                        forall|j: int|
                            0 <= j < i ==> (#[trigger] options@[j])@ == version_label(
                                versions@[j].0@,
                                versions@[j].1,
                            ),
                    decreases versions.len() - i,
                {
                    let label = label_version(&versions[i].0, &versions[i].1);
                    options.push(label);
                    i += 1;
                }
                options
            },
            _ => Vec::new(),
        }
    }
}

/// The catalogue is complete and without repetition: it holds twelve kinds,
/// every kind stands in it at its own position, and every kind has at least
/// one pattern and at least one example path.
pub proof fn lemma_catalogue_complete(kind: NuccBinaryType)
    ensures
        all_kinds().len() == KIND_COUNT,
        kind.ordinal() < all_kinds().len(),
        all_kinds()[kind.ordinal() as int].same_kind(kind),
        kind.pattern_table().len() >= 1,
        kind.pattern_rows().len() >= 1,
        kind.example_table().len() >= 1,
{
}

/// The kinds at two different positions of the catalogue are different kinds.
pub proof fn lemma_catalogue_distinct(i: int, j: int)
    requires
        0 <= i < all_kinds().len(),
        0 <= j < all_kinds().len(),
        i != j,
    ensures
        all_kinds()[i].ordinal() == i,
        !all_kinds()[i].same_kind(all_kinds()[j]),
{
}

/// What the catalogue says of a kind does not depend on the byte order that a
/// value of the kind carries: two values of the same kind have the same name,
/// patterns and example paths.
pub proof fn lemma_same_kind_same_entry(a: NuccBinaryType, b: NuccBinaryType)
    requires
        a.same_kind(b),
    ensures
        a.spec_name() == b.spec_name(),
        a.pattern_table() == b.pattern_table(),
        a.pattern_rows() == b.pattern_rows(),
        a.example_table() == b.example_table(),
        a.spec_endian() is Some <==> b.spec_endian() is Some,
{
}

/// Setting the byte order keeps the kind. A kind that carries a byte order
/// then carries the one set; a kind that carries none is unchanged. Setting it
/// twice is setting it to the second.
pub proof fn lemma_with_endian(kind: NuccBinaryType, order: Endian, other: Endian)
    ensures
        kind.spec_with_endian(order).same_kind(kind),
        kind.spec_endian() is Some ==> kind.spec_with_endian(order).spec_endian() == Some(order),
        kind.spec_endian() is None ==> kind.spec_with_endian(order) == kind,
        kind.spec_endian() == Some(order) ==> kind.spec_with_endian(order) == kind,
        kind.spec_with_endian(other).spec_with_endian(order) == kind.spec_with_endian(order),
        forall|same: NuccBinaryType|
            same.same_kind(kind) ==> same.spec_with_endian(order) == kind.spec_with_endian(order),
{
}

} // verus!
