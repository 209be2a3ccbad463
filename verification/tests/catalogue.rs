use nucc_binary::binary_type::{compiled_or_refused, label_version, KIND_COUNT};
use nucc_binary::{Catalogue, Endian, NuccBinaryType, PatternError};
use regex::Regex;

fn every_kind_in(order: Endian) -> Vec<NuccBinaryType> {
    vec![
        NuccBinaryType::CharaCode(order),
        NuccBinaryType::DDS,
        NuccBinaryType::Ev(order),
        NuccBinaryType::FCV,
        NuccBinaryType::LUA,
        NuccBinaryType::MessageInfo(order),
        NuccBinaryType::PlayerColorParam(order),
        NuccBinaryType::PNG,
        NuccBinaryType::PrmLoad(order),
        NuccBinaryType::SoundTestParam(order),
        NuccBinaryType::StageInfo(order),
        NuccBinaryType::XML,
    ]
}

#[test]
fn all_lists_every_kind_once_in_catalogue_order() {
    let kinds = NuccBinaryType::all();
    assert_eq!(kinds.len(), KIND_COUNT);
    assert_eq!(kinds, every_kind_in(Endian::Little));
}

#[test]
fn index_is_the_position_in_the_catalogue() {
    for (position, kind) in NuccBinaryType::all().iter().enumerate() {
        assert_eq!(kind.index(), position);
    }
    assert_eq!(NuccBinaryType::DDS.index(), 1);
    assert_eq!(NuccBinaryType::XML.index(), 11);
}

#[test]
fn index_does_not_depend_on_byte_order() {
    let little = every_kind_in(Endian::Little);
    let big = every_kind_in(Endian::Big);
    for (a, b) in little.iter().zip(big.iter()) {
        assert_eq!(a.index(), b.index());
    }
}

#[test]
fn names_are_the_variant_names() {
    let names: Vec<&str> = NuccBinaryType::all().iter().map(|kind| kind.name()).collect();
    assert_eq!(
        names,
        vec![
            "CharaCode",
            "DDS",
            "Ev",
            "FCV",
            "LUA",
            "MessageInfo",
            "PlayerColorParam",
            "PNG",
            "PrmLoad",
            "SoundTestParam",
            "StageInfo",
            "XML",
        ]
    );
    assert_eq!(NuccBinaryType::StageInfo(Endian::Big).name(), "StageInfo");
}

#[test]
fn endian_is_carried_by_the_structured_kinds_only() {
    assert_eq!(NuccBinaryType::Ev(Endian::Big).endian(), Some(Endian::Big));
    assert_eq!(NuccBinaryType::Ev(Endian::Little).endian(), Some(Endian::Little));
    assert_eq!(NuccBinaryType::PNG.endian(), None);
    let carrying = every_kind_in(Endian::Big).iter().filter(|kind| kind.endian().is_some()).count();
    assert_eq!(carrying, 7);
}

#[test]
fn with_endian_sets_the_order_and_keeps_the_kind() {
    assert_eq!(
        NuccBinaryType::PrmLoad(Endian::Little).with_endian(Endian::Big),
        NuccBinaryType::PrmLoad(Endian::Big)
    );
    assert_eq!(NuccBinaryType::LUA.with_endian(Endian::Big), NuccBinaryType::LUA);
    for kind in every_kind_in(Endian::Little) {
        let turned = kind.with_endian(Endian::Big);
        assert_eq!(turned.index(), kind.index());
        assert_eq!(turned, every_kind_in(Endian::Big)[kind.index()]);
        assert_eq!(turned.with_endian(Endian::Little), kind);
    }
}

#[test]
fn decode_order_falls_back_to_little_endian() {
    assert_eq!(NuccBinaryType::CharaCode(Endian::Big).decode_order(), Endian::Big);
    assert_eq!(NuccBinaryType::CharaCode(Endian::Little).decode_order(), Endian::Little);
    assert_eq!(NuccBinaryType::FCV.decode_order(), Endian::Little);
}

#[test]
fn endian_tells_its_own_order() {
    assert!(Endian::Little.is_le());
    assert!(!Endian::Little.is_be());
    assert!(Endian::Big.is_be());
    assert!(!Endian::Big.is_le());
}

#[test]
fn every_kind_has_a_pattern_and_an_example() {
    for kind in NuccBinaryType::all() {
        assert!(!kind.pattern_sources().is_empty());
        assert!(!kind.examples().is_empty());
        assert_eq!(kind.patterns().unwrap().len(), kind.pattern_sources().len());
    }
}

#[test]
fn pattern_sources_are_the_texts_of_the_catalogue() {
    assert_eq!(
        NuccBinaryType::MessageInfo(Endian::Little).pattern_sources(),
        vec![(r"((WIN(32|64)|PS4).*?/message.*?\.bin)$", Endian::Little)]
    );
    assert_eq!(NuccBinaryType::DDS.pattern_sources(), vec![(r"(\.dds)$", Endian::Little)]);
    assert_eq!(
        NuccBinaryType::Ev(Endian::Big).pattern_sources(),
        vec![(r"(_ev\.bin)$", Endian::Little)]
    );
}

#[test]
fn patterns_are_compiled_from_their_sources_in_order() {
    for kind in NuccBinaryType::all() {
        let sources = kind.pattern_sources();
        let compiled = kind.patterns().unwrap();
        for ((regex, order), (source, expected)) in compiled.iter().zip(sources.iter()) {
            assert_eq!(regex.as_str(), *source);
            assert_eq!(order, expected);
        }
    }
}

#[test]
fn a_refused_pattern_is_reported_with_its_text() {
    let outcome = compiled_or_refused(Regex::new("(unclosed"), "(unclosed");
    assert_eq!(outcome.err(), Some(PatternError { pattern: "(unclosed" }));
}

#[test]
fn an_accepted_pattern_is_handed_on() {
    let outcome = compiled_or_refused(Regex::new(r"(\.dds)$"), r"(\.dds)$");
    let regex = outcome.unwrap();
    assert_eq!(regex.as_str(), r"(\.dds)$");
    assert!(regex.is_match("a.dds"));
    assert!(!regex.is_match("a.dds.bak"));
}

#[test]
fn examples_are_the_paths_of_the_catalogue() {
    assert_eq!(
        NuccBinaryType::CharaCode(Endian::Little).examples(),
        vec![String::from("D:/JARP/param/player/Converter/bin/characode.bin")]
    );
    assert_eq!(
        NuccBinaryType::MessageInfo(Endian::Little).examples(),
        vec![String::from("WIN64/eng/message_DLC110.bin")]
    );
    assert_eq!(NuccBinaryType::StageInfo(Endian::Big).examples(), vec![String::from("stageInfo.bin")]);
    assert_eq!(
        NuccBinaryType::XML.examples(),
        vec![String::from("D:/JARP/trunk/param/spm/spm/0bao01_SPM.xml")]
    );
}

#[test]
fn a_version_is_labelled_with_its_description_in_brackets() {
    let label = label_version(&String::from("Storm4"), &Some(String::from("first layout")));
    assert_eq!(label, "Storm4 (first layout)");
}

#[test]
fn a_version_without_description_has_empty_brackets() {
    assert_eq!(label_version(&String::from("Storm4"), &None), "Storm4 ()");
    assert_eq!(label_version(&String::new(), &None), " ()");
}

#[test]
fn version_options_lists_every_version_of_ev() {
    let versions = vec![
        (String::from("Storm4"), Some(String::from("Naruto Storm 4"))),
        (String::from("Connections"), None),
        (String::from("Jojo"), Some(String::new())),
    ];
    assert_eq!(
        NuccBinaryType::Ev(Endian::Little).version_options(&versions),
        vec![
            String::from("Storm4 (Naruto Storm 4)"),
            String::from("Connections ()"),
            String::from("Jojo ()"),
        ]
    );
    assert_eq!(NuccBinaryType::Ev(Endian::Big).version_options(&Vec::new()), Vec::<String>::new());
}

#[test]
fn version_options_is_empty_for_every_other_kind() {
    let versions = vec![(String::from("Storm4"), Some(String::from("Naruto Storm 4")))];
    for kind in NuccBinaryType::all() {
        if kind.index() != NuccBinaryType::Ev(Endian::Little).index() {
            assert!(kind.version_options(&versions).is_empty());
        }
    }
}

#[test]
fn every_pattern_of_the_catalogue_is_accepted() {
    for kind in NuccBinaryType::all() {
        for (source, _) in kind.pattern_sources() {
            assert!(Regex::new(source).is_ok());
        }
        assert!(kind.patterns().is_ok());
    }
    assert!(Catalogue::new().is_ok());
}

#[test]
fn patterns_succeed_whatever_byte_order_the_kind_carries() {
    for kind in NuccBinaryType::all() {
        let turned = kind.with_endian(Endian::Big);
        let compiled = turned.patterns().unwrap();
        let sources = kind.pattern_sources();
        assert_eq!(compiled.len(), sources.len());
        for ((regex, order), (source, expected)) in compiled.iter().zip(sources.iter()) {
            assert_eq!(regex.as_str(), *source);
            assert_eq!(order, expected);
        }
    }
}
