use target_lexicon::{
    Architecture, BinaryFormat, Environment, OperatingSystem, ParseError, Triple, Vendor,
};
use std::str::FromStr;
use target_spec::{SingleTarget, SingleTargetParseError};

#[test]
fn test_parse() {
    let target =
        SingleTarget::new("x86_64-pc-darwin").expect("this triple is known to target-lexicon");

    let expected_triple = Triple {
        architecture: Architecture::X86_64,
        vendor: Vendor::Pc,
        operating_system: OperatingSystem::Darwin,
        environment: Environment::Unknown,
        binary_format: BinaryFormat::Macho,
    };
    assert_eq!(
        *target.lexicon_triple(),
        expected_triple,
        "lexicon triple matched correctly"
    );
}

#[test]
fn known_triple_decomposes_field_by_field() {
    let target = SingleTarget::new("x86_64-pc-darwin").unwrap();
    let triple = target.lexicon_triple();
    assert_eq!(triple.architecture, Architecture::X86_64);
    assert_eq!(triple.vendor, Vendor::Pc);
    assert_eq!(triple.operating_system, OperatingSystem::Darwin);
    assert_eq!(triple.environment, Environment::Unknown);
    assert_eq!(triple.binary_format, BinaryFormat::Macho);
}

#[test]
fn triple_str_is_the_input_verbatim() {
    let inputs = [
        "x86_64-pc-darwin",
        "x86_64-unknown-linux-gnu",
        "x86_64-linux-gnu",
        "aarch64-apple-darwin",
        "armv7-unknown-linux-gnueabihf",
        "wasm32-unknown-unknown",
        "x86_64-pc-windows-msvc",
        "x86_64",
    ];
    for input in inputs {
        let target = SingleTarget::new(input).unwrap();
        assert_eq!(target.triple_str(), input);
    }
}

#[test]
fn triple_str_is_not_normalized() {
    // target-lexicon would print this triple with the vendor filled in.
    let target = SingleTarget::new("x86_64-linux-gnu").unwrap();
    assert_eq!(target.lexicon_triple().to_string(), "x86_64-unknown-linux-gnu");
    assert_eq!(target.triple_str(), "x86_64-linux-gnu");
}

#[test]
fn lexicon_triple_is_what_target_lexicon_parses() {
    for input in ["x86_64-unknown-linux-gnu", "riscv32imc-esp-espidf", "thumbv7em-none-eabihf"] {
        let target = SingleTarget::new(input).unwrap();
        assert_eq!(*target.lexicon_triple(), Triple::from_str(input).unwrap());
    }
}

#[test]
fn unknown_triple_is_rejected_with_its_input() {
    let err = SingleTarget::new("cannot-be-known").unwrap_err();
    assert_eq!(err.triple_str(), "cannot-be-known");
    assert_eq!(
        *err.lexicon_err(),
        ParseError::UnrecognizedArchitecture("cannot".to_owned())
    );
}

#[test]
fn empty_string_is_rejected() {
    let err = SingleTarget::new("").unwrap_err();
    assert_eq!(err.triple_str(), "");
    assert_eq!(
        *err.lexicon_err(),
        ParseError::UnrecognizedArchitecture(String::new())
    );
}

#[test]
fn each_reason_of_rejection_is_reported() {
    let cases = [
        (
            "bogus-pc-linux-gnu",
            ParseError::UnrecognizedArchitecture("bogus".to_owned()),
        ),
        (
            "x86_64-Pc",
            ParseError::UnrecognizedVendor("Pc".to_owned()),
        ),
        (
            "x86_64-pc-Linux",
            ParseError::UnrecognizedOperatingSystem("Linux".to_owned()),
        ),
        (
            "x86_64-pc-linux-Gnu",
            ParseError::UnrecognizedEnvironment("Gnu".to_owned()),
        ),
        (
            "x86_64-pc-linux-gnu-Elf",
            ParseError::UnrecognizedBinaryFormat("Elf".to_owned()),
        ),
        (
            "x86_64-pc-linux-gnu-elf-more",
            ParseError::UnrecognizedField("more".to_owned()),
        ),
    ];
    for (input, reason) in cases {
        let err = SingleTarget::new(input).unwrap_err();
        assert_eq!(err.triple_str(), input);
        assert_eq!(*err.lexicon_err(), reason);
    }
}

#[test]
fn non_ascii_text_is_rejected_and_kept_byte_for_byte() {
    let input = "x86_64-pc-linux-gn\u{fc}";
    let err = SingleTarget::new(input).unwrap_err();
    assert_eq!(err.triple_str(), input);
    assert_eq!(err.triple_str().as_bytes(), input.as_bytes());
}

#[test]
fn from_str_agrees_with_new() {
    let parsed: SingleTarget = "x86_64-unknown-linux-gnu".parse().unwrap();
    let built = SingleTarget::new("x86_64-unknown-linux-gnu").unwrap();
    assert_eq!(parsed, built);
    assert_eq!(parsed.triple_str(), "x86_64-unknown-linux-gnu");
    assert_eq!(parsed.lexicon_triple(), built.lexicon_triple());

    let err = "cannot-be-known".parse::<SingleTarget>().unwrap_err();
    assert_eq!(err.triple_str(), "cannot-be-known");
    assert_eq!(err, SingleTarget::new("cannot-be-known").unwrap_err());
}

#[test]
fn from_parsed_keeps_the_string_and_the_triple() {
    let text = "aarch64-apple-darwin";
    let triple = Triple::from_str(text).unwrap();
    let target = SingleTarget::from_parsed(text.to_owned(), Ok(triple.clone())).unwrap();
    assert_eq!(target.triple_str(), text);
    assert_eq!(*target.lexicon_triple(), triple);
}

#[test]
fn from_parsed_keeps_the_string_and_the_reason() {
    let text = "cannot-be-known";
    let reason = Triple::from_str(text).unwrap_err();
    let err = SingleTarget::from_parsed(text.to_owned(), Err(reason.clone())).unwrap_err();
    assert_eq!(err.triple_str(), text);
    assert_eq!(*err.lexicon_err(), reason);
}

#[test]
fn error_is_a_pair_of_input_and_reason() {
    let reason = ParseError::UnrecognizedVendor("Pc".to_owned());
    let err = SingleTargetParseError::new("x86_64-Pc".to_owned(), reason.clone());
    assert_eq!(err.triple_str(), "x86_64-Pc");
    assert_eq!(*err.lexicon_err(), reason);
    assert_eq!(err.clone(), err);
}

#[test]
fn clone_is_an_equal_target() {
    let target = SingleTarget::new("x86_64-pc-windows-msvc").unwrap();
    let copy = target.clone();
    assert_eq!(copy, target);
    assert_eq!(copy.triple_str(), "x86_64-pc-windows-msvc");
    assert_eq!(copy.lexicon_triple(), target.lexicon_triple());
    assert_eq!(copy.lexicon_triple().operating_system, OperatingSystem::Windows);
}

#[test]
fn construction_is_deterministic() {
    let first = SingleTarget::new("x86_64-pc-darwin").unwrap();
    let second = SingleTarget::new("x86_64-pc-darwin").unwrap();
    assert!(first == second);
    assert!(first.eval(&second));
    assert_eq!(first.cmp(&second), std::cmp::Ordering::Equal);
    assert_eq!(first.partial_cmp(&second), Some(std::cmp::Ordering::Equal));
    assert_eq!(first.lexicon_triple(), second.lexicon_triple());
}
