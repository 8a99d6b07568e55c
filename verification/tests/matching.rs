use cfg_expr::targets::{Arch, Endian, Env, Family, Os, Vendor};
use cfg_expr::TargetPredicate;
use target_spec::SingleTarget;

#[test]
fn darwin_target_matches_os_darwin_and_not_os_linux() {
    let target = SingleTarget::new("x86_64-pc-darwin").unwrap();
    assert!(target.matches(&TargetPredicate::Os(Os("darwin"))));
    assert!(!target.matches(&TargetPredicate::Os(Os("linux"))));
}

#[test]
fn darwin_target_matches_os_macos() {
    let target = SingleTarget::new("x86_64-pc-darwin").unwrap();
    assert!(target.matches(&TargetPredicate::Os(Os::macos)));
    assert!(!target.matches(&TargetPredicate::Os(Os::windows)));
}

#[test]
fn matches_answers_each_kind_of_predicate() {
    let target = SingleTarget::new("x86_64-unknown-linux-gnu").unwrap();
    assert!(target.matches(&TargetPredicate::Arch(Arch::x86_64)));
    assert!(!target.matches(&TargetPredicate::Arch(Arch::aarch64)));
    assert!(target.matches(&TargetPredicate::Os(Os::linux)));
    assert!(target.matches(&TargetPredicate::Env(Env::gnu)));
    assert!(!target.matches(&TargetPredicate::Env(Env::musl)));
    assert!(target.matches(&TargetPredicate::Vendor(Vendor::unknown)));
    assert!(!target.matches(&TargetPredicate::Vendor(Vendor::pc)));
    assert!(target.matches(&TargetPredicate::Family(Family::unix)));
    assert!(!target.matches(&TargetPredicate::Family(Family::windows)));
    assert!(target.matches(&TargetPredicate::Endian(Endian::little)));
    assert!(!target.matches(&TargetPredicate::Endian(Endian::big)));
    assert!(target.matches(&TargetPredicate::PointerWidth(64)));
    assert!(!target.matches(&TargetPredicate::PointerWidth(32)));
}

#[test]
fn matches_agrees_with_cfg_expr_on_the_parsed_triple() {
    let predicates = [
        TargetPredicate::Arch(Arch::arm),
        TargetPredicate::Os(Os::windows),
        TargetPredicate::Env(Env::msvc),
        TargetPredicate::Family(Family::windows),
        TargetPredicate::PointerWidth(32),
        TargetPredicate::Vendor(Vendor::pc),
    ];
    for input in ["x86_64-pc-windows-msvc", "armv7-unknown-linux-gnueabihf", "i686-pc-windows-gnu"] {
        let target = SingleTarget::new(input).unwrap();
        for predicate in predicates {
            assert_eq!(
                target.matches(&predicate),
                predicate.matches(target.lexicon_triple())
            );
        }
    }
}

#[test]
fn matches_goes_by_the_decomposition_not_by_the_string() {
    let short = SingleTarget::new("x86_64-linux-gnu").unwrap();
    let long = SingleTarget::new("x86_64-unknown-linux-gnu").unwrap();
    assert!(!short.eval(&long));
    let predicates = [
        TargetPredicate::Arch(Arch::x86_64),
        TargetPredicate::Os(Os::linux),
        TargetPredicate::Os(Os::macos),
        TargetPredicate::Env(Env::gnu),
        TargetPredicate::Vendor(Vendor::unknown),
        TargetPredicate::Family(Family::unix),
        TargetPredicate::PointerWidth(64),
    ];
    for predicate in predicates {
        assert_eq!(short.matches(&predicate), long.matches(&predicate));
    }
}

#[test]
fn equal_targets_match_the_same_predicates() {
    let first = SingleTarget::new("aarch64-apple-darwin").unwrap();
    let second = first.clone();
    for predicate in [
        TargetPredicate::Arch(Arch::aarch64),
        TargetPredicate::Os(Os::macos),
        TargetPredicate::Vendor(Vendor::apple),
        TargetPredicate::Family(Family::unix),
        TargetPredicate::Os(Os::linux),
    ] {
        assert_eq!(first.matches(&predicate), second.matches(&predicate));
    }
    assert!(first.matches(&TargetPredicate::Vendor(Vendor::apple)));
    assert!(!first.matches(&TargetPredicate::Os(Os::linux)));
}
