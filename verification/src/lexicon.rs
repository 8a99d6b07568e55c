//! The boundary to `cfg-expr` and `target-lexicon`.
//!
//! Nothing in this module is proved. The types are declared without their
//! contents, and each contract is taken on trust from the source of the
//! function that it speaks of.

use cfg_expr::target_lexicon::{ParseError, Triple};
use cfg_expr::TargetPredicate;
use core::str::FromStr;
use vstd::prelude::*;

verus! {

/// `target_lexicon::Triple`, the structured form of a target triple.
#[verifier::external_type_specification]
#[verifier::external_body]
pub struct ExTriple(Triple);

/// `target_lexicon::ParseError`, the reason why a text is no known triple.
#[verifier::external_type_specification]
#[verifier::external_body]
pub struct ExParseError(ParseError);

/// `cfg_expr::TargetPredicate`, one `target_*` condition of a `cfg()`
/// expression.
#[verifier::external_type_specification]
#[verifier::external_body]
pub struct ExTargetPredicate<'a>(TargetPredicate<'a>);

/// What `<Triple as FromStr>::from_str` returns for a text.
pub uninterp spec fn parse_outcome(text: Seq<char>) -> Result<Triple, ParseError>;

/// What `TargetPredicate::matches` answers for a predicate and a triple.
pub uninterp spec fn predicate_holds(predicate: TargetPredicate<'static>, triple: Triple) -> bool;

/// Calls `<Triple as FromStr>::from_str`.
///
/// Trusted: the parser reads its argument and nothing else, and returns on
/// every text, so its outcome is a function of the text, here named
/// `parse_outcome`.
#[verifier::external_body]
pub(crate) fn parse_triple(text: &str) -> (outcome: Result<Triple, ParseError>)
    ensures
        outcome == parse_outcome(text@),
{
    Triple::from_str(text)
}

/// Calls `TargetPredicate::matches` with a `Triple` as the target.
///
/// Trusted: the matcher reads the predicate and the triple and nothing
/// else, and answers for every pair, so its answer is a function of the two,
/// here named `predicate_holds`.
#[verifier::external_body]
pub(crate) fn triple_matches(predicate: &TargetPredicate<'_>, triple: &Triple) -> (holds: bool)
    ensures
        holds == predicate_holds(*predicate, *triple),
{
    predicate.matches(triple)
}

/// `Triple` derives `Clone`: the copy equals the triple it was made from.
pub assume_specification[ <Triple as Clone>::clone ](triple: &Triple) -> (copy: Triple)
    ensures
        copy == *triple,
;

/// `ParseError` derives `Clone`: the copy equals the error it was made from.
pub assume_specification[ <ParseError as Clone>::clone ](err: &ParseError) -> (copy: ParseError)
    ensures
        copy == *err,
;

} // verus!
