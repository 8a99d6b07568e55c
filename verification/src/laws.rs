//! What holds of every target, whatever triple string it was built from.
//!
//! Each statement is over the triple string (the view of a target), the
//! outcome of `target-lexicon`'s parser on it, and the lexicographic order
//! of its UTF-8 bytes: the terms in which the operations of `SingleTarget`
//! are specified.

use crate::byte_order::{
    lemma_equal_iff_same, lemma_order_reverses, lemma_precedes_asymmetric, lemma_precedes_total,
    lemma_precedes_transitive, precedes,
};
use crate::code_point_order::{chars_precede, lemma_byte_order_is_code_point_order};
use crate::errors::SingleTargetParseError;
use crate::lexicon::parse_outcome;
use crate::single_target::{constructs, SingleTarget};
use core::cmp::Ordering;
use vstd::prelude::*;
use vstd::std_specs::cmp::{PartialEqSpec, PartialOrdSpec};
use vstd::utf8::{decode_utf8, encode_utf8, encode_utf8_decode_utf8};

verus! {

/// Two texts with the same UTF-8 bytes are the same text.
pub proof fn lemma_same_bytes_same_text(a: Seq<char>, b: Seq<char>)
    requires
        encode_utf8(a) == encode_utf8(b),
    ensures
        a == b,
{
    encode_utf8_decode_utf8(a);
    encode_utf8_decode_utf8(b);
    assert(decode_utf8(encode_utf8(a)) == decode_utf8(encode_utf8(b)));
}

/// A triple string that `target-lexicon` accepts always gives a target, and
/// the target holds exactly that string.
pub proof fn law_round_trip(text: Seq<char>, outcome: Result<SingleTarget, SingleTargetParseError>)
    requires
        parse_outcome(text) is Ok,
        constructs(text, outcome),
    ensures
        outcome is Ok,
        outcome->Ok_0@ == text,
        outcome->Ok_0.decomposition() == parse_outcome(text)->Ok_0,
{
}

/// A triple string that `target-lexicon` rejects never gives a target, and
/// the error holds exactly that string and the parser's reason.
pub proof fn law_rejection(text: Seq<char>, outcome: Result<SingleTarget, SingleTargetParseError>)
    requires
        parse_outcome(text) is Err,
        constructs(text, outcome),
    ensures
        outcome is Err,
        outcome->Err_0.input() == text,
        outcome->Err_0.cause() == parse_outcome(text)->Err_0,
{
}

/// Equality goes by the text: targets built from the strings `a` and `b` are
/// equal exactly when `a` and `b` are the same text.
pub proof fn law_equal_iff_same_text(a: Seq<char>, b: Seq<char>, x: SingleTarget, y: SingleTarget)
    requires
        constructs(a, Ok(x)),
        constructs(b, Ok(y)),
    ensures
        x.eq_spec(&y) <==> a == b,
{
}

/// Equal targets hold the same text, and so the same UTF-8 bytes: whatever
/// is computed from the triple string alone comes out the same for both.
pub proof fn law_equal_targets_hold_same_bytes(x: SingleTarget, y: SingleTarget)
    requires
        x.eq_spec(&y),
    ensures
        x@ == y@,
        x.bytes() == y.bytes(),
        x.decomposition() == y.decomposition(),
{
}

/// Any two targets are comparable, and in exactly one way.
pub proof fn law_order_total(x: SingleTarget, y: SingleTarget)
    ensures
        x.partial_cmp_spec(&y) is Some,
        x.partial_cmp_spec(&y) == Some(Ordering::Less) <==> precedes(x.bytes(), y.bytes()),
        x.partial_cmp_spec(&y) == Some(Ordering::Greater) <==> precedes(y.bytes(), x.bytes()),
        x.partial_cmp_spec(&y) == Some(Ordering::Equal) <==> x@ == y@,
{
    lemma_precedes_total(x.bytes(), y.bytes());
    lemma_equal_iff_same(x.bytes(), y.bytes());
    if precedes(x.bytes(), y.bytes()) {
        lemma_precedes_asymmetric(x.bytes(), y.bytes());
    }
    if x.bytes() == y.bytes() {
        lemma_same_bytes_same_text(x@, y@);
    }
}

/// The order is the lexicographic order of the triple strings by code
/// points: a target stands before another exactly when its string is a
/// proper beginning of the other's, or holds the character with the smaller
/// code point at the first place where the two strings differ.
pub proof fn law_order_is_by_code_points(x: SingleTarget, y: SingleTarget)
    ensures
        x.partial_cmp_spec(&y) == Some(Ordering::Less) <==> chars_precede(x@, y@),
        x.partial_cmp_spec(&y) == Some(Ordering::Greater) <==> chars_precede(y@, x@),
        x.partial_cmp_spec(&y) == Some(Ordering::Equal) <==> x@ == y@,
{
    law_order_total(x, y);
    lemma_byte_order_is_code_point_order(x@, y@);
    lemma_byte_order_is_code_point_order(y@, x@);
}

/// The order is antisymmetric: what holds of `x` and `y` holds the other way
/// round of `y` and `x`, so no target stands both before and after another.
pub proof fn law_order_antisymmetric(x: SingleTarget, y: SingleTarget)
    ensures
        x.partial_cmp_spec(&y) == Some(Ordering::Less) <==> y.partial_cmp_spec(&x) == Some(
            Ordering::Greater,
        ),
        x.partial_cmp_spec(&y) == Some(Ordering::Equal) <==> y.partial_cmp_spec(&x) == Some(
            Ordering::Equal,
        ),
        x.partial_cmp_spec(&y) == Some(Ordering::Less) && y.partial_cmp_spec(&x) == Some(
            Ordering::Less,
        ) ==> false,
{
    lemma_order_reverses(x.bytes(), y.bytes());
}

/// The order is transitive.
pub proof fn law_order_transitive(x: SingleTarget, y: SingleTarget, z: SingleTarget)
    requires
        x.partial_cmp_spec(&y) == Some(Ordering::Less),
        y.partial_cmp_spec(&z) == Some(Ordering::Less),
    ensures
        x.partial_cmp_spec(&z) == Some(Ordering::Less),
{
    lemma_precedes_transitive(x.bytes(), y.bytes(), z.bytes());
}

/// Targets that are equal stand at the same place of the order, and the
/// order treats each of them as it treats the other.
pub proof fn law_order_respects_equality(x: SingleTarget, y: SingleTarget, z: SingleTarget)
    requires
        x.eq_spec(&y),
    ensures
        x.partial_cmp_spec(&y) == Some(Ordering::Equal),
        x.partial_cmp_spec(&z) == y.partial_cmp_spec(&z),
        z.partial_cmp_spec(&x) == z.partial_cmp_spec(&y),
{
    law_order_total(x, y);
}

/// Two constructions from one string end alike: both fail with the same
/// input and reason, or both give targets that are equal, that compare as
/// equal, and that decompose into the same structured triple.
pub proof fn law_construction_is_deterministic(
    text: Seq<char>,
    first: Result<SingleTarget, SingleTargetParseError>,
    second: Result<SingleTarget, SingleTargetParseError>,
)
    requires
        constructs(text, first),
        constructs(text, second),
    ensures
        first is Ok <==> second is Ok,
        first is Ok ==> {
            &&& first->Ok_0.eq_spec(&second->Ok_0)
            &&& first->Ok_0.partial_cmp_spec(&second->Ok_0) == Some(Ordering::Equal)
            &&& first->Ok_0.decomposition() == second->Ok_0.decomposition()
        },
        first is Err ==> {
            &&& first->Err_0.input() == second->Err_0.input()
            &&& first->Err_0.cause() == second->Err_0.cause()
        },
{
    if first is Ok {
        law_order_total(first->Ok_0, second->Ok_0);
    }
}

} // verus!
