//! A single target, identified by its triple string.

use crate::byte_order::{compare_bytes, text_order, TextOrder};
use crate::errors::SingleTargetParseError;
use crate::lexicon::{parse_outcome, parse_triple, predicate_holds, triple_matches};
use cfg_expr::target_lexicon::{ParseError, Triple};
use cfg_expr::TargetPredicate;
use core::cmp::Ordering;
use vstd::prelude::*;
use vstd::std_specs::cmp::{PartialEqSpecImpl, PartialOrdSpecImpl};
use vstd::utf8::encode_utf8;

verus! {

/// A single, specific target, uniquely identified by a triple.
///
/// The triple string is kept exactly as it was given. Equality, order and
/// hash go by that string alone; the structured triple serves only to answer
/// target predicates, and is what `target-lexicon` reads from the string.
#[derive(Debug)]
pub struct SingleTarget {
    triple_str: String,
    lexicon_triple: Triple,
}

impl View for SingleTarget {
    type V = Seq<char>;

    /// The triple string.
    closed spec fn view(&self) -> Seq<char> {
        self.triple_str@
    }
}

/// `outcome` is what constructing a target from `text` gives: a target that
/// holds `text` where `target-lexicon` accepts it, and otherwise an error
/// that holds `text` and the reason of the rejection.
pub open spec fn constructs(
    text: Seq<char>,
    outcome: Result<SingleTarget, SingleTargetParseError>,
) -> bool {
    match outcome {
        Ok(target) => parse_outcome(text) is Ok && target@ == text,
        Err(err) => parse_outcome(text) == Err::<Triple, ParseError>(err.cause()) && err.input()
            == text,
    }
}

/// The `Ordering` that stands for a `TextOrder`.
pub open spec fn ordering_of(order: TextOrder) -> Ordering {
    match order {
        TextOrder::Less => Ordering::Less,
        TextOrder::Equal => Ordering::Equal,
        TextOrder::Greater => Ordering::Greater,
    }
}

impl SingleTarget {
    /// The structured triple always is the one that the string decomposes into.
    #[verifier::type_invariant]
    closed spec fn consistent(&self) -> bool {
        parse_outcome(self.triple_str@) == Ok::<Triple, ParseError>(self.lexicon_triple)
    }

    /// The structured triple that the triple string decomposes into.
    pub open spec fn decomposition(&self) -> Triple {
        parse_outcome(self@)->Ok_0
    }

    /// The UTF-8 bytes of the triple string, by which targets are ordered.
    pub open spec fn bytes(&self) -> Seq<u8> {
        encode_utf8(self@)
    }

    /// Builds the target, or the error, from a triple string and what
    /// `target-lexicon` made of it: the string is kept as it is, beside the
    /// structured triple or beside the reason of the rejection.
    pub fn from_parsed(
        triple_str: String,
        parsed: Result<Triple, ParseError>,
    ) -> (outcome: Result<Self, SingleTargetParseError>)
        requires
            parsed == parse_outcome(triple_str@),
        ensures
            constructs(triple_str@, outcome),
    {
        match parsed {
            Ok(lexicon_triple) => Ok(SingleTarget { triple_str, lexicon_triple }),
            Err(lexicon_err) => Err(SingleTargetParseError::new(triple_str, lexicon_err)),
        }
    }

    /// Creates a new `SingleTarget` from a triple string.
    ///
    /// Succeeds exactly on the strings that `target-lexicon` knows. The
    /// string is stored as given, not in the form that `target-lexicon`
    /// would print the triple in.
    pub fn new(triple_str: &str) -> (outcome: Result<Self, SingleTargetParseError>)
        ensures
            constructs(triple_str@, outcome),
    {
        let parsed = parse_triple(triple_str);
        Self::from_parsed(triple_str.to_owned(), parsed)
    }

    /// Returns the triple string corresponding to this target.
    pub fn triple_str(&self) -> (text: &str)
        ensures
            text@ == self@,
    {
        self.triple_str.as_str()
    }

    /// Returns the structured triple that the triple string was parsed into.
    pub fn lexicon_triple(&self) -> (triple: &Triple)
        ensures
            parse_outcome(self@) is Ok,
            *triple == self.decomposition(),
    {
        proof {
            use_type_invariant(self);
        }
        &self.lexicon_triple
    }

    /// Evaluates this target against another one: true exactly when the two
    /// triple strings are the same text.
    pub fn eval(&self, other: &SingleTarget) -> (same: bool)
        ensures
            same == (self@ == other@),
    {
        self == other
    }

    /// Tells whether the target predicate holds of this target.
    pub fn matches(&self, target: &TargetPredicate<'_>) -> (holds: bool)
        ensures
            holds == predicate_holds(*target, self.decomposition()),
    {
        proof {
            use_type_invariant(self);
        }
        triple_matches(target, &self.lexicon_triple)
    }
}

impl PartialEq for SingleTarget {
    /// Two targets are equal when their triple strings are the same text.
    fn eq(&self, other: &Self) -> (same: bool)
        ensures
            same == (self@ == other@),
    {
        self.triple_str == other.triple_str
    }
}

impl PartialEqSpecImpl for SingleTarget {
    open spec fn obeys_eq_spec() -> bool {
        true
    }

    open spec fn eq_spec(&self, other: &Self) -> bool {
        self@ == other@
    }
}

impl Eq for SingleTarget {}

impl PartialOrd for SingleTarget {
    /// Compares the two triple strings byte by byte.
    fn partial_cmp(&self, other: &Self) -> (order: Option<Ordering>)
        ensures
            order == Some(ordering_of(text_order(self.bytes(), other.bytes()))),
    {
        let order = compare_bytes(
            self.triple_str.as_str().as_bytes(),
            other.triple_str.as_str().as_bytes(),
        );
        Some(
            match order {
                TextOrder::Less => Ordering::Less,
                TextOrder::Equal => Ordering::Equal,
                TextOrder::Greater => Ordering::Greater,
            },
        )
    }
}

impl PartialOrdSpecImpl for SingleTarget {
    open spec fn obeys_partial_cmp_spec() -> bool {
        true
    }

    open spec fn partial_cmp_spec(&self, other: &Self) -> Option<Ordering> {
        Some(ordering_of(text_order(self.bytes(), other.bytes())))
    }
}

impl Ord for SingleTarget {
    /// Calls `<str as Ord>::cmp` on the two triple strings.
    ///
    /// Trusted: std orders strings lexicographically by their byte values,
    /// which is the order that `partial_cmp` computes.
    #[verifier::external_body]
    fn cmp(&self, other: &Self) -> (order: Ordering)
        ensures
            order == ordering_of(text_order(self.bytes(), other.bytes())),
    {
        self.triple_str.as_str().cmp(other.triple_str.as_str())
    }
}

impl Clone for SingleTarget {
    /// Copies the triple string and the structured triple.
    fn clone(&self) -> (copy: Self)
        ensures
            copy@ == self@,
    {
        proof {
            use_type_invariant(self);
        }
        SingleTarget {
            triple_str: self.triple_str.clone(),
            lexicon_triple: self.lexicon_triple.clone(),
        }
    }
}

impl core::hash::Hash for SingleTarget {
    /// Feeds the triple string, and nothing else, to the hasher.
    fn hash<H: core::hash::Hasher>(&self, state: &mut H) {
        self.triple_str.hash(state)
    }
}

impl core::str::FromStr for SingleTarget {
    type Err = SingleTargetParseError;

    /// Creates a new `SingleTarget` from a triple string, as `new` does.
    fn from_str(triple_str: &str) -> (outcome: Result<Self, SingleTargetParseError>)
        ensures
            constructs(triple_str@, outcome),
    {
        SingleTarget::new(triple_str)
    }
}

} // verus!
