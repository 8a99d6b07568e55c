//! The error that construction of a target reports.

use cfg_expr::target_lexicon::ParseError;
use vstd::prelude::*;

verus! {

/// A triple string that `target-lexicon` does not know, together with the
/// reason that it gave.
#[derive(Clone, Debug, PartialEq, Eq)]
pub struct SingleTargetParseError {
    triple_str: String,
    lexicon_err: ParseError,
}

impl SingleTargetParseError {
    /// The text that was rejected.
    pub closed spec fn input(&self) -> Seq<char> {
        self.triple_str@
    }

    /// The reason that the text was rejected.
    pub closed spec fn cause(&self) -> ParseError {
        self.lexicon_err
    }

    /// Pairs a rejected triple string with the reason for its rejection.
    pub fn new(triple_str: String, lexicon_err: ParseError) -> (err: Self)
        ensures
            err.input() == triple_str@,
            err.cause() == lexicon_err,
    {
        SingleTargetParseError { triple_str, lexicon_err }
    }

    /// Returns the triple string that could not be parsed, exactly as given.
    pub fn triple_str(&self) -> (text: &str)
        ensures
            text@ == self.input(),
    {
        self.triple_str.as_str()
    }

    /// Returns the reason that `target-lexicon` gave.
    pub fn lexicon_err(&self) -> (cause: &ParseError)
        ensures
            *cause == self.cause(),
    {
        &self.lexicon_err
    }
}

} // verus!
