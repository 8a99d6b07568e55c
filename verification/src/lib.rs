//! Target identities: a target triple kept as the exact text it was given,
//! together with the structured triple that `target-lexicon` reads from it.
//!
//! * [`single_target`] holds [`SingleTarget`]: construction, the accessors,
//!   the match against a `cfg-expr` target predicate, and equality, order
//!   and hash, which all go by the triple string alone.
//! * [`errors`] holds the error that construction reports.
//! * [`byte_order`] defines the lexicographic order of byte strings and
//!   computes it; [`code_point_order`] proves that on UTF-8 it is the order
//!   by code points.
//! * [`laws`] proves what holds of every target.
//! * [`lexicon`] and [`std_hash`] declare what is taken on trust from
//!   `cfg-expr`, `target-lexicon` and std.

pub mod byte_order;
pub mod code_point_order;
pub mod errors;
pub mod laws;
pub mod lexicon;
pub mod single_target;
pub mod std_hash;

pub use errors::SingleTargetParseError;
pub use single_target::SingleTarget;
