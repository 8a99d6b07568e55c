//! What Verus is told of std's hashing of strings.

use core::hash::{Hash, Hasher};
use vstd::prelude::*;

verus! {

/// `String` hashes itself into the hasher it is given. The hasher is the
/// caller's, so nothing is claimed of its state afterwards.
pub assume_specification<H: Hasher>[ <String as Hash>::hash::<H> ](text: &String, state: &mut H);

} // verus!
