//! The lexicographic order on byte sequences, which is the order that Rust
//! gives to strings: a string stands before another when it is a proper
//! prefix of it, or when it holds the smaller byte at the first place where
//! the two differ.

use vstd::prelude::*;

verus! {

/// How one text stands to another in the lexicographic order.
#[derive(Clone, Copy, Debug, PartialEq, Eq, Structural)]
pub enum TextOrder {
    Less,
    Equal,
    Greater,
}

/// `a` and `b` hold the same bytes at every place below `k`.
pub open spec fn common_prefix(a: Seq<u8>, b: Seq<u8>, k: int) -> bool {
    &&& 0 <= k <= a.len()
    &&& k <= b.len()
    &&& forall|i: int| 0 <= i < k ==> a[i] == b[i]
}

/// `a` and `b` agree below `k`, and at `k` either `a` ends while `b` goes on,
/// or `a` holds the smaller byte.
pub open spec fn precedes_at(a: Seq<u8>, b: Seq<u8>, k: int) -> bool {
    &&& common_prefix(a, b, k)
    &&& k < b.len()
    &&& k < a.len() ==> a[k] < b[k]
}

/// `a` stands strictly before `b`.
pub open spec fn precedes(a: Seq<u8>, b: Seq<u8>) -> bool {
    exists|k: int| precedes_at(a, b, k)
}

/// The three-way comparison of `a` with `b`.
pub open spec fn text_order(a: Seq<u8>, b: Seq<u8>) -> TextOrder {
    if precedes(a, b) {
        TextOrder::Less
    } else if precedes(b, a) {
        TextOrder::Greater
    } else {
        TextOrder::Equal
    }
}

/// The place that decides between two texts is unique: no text stands both
/// before and after another.
pub proof fn lemma_precedes_asymmetric(a: Seq<u8>, b: Seq<u8>)
    requires
        precedes(a, b),
    ensures
        !precedes(b, a),
{
    let k = choose|k: int| precedes_at(a, b, k);
    if precedes(b, a) {
        let j = choose|j: int| precedes_at(b, a, j);
        if j < k {
            assert(a[j] == b[j]);
        } else if k < j {
            assert(b[k] == a[k]);
        }
        assert(false);
    }
}

/// No text stands before itself.
pub proof fn lemma_precedes_irreflexive(a: Seq<u8>)
    ensures
        !precedes(a, a),
{
    if precedes(a, a) {
        lemma_precedes_asymmetric(a, a);
    }
}

/// What stands before a text stands before all that the text stands before.
pub proof fn lemma_precedes_transitive(a: Seq<u8>, b: Seq<u8>, c: Seq<u8>)
    requires
        precedes(a, b),
        precedes(b, c),
    ensures
        precedes(a, c),
{
    let i = choose|i: int| precedes_at(a, b, i);
    let j = choose|j: int| precedes_at(b, c, j);
    let k = if i <= j { i } else { j };
    assert(common_prefix(a, c, k)) by {
        assert forall|n: int| 0 <= n < k implies a[n] == c[n] by {
            assert(a[n] == b[n]);
            assert(b[n] == c[n]);
        }
    }
    if i < j {
        assert(b[i] == c[i]);
    }
    assert(precedes_at(a, c, k));
}

/// Two texts that agree below `k` are equal, or one stands before the other.
proof fn lemma_decided_from(a: Seq<u8>, b: Seq<u8>, k: int)
    requires
        common_prefix(a, b, k),
    ensures
        precedes(a, b) || a == b || precedes(b, a),
    decreases a.len() - k,
{
    if k == a.len() && k == b.len() {
        assert(a =~= b);
    } else if k == a.len() {
        assert(precedes_at(a, b, k));
    } else if k == b.len() {
        assert(precedes_at(b, a, k));
    } else if a[k] < b[k] {
        assert(precedes_at(a, b, k));
    } else if b[k] < a[k] {
        assert(precedes_at(b, a, k));
    } else {
        lemma_decided_from(a, b, k + 1);
    }
}

/// Any two texts can be compared: they are equal, or one stands before the
/// other.
pub proof fn lemma_precedes_total(a: Seq<u8>, b: Seq<u8>)
    ensures
        precedes(a, b) || a == b || precedes(b, a),
{
    lemma_decided_from(a, b, 0);
}

/// The comparison answers `Equal` for equal texts and for no others.
pub proof fn lemma_equal_iff_same(a: Seq<u8>, b: Seq<u8>)
    ensures
        text_order(a, b) == TextOrder::Equal <==> a == b,
{
    lemma_precedes_total(a, b);
    lemma_precedes_irreflexive(a);
}

/// Exchanging the two texts exchanges `Less` and `Greater`.
pub proof fn lemma_order_reverses(a: Seq<u8>, b: Seq<u8>)
    ensures
        text_order(a, b) == TextOrder::Less <==> text_order(b, a) == TextOrder::Greater,
        text_order(a, b) == TextOrder::Equal <==> text_order(b, a) == TextOrder::Equal,
        text_order(a, b) == TextOrder::Greater <==> text_order(b, a) == TextOrder::Less,
{
    if precedes(a, b) {
        lemma_precedes_asymmetric(a, b);
    }
    if precedes(b, a) {
        lemma_precedes_asymmetric(b, a);
    }
}

/// Compares two byte strings lexicographically.
pub fn compare_bytes(a: &[u8], b: &[u8]) -> (order: TextOrder)
    ensures
        order == text_order(a@, b@),
{
    let shorter: usize = if a.len() < b.len() {
        a.len()
    } else {
        b.len()
    };
    let mut i: usize = 0;
    while i < shorter
        invariant
            i <= shorter,
            shorter <= a.len(),
            shorter <= b.len(),
            common_prefix(a@, b@, i as int),
        decreases shorter - i,
    {
        if a[i] < b[i] {
            proof {
                assert(precedes_at(a@, b@, i as int));
            }
            return TextOrder::Less;
        }
        if a[i] > b[i] {
            proof {
                assert(precedes_at(b@, a@, i as int));
                lemma_precedes_asymmetric(b@, a@);
            }
            return TextOrder::Greater;
        }
        i += 1;
    }
    if a.len() < b.len() {
        proof {
            assert(precedes_at(a@, b@, i as int));
        }
        TextOrder::Less
    } else if a.len() > b.len() {
        proof {
            assert(precedes_at(b@, a@, i as int));
            lemma_precedes_asymmetric(b@, a@);
        }
        TextOrder::Greater
    } else {
        proof {
            assert(a@ =~= b@);
            lemma_precedes_irreflexive(a@);
        }
        TextOrder::Equal
    }
}

} // verus!
