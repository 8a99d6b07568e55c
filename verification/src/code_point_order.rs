//! The lexicographic order of texts by their characters, and the proof that
//! the order of their UTF-8 bytes is the same order.
//!
//! UTF-8 was designed for this: of two characters, the one with the smaller
//! code point has the encoding that stands first byte-wise, and no encoding
//! is the beginning of another.

use crate::byte_order::{lemma_precedes_asymmetric, precedes, precedes_at};
use vstd::prelude::*;
use vstd::utf8::{
    char_is_scalar, char_u32_cast, encode_scalar, encode_utf8, has_width_1_encoding, has_width_2_encoding,
    has_width_3_encoding, has_width_4_encoding, is_scalar, last_continuation_byte,
    leading_byte_width_1, leading_byte_width_2, leading_byte_width_3, leading_byte_width_4,
    second_last_continuation_byte, third_last_continuation_byte,
};

verus! {

/// `a` and `b` hold the same characters at every place below `k`.
pub open spec fn common_chars(a: Seq<char>, b: Seq<char>, k: int) -> bool {
    &&& 0 <= k <= a.len()
    &&& k <= b.len()
    &&& forall|i: int| 0 <= i < k ==> a[i] == b[i]
}

/// `a` and `b` agree below `k`, and at `k` either `a` ends while `b` goes on,
/// or `a` holds the character with the smaller code point.
pub open spec fn chars_precede_at(a: Seq<char>, b: Seq<char>, k: int) -> bool {
    &&& common_chars(a, b, k)
    &&& k < b.len()
    &&& k < a.len() ==> (a[k] as u32) < (b[k] as u32)
}

/// `a` stands strictly before `b` in the order by code points.
pub open spec fn chars_precede(a: Seq<char>, b: Seq<char>) -> bool {
    exists|k: int| chars_precede_at(a, b, k)
}

/// `e` and `f` agree below `j` and `e` holds the smaller byte at `j`.
pub open spec fn smaller_at(e: Seq<u8>, f: Seq<u8>, j: int) -> bool {
    &&& 0 <= j < e.len()
    &&& j < f.len()
    &&& forall|i: int| 0 <= i < j ==> e[i] == f[i]
    &&& e[j] < f[j]
}

proof fn lemma_leading_bytes_by_width(c: u32, d: u32)
    by (bit_vector)
    requires
        is_scalar(c),
        is_scalar(d),
    ensures
        has_width_1_encoding(c) && !has_width_1_encoding(d) ==> leading_byte_width_1(c) < 0xC0,
        has_width_2_encoding(d) ==> 0xC0 <= leading_byte_width_2(d) < 0xE0,
        has_width_3_encoding(d) ==> 0xE0 <= leading_byte_width_3(d) < 0xF0,
        has_width_4_encoding(d) ==> 0xF0 <= leading_byte_width_4(d),
{
}

proof fn lemma_width_1_ordered(c: u32, d: u32)
    by (bit_vector)
    requires
        has_width_1_encoding(c),
        has_width_1_encoding(d),
        c < d,
    ensures
        leading_byte_width_1(c) < leading_byte_width_1(d),
{
}

proof fn lemma_width_2_ordered(c: u32, d: u32)
    by (bit_vector)
    requires
        has_width_2_encoding(c),
        has_width_2_encoding(d),
        c < d,
    ensures
        leading_byte_width_2(c) <= leading_byte_width_2(d),
        leading_byte_width_2(c) == leading_byte_width_2(d) ==> last_continuation_byte(c)
            < last_continuation_byte(d),
{
}

proof fn lemma_width_3_ordered(c: u32, d: u32)
    by (bit_vector)
    requires
        has_width_3_encoding(c),
        has_width_3_encoding(d),
        c < d,
    ensures
        leading_byte_width_3(c) <= leading_byte_width_3(d),
        leading_byte_width_3(c) == leading_byte_width_3(d) ==> second_last_continuation_byte(c)
            <= second_last_continuation_byte(d),
        leading_byte_width_3(c) == leading_byte_width_3(d) && second_last_continuation_byte(c)
            == second_last_continuation_byte(d) ==> last_continuation_byte(c)
            < last_continuation_byte(d),
{
}

proof fn lemma_width_4_ordered(c: u32, d: u32)
    by (bit_vector)
    requires
        has_width_4_encoding(c),
        has_width_4_encoding(d),
        c < d,
    ensures
        leading_byte_width_4(c) <= leading_byte_width_4(d),
        leading_byte_width_4(c) == leading_byte_width_4(d) ==> third_last_continuation_byte(c)
            <= third_last_continuation_byte(d),
        leading_byte_width_4(c) == leading_byte_width_4(d) && third_last_continuation_byte(c)
            == third_last_continuation_byte(d) ==> second_last_continuation_byte(c)
            <= second_last_continuation_byte(d),
        leading_byte_width_4(c) == leading_byte_width_4(d) && third_last_continuation_byte(c)
            == third_last_continuation_byte(d) && second_last_continuation_byte(c)
            == second_last_continuation_byte(d) ==> last_continuation_byte(c)
            < last_continuation_byte(d),
{
}

/// Of two scalar values, the smaller has the encoding that holds the smaller
/// byte at the first place where the two encodings differ, and there is such
/// a place.
pub proof fn lemma_scalar_encodings_ordered(c: u32, d: u32)
    requires
        is_scalar(c),
        is_scalar(d),
        c < d,
    ensures
        exists|j: int| smaller_at(encode_scalar(c), encode_scalar(d), j),
{
    let e = encode_scalar(c);
    let f = encode_scalar(d);
    lemma_leading_bytes_by_width(c, d);
    lemma_leading_bytes_by_width(d, c);
    if has_width_1_encoding(d) {
        lemma_width_1_ordered(c, d);
        assert(smaller_at(e, f, 0));
    } else if has_width_1_encoding(c) {
        assert(smaller_at(e, f, 0));
    } else if has_width_2_encoding(d) {
        lemma_width_2_ordered(c, d);
        if e[0] < f[0] {
            assert(smaller_at(e, f, 0));
        } else {
            assert(smaller_at(e, f, 1));
        }
    } else if has_width_2_encoding(c) {
        assert(smaller_at(e, f, 0));
    } else if has_width_3_encoding(d) {
        lemma_width_3_ordered(c, d);
        if e[0] < f[0] {
            assert(smaller_at(e, f, 0));
        } else if e[1] < f[1] {
            assert(smaller_at(e, f, 1));
        } else {
            assert(smaller_at(e, f, 2));
        }
    } else if has_width_3_encoding(c) {
        assert(smaller_at(e, f, 0));
    } else {
        lemma_width_4_ordered(c, d);
        if e[0] < f[0] {
            assert(smaller_at(e, f, 0));
        } else if e[1] < f[1] {
            assert(smaller_at(e, f, 1));
        } else if e[2] < f[2] {
            assert(smaller_at(e, f, 2));
        } else {
            assert(smaller_at(e, f, 3));
        }
    }
}

/// Behind a common beginning, two texts stand to each other as their
/// remainders do.
pub proof fn lemma_precedes_behind_common_beginning(e: Seq<u8>, x: Seq<u8>, y: Seq<u8>)
    ensures
        precedes(e + x, e + y) == precedes(x, y),
{
    if precedes(x, y) {
        let k = choose|k: int| precedes_at(x, y, k);
        assert(precedes_at(e + x, e + y, k + e.len()));
    }
    if precedes(e + x, e + y) {
        let k = choose|k: int| precedes_at(e + x, e + y, k);
        if k < e.len() {
            assert((e + x)[k] == (e + y)[k]);
        }
        assert(precedes_at(x, y, k - e.len())) by {
            assert forall|i: int| 0 <= i < k - e.len() implies x[i] == y[i] by {
                assert((e + x)[i + e.len()] == (e + y)[i + e.len()]);
            }
            if k - e.len() < x.len() {
                assert((e + x)[k] == x[k - e.len()]);
                assert((e + y)[k] == y[k - e.len()]);
            }
        }
    }
}

/// Behind a common first character, two texts stand to each other as their
/// remainders do.
pub proof fn lemma_chars_precede_behind_common_first(a: Seq<char>, b: Seq<char>)
    requires
        a.len() > 0,
        b.len() > 0,
        a[0] == b[0],
    ensures
        chars_precede(a, b) == chars_precede(a.drop_first(), b.drop_first()),
{
    let x = a.drop_first();
    let y = b.drop_first();
    if chars_precede(x, y) {
        let k = choose|k: int| chars_precede_at(x, y, k);
        assert(chars_precede_at(a, b, k + 1)) by {
            assert forall|i: int| 0 <= i < k + 1 implies a[i] == b[i] by {
                if i > 0 {
                    assert(x[i - 1] == y[i - 1]);
                }
            }
        }
    }
    if chars_precede(a, b) {
        let k = choose|k: int| chars_precede_at(a, b, k);
        assert(chars_precede_at(x, y, k - 1)) by {
            assert forall|i: int| 0 <= i < k - 1 implies x[i] == y[i] by {
                assert(a[i + 1] == b[i + 1]);
            }
        }
    }
}

/// The order of two texts by their UTF-8 bytes is their order by code points.
pub proof fn lemma_byte_order_is_code_point_order(a: Seq<char>, b: Seq<char>)
    ensures
        precedes(encode_utf8(a), encode_utf8(b)) == chars_precede(a, b),
    decreases a.len(),
{
    let bytes_a = encode_utf8(a);
    let bytes_b = encode_utf8(b);
    if b.len() == 0 {
        if precedes(bytes_a, bytes_b) {
            let k = choose|k: int| precedes_at(bytes_a, bytes_b, k);
            assert(false);
        }
        if chars_precede(a, b) {
            let k = choose|k: int| chars_precede_at(a, b, k);
            assert(false);
        }
    } else if a.len() == 0 {
        assert(precedes_at(bytes_a, bytes_b, 0));
        assert(chars_precede_at(a, b, 0));
    } else {
        let c = a[0] as u32;
        let d = b[0] as u32;
        let rest_a = encode_utf8(a.drop_first());
        let rest_b = encode_utf8(b.drop_first());
        char_is_scalar(a[0]);
        char_is_scalar(b[0]);
        if c == d {
            assert(a[0] == b[0]) by {
                char_u32_cast(a[0], c);
                char_u32_cast(b[0], d);
            }
            lemma_byte_order_is_code_point_order(a.drop_first(), b.drop_first());
            lemma_precedes_behind_common_beginning(encode_scalar(c), rest_a, rest_b);
            lemma_chars_precede_behind_common_first(a, b);
        } else if c < d {
            lemma_scalar_encodings_ordered(c, d);
            let j = choose|j: int| smaller_at(encode_scalar(c), encode_scalar(d), j);
            assert(precedes_at(bytes_a, bytes_b, j));
            assert(chars_precede_at(a, b, 0));
        } else {
            lemma_scalar_encodings_ordered(d, c);
            let j = choose|j: int| smaller_at(encode_scalar(d), encode_scalar(c), j);
            assert(precedes_at(bytes_b, bytes_a, j));
            lemma_precedes_asymmetric(bytes_b, bytes_a);
            if chars_precede(a, b) {
                let k = choose|k: int| chars_precede_at(a, b, k);
                if k > 0 {
                    assert(a[0] == b[0]);
                }
                assert(false);
            }
        }
    }
}

} // verus!
