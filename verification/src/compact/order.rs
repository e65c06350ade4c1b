//! Lexicographic order of UTF-8 contents.
use vstd::prelude::*;
use vstd::string::StringSliceAdditionalSpecFns;
use vstd::utf8::encode_utf8;
use core::cmp::Ordering;

use crate::text::{
    common_prefix_len, lemma_common_prefix_len, lemma_common_prefix_props, spec_common_prefix_len,
};

verus! {

/// Lexicographic order of two byte sequences: the first differing byte
/// decides, and a proper prefix comes first.
pub open spec fn lex_order_of(a: Seq<u8>, b: Seq<u8>) -> Ordering
    decreases a.len(),
{
    if a.len() == 0 {
        if b.len() == 0 {
            Ordering::Equal
        } else {
            Ordering::Less
        }
    } else if b.len() == 0 {
        Ordering::Greater
    } else if a[0] < b[0] {
        Ordering::Less
    } else if a[0] > b[0] {
        Ordering::Greater
    } else {
        lex_order_of(a.drop_first(), b.drop_first())
    }
}

/// The first byte after the longest common prefix decides the order; when
/// one sequence is a prefix of the other, the shorter one comes first.
proof fn lemma_lex_order_at_split(a: Seq<u8>, b: Seq<u8>)
    ensures
        ({
            let k = spec_common_prefix_len(a, b);
            &&& 0 <= k <= a.len()
            &&& k <= b.len()
            &&& k < a.len() && k < b.len() ==> a[k] != b[k] && lex_order_of(a, b) == if a[k] < b[k] {
                Ordering::Less
            } else {
                Ordering::Greater
            }
            &&& k == a.len() && k < b.len() ==> lex_order_of(a, b) == Ordering::Less
            &&& k < a.len() && k == b.len() ==> lex_order_of(a, b) == Ordering::Greater
            &&& k == a.len() && k == b.len() ==> lex_order_of(a, b) == Ordering::Equal
        }),
    decreases a.len(),
{
    if a.len() > 0 && b.len() > 0 && a[0] == b[0] {
        lemma_lex_order_at_split(a.drop_first(), b.drop_first());
    }
}

/// The order of two values is `Equal` exactly when they are equal.
pub proof fn lemma_lex_order_equal(a: Seq<u8>, b: Seq<u8>)
    ensures
        (lex_order_of(a, b) == Ordering::Equal) == (a == b),
    decreases a.len(),
{
    if a.len() == 0 || b.len() == 0 {
        if a.len() == 0 && b.len() == 0 {
            assert(a =~= b);
        }
    } else if a[0] != b[0] {
        assert(a != b);
    } else {
        lemma_lex_order_equal(a.drop_first(), b.drop_first());
        assert(a =~= seq![a[0]] + a.drop_first());
        assert(b =~= seq![b[0]] + b.drop_first());
        if a == b {
            assert(a.drop_first() == b.drop_first());
        }
    }
}

/// Law: two strings are ordered `Equal` exactly when their contents are equal.
pub proof fn law_order_equal_iff_same_contents(a: Seq<char>, b: Seq<char>)
    ensures
        (lex_order_of(encode_utf8(a), encode_utf8(b)) == Ordering::Equal) == (a == b),
{
    lemma_lex_order_equal(encode_utf8(a), encode_utf8(b));
    if encode_utf8(a) == encode_utf8(b) {
        vstd::utf8::encode_utf8_decode_utf8(a);
        vstd::utf8::encode_utf8_decode_utf8(b);
    }
}

/// Law: the order is antisymmetric: swapping the operands swaps `Less` and `Greater`.
pub proof fn law_order_antisymmetric(a: Seq<u8>, b: Seq<u8>)
    ensures
        (lex_order_of(a, b) == Ordering::Less) == (lex_order_of(b, a) == Ordering::Greater),
    decreases a.len(),
{
    if a.len() > 0 && b.len() > 0 && a[0] == b[0] {
        law_order_antisymmetric(a.drop_first(), b.drop_first());
    }
}

/// Law: the order is transitive.
pub proof fn law_order_transitive(a: Seq<u8>, b: Seq<u8>, c: Seq<u8>)
    requires
        lex_order_of(a, b) == Ordering::Less,
        lex_order_of(b, c) == Ordering::Less,
    ensures
        lex_order_of(a, c) == Ordering::Less,
    decreases a.len(),
{
    if a.len() > 0 && b.len() > 0 && c.len() > 0 && a[0] == b[0] && b[0] == c[0] {
        law_order_transitive(a.drop_first(), b.drop_first(), c.drop_first());
    }
}

/// Law: `a` comes before `b` exactly when, after some common prefix, `a`
/// ends while `b` goes on or `a` has the smaller byte; the order is `Equal`
/// exactly on equal sequences, and `Greater` exactly when the operands the
/// other way round are in `Less` order.
pub proof fn law_lex_order_first_difference(a: Seq<u8>, b: Seq<u8>)
    ensures
        (lex_order_of(a, b) == Ordering::Less) <==> exists|k: int|
            0 <= k <= a.len() && k <= b.len() && #[trigger] a.take(k) == b.take(k) && ((k == a.len()
                && k < b.len()) || (k < a.len() && k < b.len() && a[k] < b[k])),
        (lex_order_of(a, b) == Ordering::Equal) <==> a == b,
        (lex_order_of(a, b) == Ordering::Greater) <==> (lex_order_of(b, a) == Ordering::Less),
{
    lemma_lex_order_at_split(a, b);
    lemma_common_prefix_props(a, b);
    lemma_lex_order_equal(a, b);
    law_order_antisymmetric(b, a);
    let c = spec_common_prefix_len(a, b);
    if lex_order_of(a, b) == Ordering::Less {
        assert(a.take(c) == b.take(c));
    }
    if exists|k: int|
        0 <= k <= a.len() && k <= b.len() && #[trigger] a.take(k) == b.take(k) && ((k == a.len()
            && k < b.len()) || (k < a.len() && k < b.len() && a[k] < b[k])) {
        let k = choose|k: int|
            0 <= k <= a.len() && k <= b.len() && #[trigger] a.take(k) == b.take(k) && ((k == a.len()
                && k < b.len()) || (k < a.len() && k < b.len() && a[k] < b[k]));
        lemma_common_prefix_len(a, b, k);
    }
}

/// Order two byte slices lexicographically.
pub fn lex_order(a: &[u8], b: &[u8]) -> (r: Ordering)
    ensures
        r == lex_order_of(a@, b@),
{
    let k = common_prefix_len(a, b);
    proof {
        lemma_lex_order_at_split(a@, b@);
    }
    if k < a.len() && k < b.len() {
        if a[k] < b[k] {
            Ordering::Less
        } else {
            Ordering::Greater
        }
    } else if k < a.len() {
        Ordering::Greater
    } else if k < b.len() {
        Ordering::Less
    } else {
        Ordering::Equal
    }
}

/// Order two strings by their UTF-8 bytes, as `str` orders them.
pub fn str_order(a: &str, b: &str) -> (r: Ordering)
    ensures
        r == lex_order_of(a.spec_bytes(), b.spec_bytes()),
{
    lex_order(a.as_bytes(), b.as_bytes())
}

} // verus!
