//! String helpers: byte and content comparison, and the standard library
//! calls on strings that the compact representation makes.
use vstd::prelude::*;
use vstd::string::StringSliceAdditionalSpecFns;
use vstd::utf8::{decode_utf8, encode_utf8, valid_utf8};
use std::str::Utf8Error;

verus! {

broadcast use vstd::utf8::encode_utf8_decode_utf8;

#[verifier::external_type_specification]
#[verifier::external_body]
pub struct ExUtf8Error(Utf8Error);

/// `std::str::from_utf8`: the bytes as a `&str` when they are valid UTF-8, an error otherwise.
#[verifier::external_body]
pub(crate) fn str_from_utf8(v: &[u8]) -> (r: Result<&str, Utf8Error>)
    ensures
        r is Ok <==> valid_utf8(v@),
        r matches Ok(s) ==> s.spec_bytes() == v@,
{
    std::str::from_utf8(v)
}

/// The characters of a string slice.
pub open spec fn str_view(s: &str) -> Seq<char> {
    s@
}

/// Compare two byte slices element by element.
pub fn bytes_eq(a: &[u8], b: &[u8]) -> (r: bool)
    ensures
        r == (a@ == b@),
{
    if a.len() != b.len() {
        return false;
    }
    let mut i: usize = 0;
    while i < a.len()
        invariant
            a@.len() == b@.len(),
            i <= a@.len(),
            forall|j: int| 0 <= j < i ==> a@[j] == b@[j],
        decreases a@.len() - i,
    {
        if a[i] != b[i] {
            return false;
        }
        i += 1;
    }
    assert(a@ =~= b@);
    true
}

/// Length of the longest common prefix of two byte sequences.
pub open spec fn spec_common_prefix_len(a: Seq<u8>, b: Seq<u8>) -> int
    decreases a.len(),
{
    if a.len() == 0 || b.len() == 0 || a[0] != b[0] {
        0
    } else {
        1 + spec_common_prefix_len(a.drop_first(), b.drop_first())
    }
}

/// A shared prefix that cannot be extended is the longest common prefix.
pub proof fn lemma_common_prefix_len(a: Seq<u8>, b: Seq<u8>, k: int)
    requires
        0 <= k <= a.len(),
        k <= b.len(),
        a.take(k) == b.take(k),
        k == a.len() || k == b.len() || a[k] != b[k],
    ensures
        spec_common_prefix_len(a, b) == k,
    decreases k,
{
    if k > 0 {
        assert(a[0] == a.take(k)[0]);
        assert(b[0] == b.take(k)[0]);
        assert(a.drop_first().take(k - 1) =~= a.take(k).drop_first());
        assert(b.drop_first().take(k - 1) =~= b.take(k).drop_first());
        lemma_common_prefix_len(a.drop_first(), b.drop_first(), k - 1);
    }
}

/// The longest common prefix is a common prefix that cannot be extended.
pub proof fn lemma_common_prefix_props(a: Seq<u8>, b: Seq<u8>)
    ensures
        0 <= spec_common_prefix_len(a, b) <= a.len(),
        spec_common_prefix_len(a, b) <= b.len(),
        a.take(spec_common_prefix_len(a, b)) == b.take(spec_common_prefix_len(a, b)),
        spec_common_prefix_len(a, b) == a.len() || spec_common_prefix_len(a, b) == b.len()
            || a[spec_common_prefix_len(a, b)] != b[spec_common_prefix_len(a, b)],
    decreases a.len(),
{
    if a.len() == 0 || b.len() == 0 || a[0] != b[0] {
        assert(a.take(0) =~= b.take(0));
    } else {
        let k = spec_common_prefix_len(a.drop_first(), b.drop_first());
        lemma_common_prefix_props(a.drop_first(), b.drop_first());
        assert(a.take(k + 1) =~= seq![a[0]] + a.drop_first().take(k));
        assert(b.take(k + 1) =~= seq![b[0]] + b.drop_first().take(k));
    }
}

/// Length of the longest common prefix of two byte slices.
pub fn common_prefix_len(a: &[u8], b: &[u8]) -> (r: usize)
    ensures
        r == spec_common_prefix_len(a@, b@),
        r <= a@.len(),
        r <= b@.len(),
        a@.take(r as int) == b@.take(r as int),
{
    let mut i: usize = 0;
    while i < a.len() && i < b.len()
        invariant
            i <= a@.len(),
            i <= b@.len(),
            a@.take(i as int) == b@.take(i as int),
        decreases a@.len() - i,
    {
        if a[i] != b[i] {
            proof {
                lemma_common_prefix_len(a@, b@, i as int);
            }
            return i;
        }
        proof {
            assert(a@.take(i + 1) =~= a@.take(i as int).push(a@[i as int]));
            assert(b@.take(i + 1) =~= b@.take(i as int).push(b@[i as int]));
        }
        i += 1;
    }
    proof {
        lemma_common_prefix_len(a@, b@, i as int);
    }
    i
}

/// Compare two strings by contents.
pub fn str_eq(a: &str, b: &str) -> (r: bool)
    ensures
        r == (a@ == b@),
{
    let r = bytes_eq(a.as_bytes(), b.as_bytes());
    proof {
        if a.spec_bytes() == b.spec_bytes() {
            assert(decode_utf8(encode_utf8(a@)) == decode_utf8(encode_utf8(b@)));
        }
    }
    r
}

/// Borrow the string held by a `Cow<str>`.
pub fn cow_as_str<'c>(c: &'c std::borrow::Cow<'_, str>) -> (r: &'c str)
    ensures
        r@ == c@,
{
    match c {
        std::borrow::Cow::Borrowed(s) => *s,
        std::borrow::Cow::Owned(s) => s.as_str(),
    }
}

/// `<str as Hash>::hash`: feed the string into the hasher, as `str` does.
#[verifier::external_body]
pub(crate) fn hash_str<H: std::hash::Hasher>(s: &str, state: &mut H) {
    std::hash::Hash::hash(s, state)
}

/// `Box::<str>::from(&str)`: a new boxed copy of `s`.
#[verifier::external_body]
pub(crate) fn box_str_from_str(s: &str) -> (r: Box<str>)
    ensures
        r@ == s@,
{
    Box::from(s)
}

} // verus!
