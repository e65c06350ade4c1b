//! The backend-agnostic compact string engine.
//!
//! This is the layer that decides when a value stays borrowed, becomes
//! inline, or is stored in shared heap-backed form.
use vstd::prelude::*;
use vstd::string::StringSliceAdditionalSpecFns;
use vstd::utf8::{decode_utf8, encode_utf8, is_ascii_chars, valid_utf8};
use vstd::slice::slice_subrange;

use crate::arch::layout::{HASH_VALUE_MASK, INLINE_CAPACITY, IS_ASCII_MASK, MAX_BORROWED_OR_SHARED_LEN, WORD_BYTES};
use crate::arch::{
    encode_len_tag_hash, short_hash, spec_decode_hash, spec_ascii_bit, spec_encode_len_tag_hash, spec_inline_len_of,
    spec_short_hash, spec_tag_of, supports_inline_len, StateTag,
};
use crate::backend::RefCountBackend;
use crate::text::{box_str_from_str, str_eq, str_from_utf8};
use crate::raw::{spec_inline_buffer, spec_len_of, spec_word_le, inline_buffer, RawParts};

mod ops;
pub mod order;

verus! {

broadcast use {
    vstd::utf8::encode_utf8_valid_utf8,
    vstd::utf8::encode_utf8_decode_utf8,
    vstd::utf8::decode_utf8_encode_utf8,
};

/// The state of an owned copy of a value in state `state` with contents `chars`:
/// shared and inline values keep their state, borrowed ones become inline when
/// they fit and shared otherwise.
pub open spec fn spec_owned_state(state: StateTag, chars: Seq<char>) -> StateTag {
    match state {
        StateTag::Borrowed => if encode_utf8(chars).len() <= INLINE_CAPACITY {
            StateTag::Inline
        } else {
            StateTag::Shared
        },
        _ => state,
    }
}

/// Law: an owned copy is never borrowed, and copying it again keeps its state,
/// so promoting a value to `'static` allocates at most once.
pub proof fn law_owned_state_is_stable(state: StateTag, chars: Seq<char>)
    ensures
        spec_owned_state(state, chars) != StateTag::Borrowed,
        spec_owned_state(spec_owned_state(state, chars), chars) == spec_owned_state(state, chars),
        state != StateTag::Borrowed ==> spec_owned_state(state, chars) == state,
{
}

/// Law: an owned copy of a borrowed value is inline exactly when its UTF-8
/// bytes fit the inline capacity, and shared otherwise, whatever the characters.
pub proof fn law_owned_state_of_borrowed(chars: Seq<char>)
    ensures
        (spec_owned_state(StateTag::Borrowed, chars) == StateTag::Inline) <==> encode_utf8(
            chars,
        ).len() <= INLINE_CAPACITY,
        (spec_owned_state(StateTag::Borrowed, chars) == StateTag::Shared) <==> encode_utf8(
            chars,
        ).len() > INLINE_CAPACITY,
{
}

/// Metadata word of a borrowed or shared string with contents `chars`.
pub open spec fn spec_non_inline_meta(chars: Seq<char>, tag: StateTag) -> usize {
    spec_encode_len_tag_hash(encode_utf8(chars).len() as usize, tag, spec_short_hash(encode_utf8(chars)))
        | spec_ascii_bit(is_ascii_chars(chars))
}

/// What the pointer word would reference: the string of a borrowed or shared
/// payload, or the bytes of an inline one.
enum Payload<'a, B: RefCountBackend> {
    Borrowed(&'a str),
    Shared(B::Shared),
    Inline([u8; 16]),
}

/// Internal compact two-word string representation.
///
/// `parts` holds the two words of the representation; `payload` holds what
/// the pointer word stands for. The type parameters keep the borrowed
/// lifetime and the backend choice visible to the compiler.
pub struct RefStrCore<'a, B: RefCountBackend> {
    parts: RawParts,
    payload: Payload<'a, B>,
}

impl<'a, B: RefCountBackend> View for RefStrCore<'a, B> {
    type V = Seq<char>;

    /// The string contents.
    closed spec fn view(&self) -> Seq<char> {
        match self.payload {
            Payload::Borrowed(s) => s@,
            Payload::Shared(h) => B::spec_shared_view(&h),
            Payload::Inline(buf) => decode_utf8(
                buf@.take(spec_inline_len_of(self.parts.spec_meta()) as int),
            ),
        }
    }
}

impl<'a, B: RefCountBackend> RefStrCore<'a, B> {
    /// The storage state: borrowed, shared or inline.
    pub closed spec fn state(&self) -> StateTag {
        match self.payload {
            Payload::Borrowed(_) => StateTag::Borrowed,
            Payload::Shared(_) => StateTag::Shared,
            Payload::Inline(_) => StateTag::Inline,
        }
    }

    /// The metadata word.
    pub closed spec fn spec_meta(&self) -> usize {
        self.parts.spec_meta()
    }

    /// The two words agree with the payload.
    #[verifier::type_invariant]
    closed spec fn wf(self) -> bool {
        match self.payload {
            Payload::Borrowed(s) => {
                &&& self.parts.spec_ptr_word() == 0
                &&& s.spec_bytes().len() <= MAX_BORROWED_OR_SHARED_LEN
                &&& self.parts.spec_meta() == spec_non_inline_meta(s@, StateTag::Borrowed)
            },
            Payload::Shared(h) => {
                &&& self.parts.spec_ptr_word() == 0
                &&& encode_utf8(B::spec_shared_view(&h)).len() <= MAX_BORROWED_OR_SHARED_LEN
                &&& self.parts.spec_meta() == spec_non_inline_meta(
                    B::spec_shared_view(&h),
                    StateTag::Shared,
                )
            },
            Payload::Inline(buf) => {
                let len = spec_inline_len_of(self.parts.spec_meta());
                &&& len <= INLINE_CAPACITY
                &&& valid_utf8(buf@.take(len as int))
                &&& buf@ == spec_inline_buffer(
                    buf@.take(len as int),
                    is_ascii_chars(decode_utf8(buf@.take(len as int))),
                )
                &&& self.parts.spec_ptr_word() == spec_word_le(buf@, 0)
                &&& self.parts.spec_meta() == spec_word_le(buf@, WORD_BYTES as int)
            },
        }
    }

    /// What the metadata word of a well-formed value records.
    proof fn lemma_meta(self)
        requires
            self.wf(),
        ensures
            spec_tag_of(self.spec_meta()) == Some(self.state()),
            spec_len_of(self.spec_meta()) == encode_utf8(self@).len(),
            (self.spec_meta() & IS_ASCII_MASK != 0) == is_ascii_chars(self@),
            encode_utf8(self@).len() <= MAX_BORROWED_OR_SHARED_LEN,
            self.state() == StateTag::Inline ==> encode_utf8(self@).len() <= INLINE_CAPACITY,
            self.state() != StateTag::Inline ==> spec_decode_hash(self.spec_meta()) == (
            spec_short_hash(encode_utf8(self@)) as usize) & HASH_VALUE_MASK,
    {
        crate::arch::layout::lemma_layout_values();
        match self.payload {
            Payload::Borrowed(s) => {
                crate::arch::law_encode_decode_roundtrip(
                    encode_utf8(s@).len() as usize,
                    StateTag::Borrowed,
                    spec_short_hash(encode_utf8(s@)),
                    is_ascii_chars(s@),
                );
            },
            Payload::Shared(h) => {
                let v = B::spec_shared_view(&h);
                crate::arch::law_encode_decode_roundtrip(
                    encode_utf8(v).len() as usize,
                    StateTag::Shared,
                    spec_short_hash(encode_utf8(v)),
                    is_ascii_chars(v),
                );
            },
            Payload::Inline(buf) => {
                let len = spec_inline_len_of(self.parts.spec_meta());
                let prefix = buf@.take(len as int);
                let ascii = is_ascii_chars(decode_utf8(prefix));
                crate::raw::lemma_word_le_top_byte(buf@, WORD_BYTES as int);
                assert(buf@[WORD_BYTES * 2 - 1] == crate::arch::spec_inline_tag_byte(len, ascii));
                crate::arch::law_inline_meta(self.parts.spec_meta(), len, ascii);
            },
        }
    }

    /// Compute the metadata word of a borrowed or shared string.
    fn non_inline_meta(s: &str, tag: StateTag) -> (r: usize)
        requires
            s.spec_bytes().len() <= MAX_BORROWED_OR_SHARED_LEN,
            tag != StateTag::Inline,
        ensures
            r == spec_non_inline_meta(s@, tag),
            crate::raw::spec_valid_meta(r),
    {
        let hash = short_hash(s.as_bytes());
        let mut meta = encode_len_tag_hash(s.len(), tag, hash);
        proof {
            crate::arch::law_encode_decode_roundtrip(s.spec_bytes().len() as usize, tag, hash, s.is_ascii());
            assert(meta | 0usize == meta) by (bit_vector);
        }
        if s.is_ascii() {
            meta = meta | IS_ASCII_MASK;
        }
        meta
    }

    /// Construct from a borrowed string.
    pub fn new(s: &'a str) -> (r: Self)
        requires
            s.spec_bytes().len() <= MAX_BORROWED_OR_SHARED_LEN,
        ensures
            r@ == s@,
            r.state() == StateTag::Borrowed,
    {
        Self::from_str(s)
    }

    /// Construct from a borrowed string and cache the state derived from it.
    pub fn from_str(s: &'a str) -> (r: Self)
        requires
            s.spec_bytes().len() <= MAX_BORROWED_OR_SHARED_LEN,
        ensures
            r@ == s@,
            r.state() == StateTag::Borrowed,
    {
        let meta = Self::non_inline_meta(s, StateTag::Borrowed);
        RefStrCore { parts: RawParts::new(0, meta), payload: Payload::Borrowed(s) }
    }

    /// Construct an inline string value.
    fn new_inline(s: &str) -> (r: Self)
        requires
            s.spec_bytes().len() <= INLINE_CAPACITY,
        ensures
            r@ == s@,
            r.state() == StateTag::Inline,
    {
        let buf = inline_buffer(s);
        proof {
            crate::arch::layout::lemma_layout_values();
            assert(buf@.take(s.spec_bytes().len() as int) =~= s.spec_bytes());
        }
        let parts = RawParts::from_inline_buffer(&buf);
        proof {
            let len = s.spec_bytes().len() as usize;
            crate::raw::lemma_word_le_top_byte(buf@, WORD_BYTES as int);
            crate::arch::law_inline_meta(parts.spec_meta(), len, s.is_ascii());
        }
        RefStrCore { parts, payload: Payload::Inline(buf) }
    }

    /// Construct from backend-owned shared storage.
    pub fn from_shared(h: B::Shared) -> (r: Self)
        requires
            encode_utf8(B::spec_shared_view(&h)).len() <= MAX_BORROWED_OR_SHARED_LEN,
        ensures
            r@ == B::spec_shared_view(&h),
            r.state() == StateTag::Shared,
    {
        let meta = Self::non_inline_meta(B::shared_as_str(&h), StateTag::Shared);
        RefStrCore { parts: RawParts::new(0, meta), payload: Payload::Shared(h) }
    }

    /// Construct from backend-owned shared storage when the string fits the
    /// length field, and the empty borrowed value otherwise.
    pub fn from_shared_checked(h: B::Shared) -> (r: Self)
        ensures
            encode_utf8(B::spec_shared_view(&h)).len() <= MAX_BORROWED_OR_SHARED_LEN ==> r@
                == B::spec_shared_view(&h) && r.state() == StateTag::Shared,
            encode_utf8(B::spec_shared_view(&h)).len() > MAX_BORROWED_OR_SHARED_LEN ==> r@
                == Seq::<char>::empty() && r.state() == StateTag::Borrowed,
    {
        if B::shared_as_str(&h).as_bytes().len() <= MAX_BORROWED_OR_SHARED_LEN {
            Self::from_shared(h)
        } else {
            proof {
                reveal_strlit("");
            }
            Self::from_str("")
        }
    }

    /// Construct an owned value from a string, preferring inline storage.
    ///
    /// Strings that fit inline are stored inline; longer ones get new shared storage.
    pub fn from_owned_like(s: &str) -> (r: Self)
        requires
            s.spec_bytes().len() <= MAX_BORROWED_OR_SHARED_LEN,
        ensures
            r@ == s@,
            r.state() == if s.spec_bytes().len() <= INLINE_CAPACITY {
                StateTag::Inline
            } else {
                StateTag::Shared
            },
    {
        if supports_inline_len(s.len()) {
            Self::new_inline(s)
        } else {
            Self::from_shared(B::from_str(s))
        }
    }

    /// Construct from an owned `String`, using inline storage when possible.
    pub(crate) fn from_owned_string(value: String) -> (r: Self)
        requires
            encode_utf8(value@).len() <= MAX_BORROWED_OR_SHARED_LEN,
        ensures
            r@ == value@,
            r.state() == if encode_utf8(value@).len() <= INLINE_CAPACITY {
                StateTag::Inline
            } else {
                StateTag::Shared
            },
    {
        if supports_inline_len(value.as_str().len()) {
            Self::new_inline(value.as_str())
        } else {
            Self::from_shared(B::from_string(value))
        }
    }

    /// Construct from an owned `Box<str>`, using inline storage when possible.
    pub(crate) fn from_owned_boxed_str(value: Box<str>) -> (r: Self)
        requires
            encode_utf8(value@).len() <= MAX_BORROWED_OR_SHARED_LEN,
        ensures
            r@ == value@,
            r.state() == if encode_utf8(value@).len() <= INLINE_CAPACITY {
                StateTag::Inline
            } else {
                StateTag::Shared
            },
    {
        if supports_inline_len((&*value).len()) {
            Self::new_inline(&*value)
        } else {
            Self::from_shared(B::from_boxed_str(value))
        }
    }

    /// The storage state.
    pub fn state_tag(&self) -> (r: StateTag)
        ensures
            r == self.state(),
    {
        proof {
            use_type_invariant(self);
            self.lemma_meta();
        }
        self.parts.tag()
    }

    /// Returns `true` when this value owns shared storage.
    pub fn is_shared(&self) -> (r: bool)
        ensures
            r == (self.state() == StateTag::Shared),
    {
        proof {
            use_type_invariant(self);
            self.lemma_meta();
        }
        self.parts.is_shared()
    }

    /// Returns `true` when this value is a borrowed string.
    pub fn is_borrowed(&self) -> (r: bool)
        ensures
            r == (self.state() == StateTag::Borrowed),
    {
        proof {
            use_type_invariant(self);
            self.lemma_meta();
        }
        self.parts.is_borrowed()
    }

    /// Returns `true` when this value stores an inline short string.
    pub fn is_inline(&self) -> (r: bool)
        ensures
            r == (self.state() == StateTag::Inline),
    {
        proof {
            use_type_invariant(self);
            self.lemma_meta();
        }
        self.parts.is_inline()
    }

    /// Returns `true` when the contents are ASCII-only, as cached at construction.
    pub fn is_ascii(&self) -> (r: bool)
        ensures
            r == is_ascii_chars(self@),
    {
        proof {
            use_type_invariant(self);
            self.lemma_meta();
        }
        self.parts.is_ascii()
    }

    /// Returns the string length in bytes.
    pub fn len(&self) -> (r: usize)
        ensures
            r == encode_utf8(self@).len(),
            r <= MAX_BORROWED_OR_SHARED_LEN,
            self.state() == StateTag::Inline ==> r <= INLINE_CAPACITY,
    {
        proof {
            use_type_invariant(self);
            self.lemma_meta();
        }
        self.parts.len()
    }

    /// Returns `true` when the string is empty.
    pub fn is_empty(&self) -> (r: bool)
        ensures
            r == (self@.len() == 0),
    {
        proof {
            if self@.len() != 0 {
                vstd::utf8::encode_utf8_first_scalar(self@);
            }
        }
        self.len() == 0
    }

    /// Borrow the contents as `&str`.
    pub fn as_str(&self) -> (r: &str)
        ensures
            r@ == self@,
    {
        proof {
            use_type_invariant(self);
            self.lemma_meta();
        }
        match &self.payload {
            Payload::Borrowed(s) => *s,
            Payload::Shared(h) => B::shared_as_str(h),
            Payload::Inline(buf) => {
                let len = self.parts.len();
                let bytes = slice_subrange(buf.as_slice(), 0, len);
                match str_from_utf8(bytes) {
                    Ok(s) => s,
                    Err(_) => vstd::pervasive::unreached(),
                }
            },
        }
    }

    /// Convert a possibly borrowed value into an owned `'static` value.
    ///
    /// Shared values take one more handle on their storage and inline values
    /// are copied; borrowed values are copied into inline storage when they
    /// fit and into new shared storage otherwise.
    pub fn to_static_core(&self) -> (r: RefStrCore<'static, B>)
        ensures
            r@ == self@,
            r.state() == spec_owned_state(self.state(), self@),
            self.state() == StateTag::Borrowed ==> (r.state() == StateTag::Inline
                <==> encode_utf8(self@).len() <= INLINE_CAPACITY),
            self.state() == StateTag::Borrowed ==> (r.state() == StateTag::Shared
                <==> encode_utf8(self@).len() > INLINE_CAPACITY),
            self.state() != StateTag::Borrowed ==> r.state() == self.state(),
    {
        proof {
            use_type_invariant(self);
            self.lemma_meta();
        }
        match &self.payload {
            Payload::Shared(h) => RefStrCore {
                parts: self.parts,
                payload: Payload::Shared(B::clone_shared(h)),
            },
            Payload::Inline(buf) => RefStrCore { parts: self.parts, payload: Payload::Inline(*buf) },
            Payload::Borrowed(s) => {
                if supports_inline_len(s.len()) {
                    RefStrCore::new_inline(*s)
                } else {
                    RefStrCore::from_shared(B::from_str(*s))
                }
            },
        }
    }

    /// Convert this value into an owned `'static` value.
    ///
    /// Shared and inline values are transferred as they are; borrowed values
    /// are copied into inline storage when they fit and into new shared
    /// storage otherwise.
    pub fn into_static_core(self) -> (r: RefStrCore<'static, B>)
        ensures
            r@ == self@,
            r.state() == spec_owned_state(self.state(), self@),
            self.state() == StateTag::Borrowed ==> (r.state() == StateTag::Inline
                <==> encode_utf8(self@).len() <= INLINE_CAPACITY),
            self.state() == StateTag::Borrowed ==> (r.state() == StateTag::Shared
                <==> encode_utf8(self@).len() > INLINE_CAPACITY),
            self.state() != StateTag::Borrowed ==> r.state() == self.state(),
    {
        proof {
            use_type_invariant(&self);
            self.lemma_meta();
        }
        let parts = self.parts;
        match self.payload {
            Payload::Shared(h) => RefStrCore { parts, payload: Payload::Shared(h) },
            Payload::Inline(buf) => RefStrCore { parts, payload: Payload::Inline(buf) },
            Payload::Borrowed(s) => {
                if supports_inline_len(s.len()) {
                    RefStrCore::new_inline(s)
                } else {
                    RefStrCore::from_shared(B::from_str(s))
                }
            },
        }
    }

    /// Consume the value and return its UTF-8 bytes.
    pub fn into_bytes(self) -> (r: Vec<u8>)
        ensures
            r@ == encode_utf8(self@),
    {
        vstd::slice::slice_to_vec(self.as_str().as_bytes())
    }

    /// Consume the value and return a `Box<str>` with the same contents.
    pub fn into_boxed_str(self) -> (r: Box<str>)
        ensures
            r@ == self@,
    {
        box_str_from_str(self.as_str())
    }

    /// Consume the value and return a `String` with the same contents.
    pub fn into_string(self) -> (r: String)
        ensures
            r@ == self@,
    {
        self.as_str().to_owned()
    }

    /// Consume the value and return a `Cow<str>`: borrowed values stay
    /// borrowed, inline and shared values become owned strings.
    pub fn into_cow(self) -> (r: std::borrow::Cow<'a, str>)
        ensures
            r@ == self@,
            r is Borrowed <==> self.state() == StateTag::Borrowed,
    {
        match self.payload {
            Payload::Borrowed(s) => std::borrow::Cow::Borrowed(s),
            _ => std::borrow::Cow::Owned(self.into_string()),
        }
    }

    /// Borrow as `Cow<str>`, avoiding allocation for borrowed values.
    ///
    /// A borrowed value yields the borrowed string itself, for the full
    /// lifetime `'a`; inline and shared values are copied into an owned string.
    pub fn as_cow(&self) -> (r: std::borrow::Cow<'a, str>)
        ensures
            r@ == self@,
            r is Borrowed <==> self.state() == StateTag::Borrowed,
    {
        match &self.payload {
            Payload::Borrowed(s) => std::borrow::Cow::Borrowed(*s),
            _ => std::borrow::Cow::Owned(self.as_str().to_owned()),
        }
    }

    /// Compare two values by contents.
    ///
    /// When neither value is inline, differing cached hashes or lengths
    /// decide without looking at the bytes.
    pub fn eq_core<'b>(&self, other: &RefStrCore<'b, B>) -> (r: bool)
        ensures
            r == (self@ == other@),
    {
        proof {
            use_type_invariant(self);
            use_type_invariant(other);
            self.lemma_meta();
            other.lemma_meta();
        }
        if self.is_inline() || other.is_inline() {
            return str_eq(self.as_str(), other.as_str());
        }
        if self.parts.cached_hash() != other.parts.cached_hash() {
            return false;
        }
        if self.len() != other.len() {
            return false;
        }
        str_eq(self.as_str(), other.as_str())
    }

    /// Hand out the shared storage handle, only when the value is shared.
    ///
    /// Borrowed and inline values give `None`, so the result never stands for
    /// borrowed data.
    pub fn into_raw_shared(self) -> (r: Option<B::Shared>)
        ensures
            r is Some <==> self.state() == StateTag::Shared,
            r matches Some(h) ==> B::spec_shared_view(&h) == self@,
    {
        match self.payload {
            Payload::Shared(h) => Some(h),
            _ => None,
        }
    }

    /// Convert a borrowed value into the string it borrows, for the full lifetime `'a`.
    pub fn into_str_unchecked(self) -> (r: &'a str)
        requires
            self.state() == StateTag::Borrowed,
        ensures
            r@ == self@,
    {
        match self.payload {
            Payload::Borrowed(s) => s,
            _ => vstd::pervasive::unreached(),
        }
    }

    /// Move this value to another backend.
    ///
    /// Borrowed and inline values are transferred as they are; shared values
    /// are copied into new storage of the target backend.
    pub fn into_backend<C: RefCountBackend>(self) -> (r: RefStrCore<'a, C>)
        ensures
            r@ == self@,
            r.state() == self.state(),
    {
        proof {
            use_type_invariant(&self);
            self.lemma_meta();
        }
        let parts = self.parts;
        match self.payload {
            Payload::Borrowed(s) => RefStrCore { parts, payload: Payload::Borrowed(s) },
            Payload::Inline(buf) => RefStrCore { parts, payload: Payload::Inline(buf) },
            Payload::Shared(h) => RefStrCore::from_shared(C::from_str(B::shared_as_str(&h))),
        }
    }

    /// Render the value for debugging: `RefStrCore("...")`, or with
    /// `alternate` a struct rendering with its state, length and contents.
    pub fn debug_string(&self, alternate: bool) -> (r: String)
        ensures
            r@ == crate::fmt::spec_debug_render(
                "RefStrCore"@,
                self.state(),
                encode_utf8(self@).len(),
                self@,
                alternate,
            ),
    {
        crate::fmt::debug_render("RefStrCore", self.state_tag(), self.len(), self.as_str(), alternate)
    }

    /// Clone the value: shared storage gains one more handle, the other states are copied.
    pub fn clone_core(&self) -> (r: Self)
        ensures
            r@ == self@,
            r.state() == self.state(),
    {
        proof {
            use_type_invariant(self);
        }
        let payload = match &self.payload {
            Payload::Borrowed(s) => Payload::Borrowed(*s),
            Payload::Shared(h) => Payload::Shared(B::clone_shared(h)),
            Payload::Inline(buf) => Payload::Inline(*buf),
        };
        RefStrCore { parts: self.parts, payload }
    }
}

impl<B: RefCountBackend> RefStrCore<'static, B> {
    /// Construct a `'static` value from a borrowed `'static` string.
    pub fn from_static(s: &'static str) -> (r: Self)
        requires
            s.spec_bytes().len() <= MAX_BORROWED_OR_SHARED_LEN,
        ensures
            r@ == s@,
            r.state() == StateTag::Borrowed,
    {
        Self::from_str(s)
    }

    /// Return the borrowed `'static` string if this value is borrowed.
    pub fn borrowed_static_str(&self) -> (r: Option<&'static str>)
        ensures
            r is Some <==> self.state() == StateTag::Borrowed,
            r matches Some(s) ==> s@ == self@,
    {
        match &self.payload {
            Payload::Borrowed(s) => Some(*s),
            _ => None,
        }
    }
}

} // verus!
