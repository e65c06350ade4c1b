//! The two-word payload of the compact representation.
use vstd::prelude::*;
use vstd::string::{StringExecFns, StringSliceAdditionalSpecFns};

use crate::arch::layout::{
    INLINE_CAPACITY, INLINE_MASK, INLINE_TOTAL_BYTES, IS_ASCII_MASK, NEEDS_DROP_MASK, WORD_BYTES,
};
use crate::fmt::{
    push_decimal, push_hex, push_hex_fixed, spec_decimal, spec_hex, spec_hex_fixed, spec_state_name,
};
use crate::arch::{
    decode_borrowed_or_shared_len, decode_cached_hash, from_meta, inline_len_from_meta,
    inline_tag_byte, spec_decode_hash, spec_decode_len, spec_inline_len_of, spec_inline_tag_byte,
    spec_meta_top_byte, spec_tag_of, StateTag,
};

verus! {

/// A metadata word that names one of the three states, with an inline
/// length that fits the inline capacity.
pub open spec fn spec_valid_meta(meta: usize) -> bool {
    &&& spec_tag_of(meta) is Some
    &&& spec_tag_of(meta) == Some(StateTag::Inline) ==> spec_inline_len_of(meta) <= INLINE_CAPACITY
}

/// The byte length that a metadata word records.
pub open spec fn spec_len_of(meta: usize) -> usize {
    if spec_tag_of(meta) == Some(StateTag::Inline) {
        spec_inline_len_of(meta)
    } else {
        spec_decode_len(meta)
    }
}

/// The machine word whose little-endian bytes start at `start` in `bytes`.
pub open spec fn spec_word_le(bytes: Seq<u8>, start: int) -> usize {
    if usize::BITS == 64 {
        (bytes[start] as usize) | (bytes[start + 1] as usize) << 8usize | (bytes[start + 2] as usize)
            << 16usize | (bytes[start + 3] as usize) << 24usize | (bytes[start + 4] as usize)
            << 32usize | (bytes[start + 5] as usize) << 40usize | (bytes[start + 6] as usize)
            << 48usize | (bytes[start + 7] as usize) << 56usize
    } else {
        (bytes[start] as usize) | (bytes[start + 1] as usize) << 8usize | (bytes[start + 2] as usize)
            << 16usize | (bytes[start + 3] as usize) << 24usize
    }
}

/// The inline payload of a short string: its bytes, zero padding, and the
/// inline tag byte last; bytes past the two words are zero.
pub open spec fn spec_inline_buffer(bytes: Seq<u8>, is_ascii: bool) -> Seq<u8> {
    Seq::new(
        16,
        |i: int|
            if i < bytes.len() {
                bytes[i]
            } else if i == INLINE_TOTAL_BYTES - 1 {
                spec_inline_tag_byte(bytes.len() as usize, is_ascii)
            } else {
                0u8
            },
    )
}

/// The top byte of the word built from `WORD_BYTES` little-endian bytes is the last of them.
pub(crate) proof fn lemma_word_le_top_byte(bytes: Seq<u8>, start: int)
    requires
        0 <= start,
        start + WORD_BYTES <= bytes.len(),
    ensures
        spec_meta_top_byte(spec_word_le(bytes, start)) == bytes[start + WORD_BYTES - 1],
{
    crate::arch::layout::lemma_layout_values();
    if usize::BITS == 64 {
        let b0 = bytes[start];
        let b1 = bytes[start + 1];
        let b2 = bytes[start + 2];
        let b3 = bytes[start + 3];
        let b4 = bytes[start + 4];
        let b5 = bytes[start + 5];
        let b6 = bytes[start + 6];
        let b7 = bytes[start + 7];
        assert((((b0 as usize) | (b1 as usize) << 8usize | (b2 as usize) << 16usize | (b3 as usize)
            << 24usize | (b4 as usize) << 32usize | (b5 as usize) << 40usize | (b6 as usize)
            << 48usize | (b7 as usize) << 56usize) >> (usize::BITS - 8) as usize) as u8 == b7)
            by (bit_vector)
            requires
                usize::BITS == 64,
        ;
    } else {
        let b0 = bytes[start];
        let b1 = bytes[start + 1];
        let b2 = bytes[start + 2];
        let b3 = bytes[start + 3];
        assert((((b0 as usize) | (b1 as usize) << 8usize | (b2 as usize) << 16usize | (b3 as usize)
            << 24usize) >> (usize::BITS - 8) as usize) as u8 == b3) by (bit_vector)
            requires
                usize::BITS == 32,
        ;
    }
}

/// Build the machine word from the `WORD_BYTES` little-endian bytes at `start`.
fn word_from_le_bytes(buf: &[u8; 16], start: usize) -> (r: usize)
    requires
        start + WORD_BYTES <= 16,
    ensures
        r == spec_word_le(buf@, start as int),
{
    proof {
        crate::arch::layout::lemma_layout_values();
    }
    if usize::BITS == 64 {
        (buf[start] as usize) | (buf[start + 1] as usize) << 8usize | (buf[start + 2] as usize)
            << 16usize | (buf[start + 3] as usize) << 24usize | (buf[start + 4] as usize)
            << 32usize | (buf[start + 5] as usize) << 40usize | (buf[start + 6] as usize)
            << 48usize | (buf[start + 7] as usize) << 56usize
    } else {
        (buf[start] as usize) | (buf[start + 1] as usize) << 8usize | (buf[start + 2] as usize)
            << 16usize | (buf[start + 3] as usize) << 24usize
    }
}

/// Lay out a short string as an inline payload.
pub fn inline_buffer(s: &str) -> (r: [u8; 16])
    requires
        s.spec_bytes().len() <= INLINE_CAPACITY,
    ensures
        r@ == spec_inline_buffer(s.spec_bytes(), s.is_ascii()),
{
    proof {
        crate::arch::layout::lemma_layout_values();
    }
    let bytes = s.as_bytes();
    let len = bytes.len();
    let mut buf = [0u8; 16];
    let mut i: usize = 0;
    while i < len
        invariant
            len == bytes@.len(),
            len <= INLINE_CAPACITY,
            i <= len,
            bytes@ == s.spec_bytes(),
            forall|j: int| 0 <= j < i ==> buf@[j] == bytes@[j],
            forall|j: int| i <= j < 16 ==> buf@[j] == 0u8,
        decreases len - i,
    {
        buf[i] = bytes[i];
        i += 1;
    }
    buf[INLINE_TOTAL_BYTES - 1] = inline_tag_byte(len, s.is_ascii());
    assert(buf@ =~= spec_inline_buffer(s.spec_bytes(), s.is_ascii()));
    buf
}

/// Low-level two-word payload of the compact representation.
///
/// The first word is the pointer word, the second the metadata word. Borrowed
/// and shared payloads keep their string elsewhere and leave the pointer word
/// zero; inline payloads fill both words with the string bytes in
/// little-endian order, the inline tag byte being the top byte of the
/// metadata word.
#[derive(Clone, Copy)]
pub struct RawParts {
    ptr_word: usize,
    meta: usize,
}

impl RawParts {
    #[verifier::type_invariant]
    spec fn meta_is_valid(self) -> bool {
        spec_valid_meta(self.meta)
    }

    /// The pointer word.
    pub closed spec fn spec_ptr_word(self) -> usize {
        self.ptr_word
    }

    /// The metadata word.
    pub closed spec fn spec_meta(self) -> usize {
        self.meta
    }

    /// Build parts from a pointer word and a metadata word.
    ///
    /// The metadata word must name one of the three states, and an inline
    /// length must fit the inline capacity.
    pub fn new(ptr_word: usize, meta: usize) -> (r: Self)
        requires
            spec_valid_meta(meta),
        ensures
            r.spec_ptr_word() == ptr_word,
            r.spec_meta() == meta,
    {
        RawParts { ptr_word, meta }
    }

    /// Build the parts of an inline payload from its bytes.
    pub(crate) fn from_inline_buffer(buf: &[u8; 16]) -> (r: Self)
        requires
            exists|bytes: Seq<u8>, a: bool|
                bytes.len() <= INLINE_CAPACITY && buf@ == spec_inline_buffer(bytes, a),
        ensures
            r.spec_ptr_word() == spec_word_le(buf@, 0),
            r.spec_meta() == spec_word_le(buf@, WORD_BYTES as int),
    {
        proof {
            crate::arch::layout::lemma_layout_values();
        }
        let ptr_word = word_from_le_bytes(buf, 0);
        let meta = word_from_le_bytes(buf, WORD_BYTES);
        proof {
            let (bytes, a) = choose|bytes: Seq<u8>, a: bool|
                bytes.len() <= INLINE_CAPACITY && buf@ == spec_inline_buffer(bytes, a);
            lemma_word_le_top_byte(buf@, WORD_BYTES as int);
            assert(spec_meta_top_byte(meta) == spec_inline_tag_byte(bytes.len() as usize, a));
            crate::arch::law_inline_meta(meta, bytes.len() as usize, a);
        }
        RawParts { ptr_word, meta }
    }

    /// Pack a short string into the inline representation.
    ///
    /// The bytes are stored in the payload itself; the length, the inline
    /// state tag and the ASCII flag go into the last byte.
    pub fn pack_inline(s: &str) -> (r: Self)
        requires
            s.spec_bytes().len() <= INLINE_CAPACITY,
        ensures
            r.spec_ptr_word() == spec_word_le(spec_inline_buffer(s.spec_bytes(), s.is_ascii()), 0),
            r.spec_meta() == spec_word_le(
                spec_inline_buffer(s.spec_bytes(), s.is_ascii()),
                WORD_BYTES as int,
            ),
            spec_tag_of(r.spec_meta()) == Some(StateTag::Inline),
            spec_len_of(r.spec_meta()) == s.spec_bytes().len(),
            (r.spec_meta() & IS_ASCII_MASK != 0) == s.is_ascii(),
    {
        let buf = inline_buffer(s);
        let r = Self::from_inline_buffer(&buf);
        proof {
            crate::arch::layout::lemma_layout_values();
            lemma_word_le_top_byte(buf@, WORD_BYTES as int);
            crate::arch::law_inline_meta(r.meta, s.spec_bytes().len() as usize, s.is_ascii());
        }
        r
    }

    /// Return the pointer word.
    pub fn ptr_word(self) -> (r: usize)
        ensures
            r == self.spec_ptr_word(),
    {
        self.ptr_word
    }

    /// Return the metadata word, which is never zero.
    pub fn meta(self) -> (r: usize)
        ensures
            r == self.spec_meta(),
            spec_valid_meta(r),
            r != 0,
    {
        proof {
            use_type_invariant(self);
            crate::arch::law_state_queries(self.meta);
        }
        self.meta
    }

    /// Return `true` when the payload cached ASCII-only contents.
    pub fn is_ascii(self) -> (r: bool)
        ensures
            r == (self.spec_meta() & IS_ASCII_MASK != 0),
    {
        (self.meta & IS_ASCII_MASK) != 0
    }

    /// Return the cached short hash of a borrowed or shared payload.
    pub fn cached_hash(self) -> (r: usize)
        ensures
            r == spec_decode_hash(self.spec_meta()),
    {
        decode_cached_hash(self.meta)
    }

    /// Return `true` when the payload stores a borrowed string.
    pub fn is_borrowed(self) -> (r: bool)
        ensures
            r == (spec_tag_of(self.spec_meta()) == Some(StateTag::Borrowed)),
    {
        proof {
            use_type_invariant(self);
            crate::arch::law_state_queries(self.meta);
        }
        (self.meta & (INLINE_MASK | NEEDS_DROP_MASK)) == 0
    }

    /// Return `true` when the payload stores a shared string.
    pub fn is_shared(self) -> (r: bool)
        ensures
            r == (spec_tag_of(self.spec_meta()) == Some(StateTag::Shared)),
    {
        proof {
            use_type_invariant(self);
            crate::arch::law_state_queries(self.meta);
        }
        (self.meta & NEEDS_DROP_MASK) != 0
    }

    /// Return `true` when the payload stores an inline string.
    pub fn is_inline(self) -> (r: bool)
        ensures
            r == (spec_tag_of(self.spec_meta()) == Some(StateTag::Inline)),
    {
        proof {
            use_type_invariant(self);
            crate::arch::law_state_queries(self.meta);
        }
        (self.meta & INLINE_MASK) != 0
    }

    /// Return the stored string length in bytes.
    pub fn len(self) -> (r: usize)
        ensures
            r == spec_len_of(self.spec_meta()),
            r <= crate::arch::layout::MAX_BORROWED_OR_SHARED_LEN,
    {
        proof {
            use_type_invariant(self);
            crate::arch::law_state_queries(self.meta);
            crate::arch::layout::lemma_layout_values();
        }
        if (self.meta & INLINE_MASK) != 0 {
            inline_len_from_meta(self.meta)
        } else {
            decode_borrowed_or_shared_len(self.meta)
        }
    }

    /// Return `true` when the stored string is empty.
    pub fn is_empty(self) -> (r: bool)
        ensures
            r == (spec_len_of(self.spec_meta()) == 0),
    {
        self.len() == 0
    }

    /// Expose the pointer word and the metadata word as a pair.
    pub fn into_fields(self) -> (r: (usize, usize))
        ensures
            r == (self.spec_ptr_word(), self.spec_meta()),
    {
        (self.ptr_word, self.meta)
    }

    /// Return the pointer word.
    pub fn as_ptr(&self) -> (r: usize)
        ensures
            r == self.spec_ptr_word(),
    {
        self.ptr_word
    }

    /// Return the state that the metadata word encodes.
    pub fn tag(self) -> (r: StateTag)
        ensures
            spec_tag_of(self.spec_meta()) == Some(r),
    {
        proof {
            use_type_invariant(self);
        }
        from_meta(self.meta)
    }

    /// Render the parts for debugging, as the standard struct rendering
    /// does: the pointer word in hexadecimal, the metadata word and the
    /// length in decimal, then the state. The `alternate` form puts one field
    /// on each line and pads the pointer word to all of its hexadecimal digits.
    pub fn debug_string(self, alternate: bool) -> (r: String)
        ensures
            r@ == if alternate {
                "RawParts {\n    raw_ptr: 0x"@ + spec_hex_fixed(
                    self.spec_ptr_word() as nat,
                    (usize::BITS / 4) as nat,
                ) + ",\n    meta: "@ + spec_decimal(self.spec_meta() as nat) + ",\n    len: "@
                    + spec_decimal(spec_len_of(self.spec_meta()) as nat) + ",\n    state: \""@
                    + spec_state_name(spec_tag_of(self.spec_meta())->0) + "\",\n}"@
            } else {
                "RawParts { raw_ptr: 0x"@ + spec_hex(self.spec_ptr_word() as nat) + ", meta: "@
                    + spec_decimal(self.spec_meta() as nat) + ", len: "@ + spec_decimal(
                    spec_len_of(self.spec_meta()) as nat,
                ) + ", state: \""@ + spec_state_name(spec_tag_of(self.spec_meta())->0) + "\" }"@
            },
    {
        let mut out = String::new();
        if alternate {
            out.append("RawParts {\n    raw_ptr: 0x");
            push_hex_fixed(&mut out, self.ptr_word, (usize::BITS / 4) as usize);
            out.append(",\n    meta: ");
            push_decimal(&mut out, self.meta);
            out.append(",\n    len: ");
            push_decimal(&mut out, self.len());
            out.append(",\n    state: \"");
        } else {
            out.append("RawParts { raw_ptr: 0x");
            push_hex(&mut out, self.ptr_word);
            out.append(", meta: ");
            push_decimal(&mut out, self.meta);
            out.append(", len: ");
            push_decimal(&mut out, self.len());
            out.append(", state: \"");
        }
        match self.tag() {
            StateTag::Borrowed => out.append("Borrowed"),
            StateTag::Shared => out.append("Shared"),
            StateTag::Inline => out.append("Inline"),
        }
        if alternate {
            out.append("\",\n}");
        } else {
            out.append("\" }");
        }
        out
    }
}

} // verus!
