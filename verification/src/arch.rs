//! Encoding and decoding of the metadata word and of the inline tag byte.
//!
//! The metadata word packs, from the top: the ASCII flag and the three state
//! bits (the tag nibble), one spare bit, the cached short hash (64-bit targets
//! only) and the byte length in the low bits. Inline payloads instead carry
//! the tag nibble and the inline length in the last byte of the payload,
//! which is the top byte of the metadata word.
use vstd::prelude::*;

pub mod layout;

use crate::arch::layout::{
    NEEDS_DROP_MASK, INLINE_MASK, MAX_BORROWED_OR_SHARED_LEN,
    HASH_MASK, HASH_SHIFT, HASH_VALUE_MASK, INLINE_CAPACITY, IS_ASCII_MASK, LEN_MASK, STATE_MASK,
    TAG_SHIFT,
};

verus! {

/// Encoded state discriminator stored inside the metadata word.
#[derive(Clone, Copy, Debug, PartialEq, Eq, Structural)]
pub enum StateTag {
    /// Borrowed UTF-8 data, backed by a caller-owned lifetime.
    Borrowed,
    /// Shared heap-backed string storage.
    Shared,
    /// Inline short string stored inside the two-word payload.
    Inline,
}

/// FNV-1a offset basis of the short hash.
pub const FNV_OFFSET_BASIS: u64 = 0xcbf29ce484222325;

/// FNV-1a prime of the short hash.
pub const FNV_PRIME: u64 = 0x100000001b3;

/// State bits of a borrowed payload.
pub const BORROWED_BITS: usize = 0b0001usize << TAG_SHIFT;

/// State bits of a shared payload.
pub const SHARED_BITS: usize = 0b0101usize << TAG_SHIFT;

/// State bits of an inline payload.
pub const INLINE_BITS: usize = 0b0011usize << TAG_SHIFT;

/// Bit pattern of a state tag inside the metadata word.
pub open spec fn spec_tag_bits(tag: StateTag) -> usize {
    match tag {
        StateTag::Borrowed => BORROWED_BITS,
        StateTag::Shared => SHARED_BITS,
        StateTag::Inline => INLINE_BITS,
    }
}

/// The state a metadata word encodes, if its state bits are one of the three patterns.
pub open spec fn spec_tag_of(meta: usize) -> Option<StateTag> {
    let state = meta & STATE_MASK;
    if state == spec_tag_bits(StateTag::Borrowed) {
        Some(StateTag::Borrowed)
    } else if state == spec_tag_bits(StateTag::Shared) {
        Some(StateTag::Shared)
    } else if state == spec_tag_bits(StateTag::Inline) {
        Some(StateTag::Inline)
    } else {
        None
    }
}

/// The metadata word of a borrowed or shared string of `len` bytes with the given short hash.
pub open spec fn spec_encode_len_tag_hash(len: usize, tag: StateTag, hash: u64) -> usize {
    len | spec_tag_bits(tag) | (((hash as usize) & HASH_VALUE_MASK) << HASH_SHIFT)
}

/// The ASCII flag bit as it stands in a metadata word.
pub open spec fn spec_ascii_bit(is_ascii: bool) -> usize {
    if is_ascii {
        IS_ASCII_MASK
    } else {
        0
    }
}

/// The length field of a borrowed or shared metadata word.
pub open spec fn spec_decode_len(meta: usize) -> usize {
    meta & LEN_MASK
}

/// The cached hash field of a metadata word.
pub open spec fn spec_decode_hash(meta: usize) -> usize {
    (meta & HASH_MASK) >> HASH_SHIFT
}

/// The inline tag byte: the inline state tag and the ASCII flag in the high
/// nibble, the inline length in the low nibble.
pub open spec fn spec_inline_tag_byte(len: usize, is_ascii: bool) -> u8 {
    ((if is_ascii { 0b1011u8 } else { 0b0011u8 }) << 4u8) | (len as u8)
}

/// The top byte of a metadata word, which is the last byte of an inline payload.
pub open spec fn spec_meta_top_byte(meta: usize) -> u8 {
    (meta >> (usize::BITS - 8) as usize) as u8
}

/// The inline length carried by a metadata word.
pub open spec fn spec_inline_len_of(meta: usize) -> usize {
    (spec_meta_top_byte(meta) & 0x0f) as usize
}

/// One step of the FNV-1a hash: mix in a byte, then multiply modulo 2^64.
pub open spec fn spec_fnv_step(hash: u64, byte: u8) -> u64 {
    (((hash ^ (byte as u64)) as nat * FNV_PRIME as nat) % 0x1_0000_0000_0000_0000) as u64
}

/// The FNV-1a hash of a byte sequence.
pub open spec fn spec_short_hash(bytes: Seq<u8>) -> u64
    decreases bytes.len(),
{
    if bytes.len() == 0 {
        FNV_OFFSET_BASIS
    } else {
        spec_fnv_step(spec_short_hash(bytes.drop_last()), bytes.last())
    }
}

/// Return `true` when a string length fits inline storage.
pub fn supports_inline_len(len: usize) -> (r: bool)
    ensures
        r == (len <= INLINE_CAPACITY),
{
    len <= INLINE_CAPACITY
}

/// Compute the cached short hash used to speed up equality checks.
///
/// This is FNV-1a over the UTF-8 bytes: not a cryptographic hash, only a fast
/// negative filter.
pub fn short_hash(bytes: &[u8]) -> (r: u64)
    ensures
        r == spec_short_hash(bytes@),
{
    let mut hash: u64 = FNV_OFFSET_BASIS;
    let mut index: usize = 0;
    while index < bytes.len()
        invariant
            index <= bytes@.len(),
            hash == spec_short_hash(bytes@.take(index as int)),
        decreases bytes@.len() - index,
    {
        let b: u8 = bytes[index];
        proof {
            let next = bytes@.take(index as int + 1);
            assert(next.drop_last() =~= bytes@.take(index as int));
            assert(next.last() == b);
        }
        hash = (hash ^ (b as u64)).wrapping_mul(FNV_PRIME);
        index += 1;
    }
    proof {
        assert(bytes@.take(bytes@.len() as int) =~= bytes@);
    }
    hash
}

/// Return the bit pattern associated with a state tag.
pub fn tag_bits(tag: StateTag) -> (r: usize)
    ensures
        r == spec_tag_bits(tag),
{
    match tag {
        StateTag::Borrowed => 0b0001usize << TAG_SHIFT,
        StateTag::Shared => 0b0101usize << TAG_SHIFT,
        StateTag::Inline => 0b0011usize << TAG_SHIFT,
    }
}

/// Encode the inline tag byte stored in the last byte of an inline payload.
///
/// The byte packs the inline state tag, the ASCII flag and the inline length.
pub fn inline_tag_byte(len: usize, is_ascii: bool) -> (r: u8)
    requires
        len <= INLINE_CAPACITY,
    ensures
        r == spec_inline_tag_byte(len, is_ascii),
{
    let tag: u8 = ((tag_bits(StateTag::Inline) >> TAG_SHIFT) as u8) | if is_ascii {
        0b1000u8
    } else {
        0u8
    };
    proof {
        layout::lemma_layout_values();
        assert((INLINE_BITS >> TAG_SHIFT) as u8 == 0b0011u8) by (bit_vector);
        assert((0b0011u8 | 0b1000u8) == 0b1011u8 && (0b0011u8 | 0u8) == 0b0011u8) by (bit_vector);
    }
    (tag << 4u8) | (len as u8)
}

/// Decode the inline length from the inline tag byte.
pub fn inline_len_from_tag_byte(tag_byte: u8) -> (r: usize)
    ensures
        r == (tag_byte & 0x0f) as usize,
        r <= 15,
{
    proof {
        assert(tag_byte & 0x0f <= 15) by (bit_vector);
    }
    (tag_byte & 0b0000_1111) as usize
}

/// Decode the inline length from the metadata word, whose top byte is the inline tag byte.
pub fn inline_len_from_meta(meta: usize) -> (r: usize)
    ensures
        r == spec_inline_len_of(meta),
{
    inline_len_from_tag_byte((meta >> (usize::BITS - 8)) as u8)
}

/// Decode the length of a borrowed or shared payload from the metadata word.
pub fn decode_borrowed_or_shared_len(meta: usize) -> (r: usize)
    ensures
        r == spec_decode_len(meta),
        r <= MAX_BORROWED_OR_SHARED_LEN,
{
    proof {
        assert(meta & LEN_MASK <= MAX_BORROWED_OR_SHARED_LEN) by (bit_vector);
    }
    meta & LEN_MASK
}

/// Decode the cached hash from the metadata word.
pub fn decode_cached_hash(meta: usize) -> (r: usize)
    ensures
        r == spec_decode_hash(meta),
{
    (meta & HASH_MASK) >> HASH_SHIFT
}

/// Encode length, state tag and cached hash into a metadata word.
///
/// A length above `MAX_BORROWED_OR_SHARED_LEN` does not fit the length field.
pub fn encode_len_tag_hash(len: usize, tag: StateTag, hash: u64) -> (r: usize)
    requires
        len <= MAX_BORROWED_OR_SHARED_LEN,
    ensures
        r == spec_encode_len_tag_hash(len, tag, hash),
{
    let hash = ((hash as usize) & HASH_VALUE_MASK) << HASH_SHIFT;
    len | tag_bits(tag) | hash
}

/// Decode a tag from a metadata word, or `None` when its state bits match no state.
pub fn from_meta_checked(meta: usize) -> (r: Option<StateTag>)
    ensures
        r == spec_tag_of(meta),
{
    let state = meta & STATE_MASK;
    if state == BORROWED_BITS {
        Some(StateTag::Borrowed)
    } else if state == SHARED_BITS {
        Some(StateTag::Shared)
    } else if state == INLINE_BITS {
        Some(StateTag::Inline)
    } else {
        None
    }
}

/// Decode a tag from a metadata word whose state bits are valid.
pub fn from_meta(meta: usize) -> (r: StateTag)
    requires
        spec_tag_of(meta) is Some,
    ensures
        spec_tag_of(meta) == Some(r),
{
    match from_meta_checked(meta) {
        Some(tag) => tag,
        None => vstd::pervasive::unreached(),
    }
}

/// Fields of a borrowed or shared metadata word, at the level of bits.
proof fn lemma_non_inline_meta_bits(len: usize, h: usize, t: usize, a: usize)
    by (bit_vector)
    requires
        len <= MAX_BORROWED_OR_SHARED_LEN,
        t == BORROWED_BITS || t == SHARED_BITS,
        a == 0 || a == IS_ASCII_MASK,
    ensures
        (len | t | ((h & HASH_VALUE_MASK) << HASH_SHIFT) | a) & LEN_MASK == len,
        ((len | t | ((h & HASH_VALUE_MASK) << HASH_SHIFT) | a) & HASH_MASK) >> HASH_SHIFT == h
            & HASH_VALUE_MASK,
        (len | t | ((h & HASH_VALUE_MASK) << HASH_SHIFT) | a) & STATE_MASK == t,
        ((len | t | ((h & HASH_VALUE_MASK) << HASH_SHIFT) | a) & IS_ASCII_MASK != 0) == (a != 0),
        (len | t | ((h & HASH_VALUE_MASK) << HASH_SHIFT) | a) & INLINE_MASK == 0,
        ((len | t | ((h & HASH_VALUE_MASK) << HASH_SHIFT) | a) & NEEDS_DROP_MASK != 0) == (t
            == SHARED_BITS),
{
}

/// Fields of a metadata word whose top byte is an inline tag byte, at the level of bits.
proof fn lemma_inline_meta_bits(meta: usize, len: u8, a: u8)
    by (bit_vector)
    requires
        len <= 15,
        a == 0b0011u8 || a == 0b1011u8,
        (meta >> (usize::BITS - 8) as usize) as u8 == (a << 4u8) | len,
    ensures
        meta & STATE_MASK == INLINE_BITS,
        meta & INLINE_MASK != 0,
        meta & NEEDS_DROP_MASK == 0,
        (meta & IS_ASCII_MASK != 0) == (a == 0b1011u8),
        ((meta >> (usize::BITS - 8) as usize) as u8) & 0x0f == len,
{
}

/// The state masks tell the three valid states apart.
proof fn lemma_state_masks(meta: usize)
    by (bit_vector)
    requires
        meta & STATE_MASK == BORROWED_BITS || meta & STATE_MASK == SHARED_BITS || meta
            & STATE_MASK == INLINE_BITS,
    ensures
        (meta & (INLINE_MASK | NEEDS_DROP_MASK) == 0) == (meta & STATE_MASK == BORROWED_BITS),
        (meta & NEEDS_DROP_MASK != 0) == (meta & STATE_MASK == SHARED_BITS),
        (meta & INLINE_MASK != 0) == (meta & STATE_MASK == INLINE_BITS),
        meta != 0,
{
}

/// The three state bit patterns are distinct.
proof fn lemma_state_bits_distinct()
    by (bit_vector)
    ensures
        BORROWED_BITS != SHARED_BITS,
        BORROWED_BITS != INLINE_BITS,
        SHARED_BITS != INLINE_BITS,
        BORROWED_BITS & STATE_MASK == BORROWED_BITS,
        SHARED_BITS & STATE_MASK == SHARED_BITS,
        INLINE_BITS & STATE_MASK == INLINE_BITS,
        IS_ASCII_MASK != 0,
{
}

/// Law: a valid metadata word is in exactly one state, and the masks that the
/// state queries test agree with its tag.
pub proof fn law_state_queries(meta: usize)
    requires
        spec_tag_of(meta) is Some,
    ensures
        (meta & (INLINE_MASK | NEEDS_DROP_MASK) == 0) == (spec_tag_of(meta) == Some(
            StateTag::Borrowed,
        )),
        (meta & NEEDS_DROP_MASK != 0) == (spec_tag_of(meta) == Some(StateTag::Shared)),
        (meta & INLINE_MASK != 0) == (spec_tag_of(meta) == Some(StateTag::Inline)),
        meta != 0,
{
    lemma_state_bits_distinct();
    lemma_state_masks(meta);
}

/// Law: the fields of a borrowed or shared metadata word decode to what was encoded.
///
/// The length comes back whole, the hash comes back truncated to the hash
/// cache's width, and the tag and ASCII flag come back unchanged.
pub proof fn law_encode_decode_roundtrip(len: usize, tag: StateTag, hash: u64, is_ascii: bool)
    requires
        len <= MAX_BORROWED_OR_SHARED_LEN,
        tag != StateTag::Inline,
    ensures
        ({
            let meta = spec_encode_len_tag_hash(len, tag, hash) | spec_ascii_bit(is_ascii);
            &&& spec_decode_len(meta) == len
            &&& spec_decode_hash(meta) == (hash as usize) & HASH_VALUE_MASK
            &&& spec_tag_of(meta) == Some(tag)
            &&& (meta & IS_ASCII_MASK != 0) == is_ascii
        }),
{
    let a = spec_ascii_bit(is_ascii);
    lemma_non_inline_meta_bits(len, hash as usize, spec_tag_bits(tag), a);
    lemma_state_bits_distinct();
    let e = spec_encode_len_tag_hash(len, tag, hash);
    assert(e | 0usize == e) by (bit_vector);
}

/// Law: the inline length comes back out of the inline tag byte.
pub proof fn law_inline_tag_roundtrip(len: usize, is_ascii: bool)
    requires
        len <= INLINE_CAPACITY,
    ensures
        (spec_inline_tag_byte(len, is_ascii) & 0x0f) as usize == len,
{
    layout::lemma_layout_values();
    let l = len as u8;
    assert(((0b1011u8 << 4u8) | l) & 0x0f == l && ((0b0011u8 << 4u8) | l) & 0x0f == l) by (
    bit_vector)
        requires
            l <= 15,
    ;
}

/// Law: a metadata word whose top byte is an inline tag byte is an inline
/// word with that length and ASCII flag.
pub proof fn law_inline_meta(meta: usize, len: usize, is_ascii: bool)
    requires
        len <= INLINE_CAPACITY,
        spec_meta_top_byte(meta) == spec_inline_tag_byte(len, is_ascii),
    ensures
        spec_tag_of(meta) == Some(StateTag::Inline),
        spec_inline_len_of(meta) == len,
        (meta & IS_ASCII_MASK != 0) == is_ascii,
{
    layout::lemma_layout_values();
    lemma_state_bits_distinct();
    let a: u8 = if is_ascii {
        0b1011u8
    } else {
        0b0011u8
    };
    lemma_inline_meta_bits(meta, len as u8, a);
}

} // verus!
