//! Bit layout of the two-word payload.
//!
//! Word widths follow `usize`: the hash cache exists only on 64-bit targets,
//! and every derived width below is computed from `usize::BITS`.
use vstd::prelude::*;

verus! {

/// Number of bits reserved for the state tag.
pub const TAG_BITS: u32 = 4;

/// Number of bits of the short hash cache: 24 on 64-bit targets, none on narrower ones.
pub const HASH_BITS: u32 = (usize::BITS / 64) * 24;

/// Size of one machine word in bytes.
pub const WORD_BYTES: usize = (usize::BITS / 8) as usize;

/// Total inline payload size in bytes, matching two machine words.
pub const INLINE_TOTAL_BYTES: usize = WORD_BYTES * 2;

/// Maximum number of UTF-8 bytes that can be stored inline.
pub const INLINE_CAPACITY: usize = INLINE_TOTAL_BYTES - 1;

/// Byte index of the inline payload that holds the inline tag and length.
pub const BUFFER_TAG_BYTE_INDEX: usize = INLINE_TOTAL_BYTES - 1;

/// Byte index inside the metadata word that carries the state tag.
pub const META_TAG_BYTE_INDEX: usize = WORD_BYTES - 1;

/// Position of the state tag: the top nibble of the metadata word.
pub const TAG_SHIFT: u32 = usize::BITS - TAG_BITS;

/// Position of the length field: the low bits of the metadata word.
pub const LEN_SHIFT: u32 = 0;

/// Position of the cached hash, right below the tag nibble and one spare bit.
pub const HASH_SHIFT: u32 = usize::BITS - TAG_BITS - HASH_BITS - 1;

/// Mask of the three state bits of the tag nibble.
pub const STATE_MASK: usize = 0b0111usize << TAG_SHIFT;

/// Mask that identifies inline payloads.
pub const INLINE_MASK: usize = 0b0010usize << TAG_SHIFT;

/// Mask that identifies payloads that own shared storage.
pub const NEEDS_DROP_MASK: usize = 0b0100usize << TAG_SHIFT;

/// Mask of the cached ASCII flag.
pub const IS_ASCII_MASK: usize = 0b1000usize << TAG_SHIFT;

/// Mask of the hash value before it is shifted into place (zero without a hash cache).
pub const HASH_VALUE_MASK: usize = 0xff_ffffusize >> (24 - HASH_BITS);

/// Mask of the cached hash bits inside the metadata word.
pub const HASH_MASK: usize = HASH_VALUE_MASK << HASH_SHIFT;

/// Number of bits of the encoded length field.
pub const LEN_BITS: u32 = usize::BITS - TAG_BITS - HASH_BITS - 1;

/// Mask of the encoded length field.
pub const LEN_MASK: usize = ((!0usize) >> (TAG_BITS + HASH_BITS + 1)) << LEN_SHIFT;

/// Maximum length representable in the borrowed or shared encoding.
pub const MAX_BORROWED_OR_SHARED_LEN: usize = (!0usize) >> (TAG_BITS + HASH_BITS + 1);

/// The machine word is either 32 or 64 bits wide, and the derived widths follow it.
pub proof fn lemma_layout_values()
    ensures
        usize::BITS == 64 || usize::BITS == 32,
        usize::BITS == 64 ==> {
            &&& HASH_BITS == 24 && WORD_BYTES == 8 && INLINE_CAPACITY == 15
            &&& TAG_SHIFT == 60 && HASH_SHIFT == 35 && LEN_BITS == 35
            &&& STATE_MASK == 0x7000_0000_0000_0000 && INLINE_MASK == 0x2000_0000_0000_0000
            &&& NEEDS_DROP_MASK == 0x4000_0000_0000_0000 && IS_ASCII_MASK == 0x8000_0000_0000_0000
            &&& HASH_VALUE_MASK == 0xff_ffff && HASH_MASK == 0x07ff_fff8_0000_0000
            &&& LEN_MASK == 0x7_ffff_ffff && MAX_BORROWED_OR_SHARED_LEN == 0x7_ffff_ffff
        },
        usize::BITS == 32 ==> {
            &&& HASH_BITS == 0 && WORD_BYTES == 4 && INLINE_CAPACITY == 7
            &&& TAG_SHIFT == 28 && HASH_SHIFT == 27 && LEN_BITS == 27
            &&& STATE_MASK == 0x7000_0000 && INLINE_MASK == 0x2000_0000
            &&& NEEDS_DROP_MASK == 0x4000_0000 && IS_ASCII_MASK == 0x8000_0000
            &&& HASH_VALUE_MASK == 0 && HASH_MASK == 0
            &&& LEN_MASK == 0x7ff_ffff && MAX_BORROWED_OR_SHARED_LEN == 0x7ff_ffff
        },
{
    if usize::BITS == 64 {
        assert(TAG_SHIFT == 60 && HASH_BITS == 24 && HASH_SHIFT == 35);
        assert(0b0111usize << 60u32 == 0x7000_0000_0000_0000 && 0b0010usize << 60u32
            == 0x2000_0000_0000_0000 && 0b0100usize << 60u32 == 0x4000_0000_0000_0000
            && 0b1000usize << 60u32 == 0x8000_0000_0000_0000 && 0xff_ffffusize >> 0u32
            == 0xff_ffff && 0xff_ffffusize << 35u32 == 0x07ff_fff8_0000_0000 && (!0usize)
            >> 29u32 == 0x7_ffff_ffff && ((!0usize) >> 29u32) << 0u32 == 0x7_ffff_ffff)
            by (bit_vector)
            requires
                usize::BITS == 64,
        ;
    } else {
        assert(TAG_SHIFT == 28 && HASH_BITS == 0 && HASH_SHIFT == 27);
        assert(0b0111usize << 28u32 == 0x7000_0000 && 0b0010usize << 28u32 == 0x2000_0000
            && 0b0100usize << 28u32 == 0x4000_0000 && 0b1000usize << 28u32 == 0x8000_0000
            && 0xff_ffffusize >> 24u32 == 0 && 0usize << 27u32 == 0 && (!0usize) >> 5u32
            == 0x7ff_ffff && ((!0usize) >> 5u32) << 0u32 == 0x7ff_ffff) by (bit_vector)
            requires
                usize::BITS == 32,
        ;
    }
}

} // verus!
