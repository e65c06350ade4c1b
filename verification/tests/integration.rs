use std::mem::size_of;

use ref_str::arch::layout::{HASH_BITS, HASH_MASK, INLINE_CAPACITY, LEN_BITS, MAX_BORROWED_OR_SHARED_LEN};
use ref_str::arch::{
    decode_borrowed_or_shared_len, decode_cached_hash, encode_len_tag_hash, inline_len_from_tag_byte,
    inline_tag_byte, short_hash, StateTag,
};
use ref_str::{LocalRefStr, LocalStaticRefStr, RefStr, StaticRefStr};

#[test]
fn arch_layout_matches_pointer_width() {
    if usize::BITS == 64 {
        assert_eq!(HASH_BITS, 24);
        assert_eq!(LEN_BITS, 35);
        assert_eq!(MAX_BORROWED_OR_SHARED_LEN, (1usize << 35) - 1);
        assert_ne!(HASH_MASK, 0);
    } else {
        assert_eq!(HASH_BITS, 0);
        assert_eq!(LEN_BITS, 27);
        assert_eq!(MAX_BORROWED_OR_SHARED_LEN, (1usize << 27) - 1);
        assert_eq!(HASH_MASK, 0);
    }
}

#[test]
fn layout_layout_matches_pointer_width() {
    if usize::BITS == 64 {
        assert_eq!(HASH_BITS, 24);
        assert_eq!(LEN_BITS, 35);
        assert_eq!(MAX_BORROWED_OR_SHARED_LEN, (1usize << 35) - 1);
        assert_ne!(HASH_MASK, 0);
    } else {
        assert_eq!(HASH_BITS, 0);
        assert_eq!(LEN_BITS, 27);
        assert_eq!(MAX_BORROWED_OR_SHARED_LEN, (1usize << 27) - 1);
        assert_eq!(HASH_MASK, 0);
    }
}

#[test]
fn hash_and_length_roundtrip() {
    let len = 123usize;
    let hash = short_hash(b"hash-cache");
    let meta = encode_len_tag_hash(len, StateTag::Borrowed, hash);

    assert_eq!(decode_borrowed_or_shared_len(meta), len);

    if usize::BITS == 64 {
        assert_eq!(decode_cached_hash(meta), (hash as usize) & 0xFF_FF_FF);
    } else {
        assert_eq!(decode_cached_hash(meta), 0);
    }
}

#[test]
fn inline_tag_roundtrip() {
    let len = if usize::BITS == 64 { 11usize } else { INLINE_CAPACITY };

    let meta = inline_tag_byte(len, true);
    assert_eq!(inline_len_from_tag_byte(meta), len);
}

#[test]
fn option_layout_stays_compact() {
    assert_eq!(
        size_of::<Option<RefStr<'static>>>(),
        size_of::<RefStr<'static>>()
    );
    assert_eq!(
        size_of::<Option<LocalRefStr<'static>>>(),
        size_of::<LocalRefStr<'static>>()
    );
    assert_eq!(size_of::<Option<StaticRefStr>>(), size_of::<StaticRefStr>());
    assert_eq!(
        size_of::<Option<LocalStaticRefStr>>(),
        size_of::<LocalStaticRefStr>()
    );
}

#[test]
fn alternate_debug_exposes_state() {
    let borrowed = RefStr::from("hello");
    let inline = RefStr::from(String::from("tiny"));
    let shared = RefStr::from(String::from("this string is definitely shared"));

    let borrowed_dbg = borrowed.debug_string(true);
    let inline_dbg = inline.debug_string(true);
    let shared_dbg = shared.debug_string(true);

    assert!(borrowed_dbg.contains("state: \"Borrowed\""));
    assert!(borrowed_dbg.contains("len: 5"));
    assert!(borrowed_dbg.contains("value: \"hello\""));

    assert!(inline_dbg.contains("state: \"Inline\""));
    assert!(inline_dbg.contains("len: 4"));
    assert!(inline_dbg.contains("value: \"tiny\""));

    assert!(shared_dbg.contains("state: \"Shared\""));
    assert!(shared_dbg.contains("len: 32"));
    assert!(shared_dbg.contains("value: \"this string is definitely shared\""));
}

#[test]
fn shared_variants_are_send_and_sync() {
    fn assert_send<T: Send>() {}
    fn assert_sync<T: Sync>() {}
    assert_send::<RefStr<'static>>();
    assert_sync::<RefStr<'static>>();
    assert_send::<StaticRefStr>();
    assert_sync::<StaticRefStr>();
}

#[test]
fn inline_capacity_boundary_stays_correct() {
    let (max_inline, too_long, expected) = if usize::BITS == 64 {
        (
            RefStr::from(String::from("123456789012345")),
            RefStr::from(String::from("1234567890123456")),
            "123456789012345",
        )
    } else {
        (
            RefStr::from(String::from("1234567")),
            RefStr::from(String::from("12345678")),
            "1234567",
        )
    };

    assert!(max_inline.is_inline());
    assert_eq!(max_inline.as_str(), expected);
    assert!(too_long.is_shared());
}

#[test]
fn as_cow_is_not_tied_to_container_lifetime() {
    fn via_ref_str<'a>(s: &'a str) -> std::borrow::Cow<'a, str> {
        let value = RefStr::from(s);
        value.as_cow()
    }

    fn via_local_ref_str<'a>(s: &'a str) -> std::borrow::Cow<'a, str> {
        let value = LocalRefStr::from(s);
        value.as_cow()
    }

    let owned = String::from("borrowed");
    let cow_ref = via_ref_str(&owned);
    let cow_local = via_local_ref_str(&owned);

    assert_eq!(cow_ref, std::borrow::Cow::Borrowed("borrowed"));
    assert_eq!(cow_local, std::borrow::Cow::Borrowed("borrowed"));
}
