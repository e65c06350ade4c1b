use std::borrow::Cow;
use std::cmp::Ordering;
use std::rc::Rc;
use std::sync::Arc;

use ref_str::arch::layout::{
    INLINE_CAPACITY, INLINE_MASK, IS_ASCII_MASK, NEEDS_DROP_MASK, STATE_MASK,
};
use ref_str::arch::{
    decode_borrowed_or_shared_len, decode_cached_hash, encode_len_tag_hash, from_meta,
    from_meta_checked, inline_len_from_meta, inline_len_from_tag_byte, inline_tag_byte,
    short_hash, supports_inline_len, tag_bits, StateTag, BORROWED_BITS, INLINE_BITS, SHARED_BITS,
};
use ref_str::compact::order::str_order;
use ref_str::text::{bytes_eq, common_prefix_len, str_eq};
use ref_str::fmt::{debug_render, push_decimal, push_hex};
use ref_str::raw::inline_buffer;
use ref_str::{LocalBackend, RawParts, RefStr, RefStrCore, SharedBackend, StaticRefStr};

#[test]
fn short_hash_matches_fnv1a_values() {
    assert_eq!(short_hash(b""), 0xcbf29ce484222325);
    assert_eq!(short_hash(b"a"), 0xaf63dc4c8601ec8c);
    assert_eq!(short_hash(b"foobar"), 0x85944171f73967e8);
}

#[test]
fn encode_decode_law_on_values() {
    let hash = short_hash(b"hello");
    let meta = encode_len_tag_hash(5, StateTag::Shared, hash) | IS_ASCII_MASK;
    assert_eq!(decode_borrowed_or_shared_len(meta), 5);
    assert_eq!(from_meta(meta), StateTag::Shared);
    assert_eq!(from_meta_checked(meta), Some(StateTag::Shared));
    assert!(meta & IS_ASCII_MASK != 0);
    assert!(meta & NEEDS_DROP_MASK != 0);
    assert!(meta & INLINE_MASK == 0);
    if usize::BITS == 64 {
        assert_eq!(decode_cached_hash(meta), (hash as usize) & 0xff_ffff);
        assert_eq!(encode_len_tag_hash(7, StateTag::Borrowed, 0), 7 | (1usize << 60));
    }
}

#[test]
fn from_meta_checked_rejects_unknown_state_bits() {
    assert_eq!(from_meta_checked(0), None);
    assert_eq!(from_meta_checked(STATE_MASK), None);
    assert_eq!(from_meta_checked(BORROWED_BITS), Some(StateTag::Borrowed));
    assert_eq!(from_meta_checked(SHARED_BITS), Some(StateTag::Shared));
    assert_eq!(from_meta_checked(INLINE_BITS), Some(StateTag::Inline));
    assert_eq!(tag_bits(StateTag::Inline), INLINE_BITS);
}

#[test]
fn inline_tag_byte_values() {
    assert_eq!(inline_tag_byte(5, true), 0xb5);
    assert_eq!(inline_tag_byte(5, false), 0x35);
    assert_eq!(inline_len_from_tag_byte(0xb5), 5);
    assert_eq!(inline_len_from_meta(0xb5usize << (usize::BITS - 8)), 5);
    assert!(supports_inline_len(INLINE_CAPACITY));
    assert!(!supports_inline_len(INLINE_CAPACITY + 1));
}

#[test]
fn pack_inline_lays_out_the_bytes() {
    let parts = RawParts::pack_inline("hello");
    assert!(parts.meta() != 0);
    assert!(parts.is_inline());
    assert!(!parts.is_borrowed());
    assert!(!parts.is_shared());
    assert!(parts.is_ascii());
    assert_eq!(parts.len(), 5);
    assert!(!parts.is_empty());
    assert_eq!(parts.tag(), StateTag::Inline);
    assert_eq!(parts.ptr_word(), 0x6f6c6c6568);
    assert_eq!(parts.as_ptr(), 0x6f6c6c6568);
    let (ptr, meta) = parts.into_fields();
    assert_eq!(ptr, 0x6f6c6c6568);
    assert_eq!(meta >> (usize::BITS - 8), 0xb5);

    let buf = inline_buffer("hé");
    assert_eq!(&buf[..3], "hé".as_bytes());
    assert_eq!(buf[2 * (usize::BITS as usize / 8) - 1], 0x33);
}

#[test]
fn raw_parts_new_and_debug_string() {
    let meta = encode_len_tag_hash(3, StateTag::Borrowed, 0);
    let parts = RawParts::new(0x10, meta);
    assert!(parts.is_borrowed());
    assert_eq!(parts.len(), 3);
    assert_eq!(parts.cached_hash(), 0);
    let text = parts.debug_string(false);
    assert_eq!(
        text,
        format!("RawParts {{ raw_ptr: 0x10, meta: {}, len: 3, state: \"Borrowed\" }}", meta)
    );
    let pretty = parts.debug_string(true);
    assert_eq!(
        pretty,
        format!(
            "RawParts {{\n    raw_ptr: 0x{:0width$x},\n    meta: {},\n    len: 3,\n    state: \"Borrowed\",\n}}",
            0x10,
            meta,
            width = (usize::BITS / 4) as usize
        )
    );
    let inline = RawParts::pack_inline("hi");
    assert!(inline.debug_string(true).contains("state: \"Inline\",\n}"));
}

#[test]
fn byte_and_string_comparisons() {
    assert!(bytes_eq(b"abc", b"abc"));
    assert!(!bytes_eq(b"abc", b"abd"));
    assert!(!bytes_eq(b"abc", b"ab"));
    assert!(str_eq("héllo", "héllo"));
    assert!(!str_eq("héllo", "hello"));
    assert_eq!(common_prefix_len(b"abcd", b"abxy"), 2);
    assert_eq!(common_prefix_len(b"ab", b"abc"), 2);
    assert_eq!(str_order("a", "b"), Ordering::Less);
    assert_eq!(str_order("b", "a"), Ordering::Greater);
    assert_eq!(str_order("ab", "abc"), Ordering::Less);
    assert_eq!(str_order("abc", "abc"), Ordering::Equal);
}

#[test]
fn wrapper_order_is_lexicographic() {
    let a = RefStr::from("apple");
    let b = RefStr::from(String::from("banana"));
    let c = RefStr::from(String::from("applesauce and more fruit"));
    assert!(a < b);
    assert!(b > c);
    assert!(a < c);
    assert_eq!(a.partial_cmp(&RefStr::from("apple")), Some(Ordering::Equal));
}

#[test]
fn decimal_and_hex_rendering() {
    let mut out = String::from("n=");
    push_decimal(&mut out, 0);
    push_decimal(&mut out, 1203);
    assert_eq!(out, "n=01203");
    let mut hex = String::new();
    push_hex(&mut hex, 0xbeef);
    assert_eq!(hex, "beef");
    assert_eq!(
        debug_render("X", StateTag::Inline, 2, "a\"b", false),
        "X(\"a\\\"b\")"
    );
}

#[test]
fn debug_string_plain_form() {
    let value = RefStr::from("hi");
    assert_eq!(value.debug_string(false), "RefStr<'a>(\"hi\")");
    let shared = StaticRefStr::from(String::from("a string that is stored as shared"));
    assert_eq!(
        shared.debug_string(true),
        "StaticRefStr {\n    state: \"Shared\",\n    len: 33,\n    value: \"a string that is stored as shared\",\n}"
    );
}

#[test]
fn ascii_flag_tracks_contents() {
    let borrowed_ascii = RefStr::from("hello");
    let borrowed_non_ascii = RefStr::from("héllo");
    let inline_ascii = RefStr::from(String::from("tiny"));
    let inline_non_ascii = RefStr::from(String::from("tïny"));
    let shared_ascii = RefStr::from(String::from("this string is definitely shared"));
    let shared_non_ascii = RefStr::from(String::from("thïs string is definitely shared"));

    assert!(borrowed_ascii.is_ascii());
    assert!(!borrowed_non_ascii.is_ascii());
    assert!(inline_ascii.is_ascii());
    assert!(!inline_non_ascii.is_ascii());
    assert!(shared_ascii.is_ascii());
    assert!(!shared_non_ascii.is_ascii());
    assert_eq!(inline_non_ascii.as_str(), "tïny");
    assert_eq!(inline_non_ascii.len(), 5);
}

#[test]
fn conversions_into_owned_forms() {
    let value = RefStr::from(String::from("héllo wörld, long enough"));
    assert!(value.is_shared());
    assert_eq!(value.clone().into_bytes(), "héllo wörld, long enough".as_bytes().to_vec());
    assert_eq!(&*value.clone().into_boxed_str(), "héllo wörld, long enough");
    assert_eq!(value.clone().into_string(), "héllo wörld, long enough");
    assert_eq!(value.to_string(), "héllo wörld, long enough");
    let cow: Cow<'_, str> = value.into();
    assert!(matches!(cow, Cow::Owned(_)));
    let borrowed = RefStr::from("plain");
    let cow: Cow<'_, str> = borrowed.into_cow();
    assert!(matches!(cow, Cow::Borrowed("plain")));
    let empty = RefStr::default();
    assert!(empty.is_empty());
    assert!(empty.is_borrowed());
    assert_eq!(empty.len(), 0);
    let owned = RefStr::from_owned_like("short");
    assert!(owned.is_inline());
    assert_eq!(&*owned, "short");
    assert_eq!(owned.as_ref() as &str, "short");
}

#[test]
fn core_level_operations() {
    let core: RefStrCore<'_, SharedBackend> = RefStrCore::new("core value");
    assert!(core.is_borrowed());
    let promoted = core.to_static_core();
    assert!(promoted.is_inline());
    assert!(promoted == core);
    let local: RefStrCore<'_, LocalBackend> = RefStrCore::from(Rc::<str>::from("a rather long shared text"));
    assert!(local.is_shared());
    let shared: RefStrCore<'_, SharedBackend> = local.clone().into();
    assert!(shared.is_shared());
    assert!(shared == "a rather long shared text");
    assert!(shared == String::from("a rather long shared text"));
    let from_arc: RefStrCore<'_, SharedBackend> = RefStrCore::from(Arc::<str>::from("x"));
    assert_eq!(from_arc.as_str(), "x");
    assert_eq!(from_arc.debug_string(false), "RefStrCore(\"x\")");
    let stat: RefStrCore<'static, SharedBackend> = RefStrCore::from_static("static");
    assert_eq!(stat.borrowed_static_str(), Some("static"));
    assert_eq!(promoted.borrowed_static_str(), None);
    let back = stat.into_backend::<LocalBackend>();
    assert!(back.is_borrowed());
}

#[test]
fn into_raw_shared_disambiguates_state() {
    let owner = String::from("borrowed");
    let borrowed = RefStr::from(&owner[..]);
    assert!(borrowed.into_raw_shared().is_none());
    let inline = RefStr::from(String::from("tiny"));
    assert!(inline.into_raw_shared().is_none());

    let original = Arc::<str>::from("shared");
    let shared = RefStr::from_shared(original.clone());
    let handle = shared
        .into_raw_shared()
        .expect("shared value should hand out its handle");
    assert_eq!(Arc::strong_count(&original), 2);
    assert_eq!(&*handle, "shared");
    drop(handle);
    assert_eq!(Arc::strong_count(&original), 1);

    let local_original = Rc::<str>::from("local");
    let local = ref_str::LocalStaticRefStr::from_shared(local_original.clone());
    let local_handle = local.into_raw_shared().expect("shared");
    assert!(Rc::ptr_eq(&local_handle, &local_original));
}

#[test]
fn into_str_unchecked_returns_borrowed_slice() {
    let owner = String::from("borrowed text");
    let value = RefStr::from(&owner[..]);
    let back: &str = value.into_str_unchecked();
    assert_eq!(back, "borrowed text");
    assert!(std::ptr::eq(back, &owner[..]));
}

#[test]
fn long_owned_inputs_get_shared_storage_with_the_same_contents() {
    let text = "a string long enough to need shared storage";
    let from_box = ref_str::LocalRefStr::from(Box::<str>::from(text));
    let from_string = ref_str::LocalRefStr::from(String::from(text));
    let from_like = ref_str::LocalRefStr::from_owned_like(text);
    let arc_box = RefStr::from(Box::<str>::from(text));
    let arc_string = StaticRefStr::from(String::from(text));
    let arc_like = StaticRefStr::from_owned_like(text);
    for value in [&from_box, &from_string, &from_like] {
        assert!(value.is_shared());
        assert_eq!(value.as_str(), text);
        assert_eq!(value.len(), text.len());
    }
    assert!(arc_box.is_shared() && arc_string.is_shared() && arc_like.is_shared());
    assert_eq!(arc_box.as_str(), text);
    assert_eq!(arc_string.as_str(), text);
    assert_eq!(arc_like.as_str(), text);
    let promoted = RefStr::from(text).to_static_str();
    assert!(promoted.is_shared());
    assert_eq!(promoted.as_str(), text);
    let local: ref_str::LocalRefStr<'_> = arc_box.into();
    assert!(local.is_shared());
    assert_eq!(local.as_str(), text);
}

#[test]
fn raw_parts_are_two_words() {
    assert_eq!(std::mem::size_of::<RawParts>(), 2 * std::mem::size_of::<usize>());
    let parts = RawParts::pack_inline("hello");
    assert!(parts.meta() != 0);
}
