use std::borrow::Cow;
use std::collections::HashMap;
use std::rc::Rc;
use std::sync::Arc;

use ref_str::{LocalRefStr, LocalStaticRefStr, RefStr, StaticRefStr};

#[test]
fn local_ref_str_borrowed_roundtrip() {
    let owned = String::from("borrowed");
    let value = LocalRefStr::from(&owned[..]);
    let borrowed_cow = Cow::Borrowed("borrowed");
    let borrowed_arc = Arc::<str>::from("borrowed");
    let borrowed_rc = Rc::<str>::from("borrowed");

    assert_eq!(value.as_str(), "borrowed");
    assert!(value.is_borrowed());
    assert_eq!(value.as_cow(), Cow::Borrowed("borrowed"));
    assert!(value == &borrowed_cow);
    assert!(value == &borrowed_arc);
    assert!(value == &borrowed_rc);
}

#[test]
fn local_ref_str_owned_roundtrip() {
    let from_string: LocalRefStr<'_> = String::from("hello").into();
    let from_box: LocalRefStr<'_> = Box::<str>::from("boxed").into();
    let from_cow: LocalRefStr<'_> = Cow::Borrowed("cow").into();

    assert_eq!(from_string.clone().into_string(), "hello");
    assert_eq!(from_box.into_boxed_str().as_ref(), "boxed");
    assert_eq!(from_cow.as_str(), "cow");
    assert!(from_string.is_inline());
}

#[test]
fn local_ref_str_shared_roundtrip() {
    let original: Rc<str> = Rc::<str>::from("hello");
    let value = LocalRefStr::from_shared(original.clone());
    let expected_cow: Cow<'_, str> = Cow::Owned(String::from("hello"));

    assert_eq!(value.as_str(), "hello");
    assert!(value.is_shared());
    assert_eq!(Rc::strong_count(&original), 2);
    assert!(value == &expected_cow);

    let cloned = value.clone();
    assert_eq!(cloned.as_str(), "hello");
    assert_eq!(Rc::strong_count(&original), 3);
}

#[test]
fn local_ref_str_static_promotion_roundtrip() {
    let owned = String::from("borrowed");
    let value = LocalRefStr::from(&owned[..]);
    assert!(value.is_borrowed());

    let promoted = value.to_static_str();
    if usize::BITS == 64 {
        assert!(promoted.is_inline());
    } else {
        assert!(!promoted.is_borrowed());
    }
    assert_eq!(promoted.as_str(), "borrowed");

    let consumed = value.into_static_str();
    if usize::BITS == 64 {
        assert!(consumed.is_inline());
    } else {
        assert!(!consumed.is_borrowed());
    }
    assert_eq!(consumed.as_str(), "borrowed");

    let original: Rc<str> = Rc::<str>::from("shared");
    let shared_val = LocalRefStr::from_shared(original.clone());
    assert!(shared_val.is_shared());
    assert_eq!(Rc::strong_count(&original), 2);

    let promoted_shared = shared_val.to_static_str();
    assert!(promoted_shared.is_shared());
    assert_eq!(Rc::strong_count(&original), 3);

    let consumed_shared = shared_val.into_static_str();
    assert!(consumed_shared.is_shared());
    assert_eq!(Rc::strong_count(&original), 3);
}

#[test]
fn local_ref_str_reference_lhs_partial_eq_roundtrip() {
    let borrowed_owner = String::from("borrowed");
    let borrowed = LocalRefStr::from(&borrowed_owner[..]);
    let borrowed_string = String::from("borrowed");
    let borrowed_cow = Cow::Borrowed("borrowed");
    let borrowed_arc = Arc::<str>::from("borrowed");
    let borrowed_rc = Rc::<str>::from("borrowed");

    assert!((&borrowed) == borrowed.clone());
    assert!((&borrowed) == "borrowed");
    assert!((&borrowed) == &borrowed_string);
    assert!((&borrowed) == &borrowed_cow);
    assert!((&borrowed) == &borrowed_arc);
    assert!((&borrowed) == &borrowed_rc);

    let shared = LocalRefStr::from_shared(Rc::<str>::from("shared"));
    let shared_string = String::from("shared");
    let shared_cow: Cow<'_, str> = Cow::Owned(String::from("shared"));
    let shared_arc = Arc::<str>::from("shared");
    let shared_rc = Rc::<str>::from("shared");

    assert!((&shared) == shared.clone());
    assert!((&shared) == "shared");
    assert!((&shared) == &shared_string);
    assert!((&shared) == &shared_cow);
    assert!((&shared) == &shared_arc);
    assert!((&shared) == &shared_rc);
}

#[test]
fn local_ref_str_rhs_reference_partial_eq_roundtrip() {
    let borrowed_owner = String::from("borrowed");
    let borrowed = LocalRefStr::from(&borrowed_owner[..]);
    let borrowed_cow = Cow::Borrowed("borrowed");
    let borrowed_arc = Arc::<str>::from("borrowed");
    let borrowed_rc = Rc::<str>::from("borrowed");

    assert!(borrowed == &borrowed_cow);
    assert!(borrowed == &borrowed_arc);
    assert!(borrowed == &borrowed_rc);

    let shared = LocalRefStr::from_shared(Rc::<str>::from("shared"));
    let shared_cow: Cow<'_, str> = Cow::Owned(String::from("shared"));
    let shared_arc = Arc::<str>::from("shared");
    let shared_rc = Rc::<str>::from("shared");

    assert!(shared == &shared_cow);
    assert!(shared == &shared_arc);
    assert!(shared == &shared_rc);
}

#[test]
fn local_ref_str_inline_partial_eq_and_hash_lookup_roundtrip() {
    let left = LocalRefStr::from(String::from("tiny"));
    let same = LocalRefStr::from(String::from("tiny"));
    let different = LocalRefStr::from(String::from("tyne"));

    assert!(left.is_inline());
    assert!(same.is_inline());
    assert!(different.is_inline());
    assert!(left == same);
    assert!(left != different);

    let mut map = HashMap::new();
    map.insert(left.clone(), 7usize);

    assert_eq!(map.get("tiny"), Some(&7usize));
}

#[test]
fn local_ref_str_backend_conversion_roundtrip() {
    let shared = LocalRefStr::from_shared(Rc::<str>::from("bridge"));
    let peer: RefStr<'_> = shared.clone().into();
    let back: LocalRefStr<'_> = peer.into();

    assert_eq!(back.as_str(), "bridge");
    assert!(back.is_shared());

    let borrowed_owner = String::from("borrowed");
    let borrowed = LocalRefStr::from(&borrowed_owner[..]);
    let peer_borrowed: RefStr<'_> = borrowed.into();

    assert_eq!(peer_borrowed.as_str(), "borrowed");
    assert!(peer_borrowed.is_borrowed());
}

#[test]
fn shared_ref_str_borrowed_roundtrip() {
    let owned = String::from("borrowed");
    let value = RefStr::from(&owned[..]);
    let borrowed_cow = Cow::Borrowed("borrowed");
    let borrowed_arc = Arc::<str>::from("borrowed");
    let borrowed_rc = Rc::<str>::from("borrowed");

    assert_eq!(value.as_str(), "borrowed");
    assert!(value.is_borrowed());
    assert_eq!(value.as_cow(), Cow::Borrowed("borrowed"));
    assert!(value == &borrowed_cow);
    assert!(value == &borrowed_arc);
    assert!(value == &borrowed_rc);
}

#[test]
fn shared_ref_str_owned_roundtrip() {
    let from_string: RefStr<'_> = String::from("hello").into();
    let from_box: RefStr<'_> = Box::<str>::from("boxed").into();
    let from_cow: RefStr<'_> = Cow::Borrowed("cow").into();

    assert_eq!(from_string.clone().into_string(), "hello");
    assert_eq!(from_box.into_boxed_str().as_ref(), "boxed");
    assert_eq!(from_cow.as_str(), "cow");
    assert!(from_string.is_inline());
}

#[test]
fn shared_ref_str_shared_roundtrip() {
    let original: Arc<str> = Arc::<str>::from("hello");
    let value = RefStr::from_shared(original.clone());
    let expected_cow: Cow<'_, str> = Cow::Owned(String::from("hello"));

    assert_eq!(value.as_str(), "hello");
    assert!(value.is_shared());
    assert_eq!(Arc::strong_count(&original), 2);
    assert!(value == &expected_cow);

    let cloned = value.clone();
    assert_eq!(cloned.as_str(), "hello");
    assert_eq!(Arc::strong_count(&original), 3);
}

#[test]
fn shared_ref_str_static_promotion_roundtrip() {
    let owned = String::from("borrowed");
    let value = RefStr::from(&owned[..]);
    assert!(value.is_borrowed());

    let promoted = value.to_static_str();
    if usize::BITS == 64 {
        assert!(promoted.is_inline());
    } else {
        assert!(!promoted.is_borrowed());
    }
    assert_eq!(promoted.as_str(), "borrowed");

    let consumed = value.into_static_str();
    if usize::BITS == 64 {
        assert!(consumed.is_inline());
    } else {
        assert!(!consumed.is_borrowed());
    }
    assert_eq!(consumed.as_str(), "borrowed");

    let original: Arc<str> = Arc::<str>::from("shared");
    let shared_val = RefStr::from_shared(original.clone());
    assert!(shared_val.is_shared());
    assert_eq!(Arc::strong_count(&original), 2);

    let promoted_shared = shared_val.to_static_str();
    assert!(promoted_shared.is_shared());
    assert_eq!(Arc::strong_count(&original), 3);

    let consumed_shared = shared_val.into_static_str();
    assert!(consumed_shared.is_shared());
    assert_eq!(Arc::strong_count(&original), 3);
}

#[test]
fn shared_ref_str_reference_lhs_partial_eq_roundtrip() {
    let borrowed_owner = String::from("borrowed");
    let borrowed = RefStr::from(&borrowed_owner[..]);
    let borrowed_string = String::from("borrowed");
    let borrowed_cow = Cow::Borrowed("borrowed");
    let borrowed_arc = Arc::<str>::from("borrowed");
    let borrowed_rc = Rc::<str>::from("borrowed");

    assert!((&borrowed) == borrowed.clone());
    assert!((&borrowed) == "borrowed");
    assert!((&borrowed) == &borrowed_string);
    assert!((&borrowed) == &borrowed_cow);
    assert!((&borrowed) == &borrowed_arc);
    assert!((&borrowed) == &borrowed_rc);

    let shared = RefStr::from_shared(Arc::<str>::from("shared"));
    let shared_string = String::from("shared");
    let shared_cow: Cow<'_, str> = Cow::Owned(String::from("shared"));
    let shared_arc = Arc::<str>::from("shared");
    let shared_rc = Rc::<str>::from("shared");

    assert!((&shared) == shared.clone());
    assert!((&shared) == "shared");
    assert!((&shared) == &shared_string);
    assert!((&shared) == &shared_cow);
    assert!((&shared) == &shared_arc);
    assert!((&shared) == &shared_rc);
}

#[test]
fn shared_ref_str_rhs_reference_partial_eq_roundtrip() {
    let borrowed_owner = String::from("borrowed");
    let borrowed = RefStr::from(&borrowed_owner[..]);
    let borrowed_cow = Cow::Borrowed("borrowed");
    let borrowed_arc = Arc::<str>::from("borrowed");
    let borrowed_rc = Rc::<str>::from("borrowed");

    assert!(borrowed == &borrowed_cow);
    assert!(borrowed == &borrowed_arc);
    assert!(borrowed == &borrowed_rc);

    let shared = RefStr::from_shared(Arc::<str>::from("shared"));
    let shared_cow: Cow<'_, str> = Cow::Owned(String::from("shared"));
    let shared_arc = Arc::<str>::from("shared");
    let shared_rc = Rc::<str>::from("shared");

    assert!(shared == &shared_cow);
    assert!(shared == &shared_arc);
    assert!(shared == &shared_rc);
}

#[test]
fn shared_ref_str_inline_partial_eq_and_hash_lookup_roundtrip() {
    let left = RefStr::from(String::from("tiny"));
    let same = RefStr::from(String::from("tiny"));
    let different = RefStr::from(String::from("tyne"));

    assert!(left.is_inline());
    assert!(same.is_inline());
    assert!(different.is_inline());
    assert!(left == same);
    assert!(left != different);

    let mut map = HashMap::new();
    map.insert(left.clone(), 7usize);

    assert_eq!(map.get("tiny"), Some(&7usize));
}

#[test]
fn shared_ref_str_backend_conversion_roundtrip() {
    let shared = RefStr::from_shared(Arc::<str>::from("bridge"));
    let peer: LocalRefStr<'_> = shared.clone().into();
    let back: RefStr<'_> = peer.into();

    assert_eq!(back.as_str(), "bridge");
    assert!(back.is_shared());

    let borrowed_owner = String::from("borrowed");
    let borrowed = RefStr::from(&borrowed_owner[..]);
    let peer_borrowed: LocalRefStr<'_> = borrowed.into();

    assert_eq!(peer_borrowed.as_str(), "borrowed");
    assert!(peer_borrowed.is_borrowed());
}

#[test]
fn local_static_ref_str_borrowed_roundtrip() {
    let value = LocalStaticRefStr::from_static("borrowed");
    let default_value: LocalStaticRefStr = Default::default();
    let borrowed_cow = Cow::Borrowed("borrowed");
    let borrowed_arc = Arc::<str>::from("borrowed");
    let borrowed_rc = Rc::<str>::from("borrowed");

    assert_eq!(value.as_str(), "borrowed");
    assert!(value.is_borrowed());
    assert!(default_value.is_borrowed());
    assert_eq!(default_value.as_str(), "");
    assert!(value == &borrowed_cow);
    assert!(value == &borrowed_arc);
    assert!(value == &borrowed_rc);
}

#[test]
fn local_static_ref_str_owned_roundtrip() {
    let from_string: LocalStaticRefStr = String::from("hello").into();
    let from_box: LocalStaticRefStr = Box::<str>::from("boxed").into();
    let from_cow: LocalStaticRefStr = Cow::Borrowed("cow").into();

    assert_eq!(from_string.clone().into_string(), "hello");
    assert_eq!(from_box.into_boxed_str().as_ref(), "boxed");
    assert_eq!(from_cow.as_str(), "cow");
    assert!(from_string.is_inline());
}

#[test]
fn local_static_ref_str_shared_roundtrip() {
    let original: Rc<str> = Rc::<str>::from("hello");
    let value = LocalStaticRefStr::from_shared(original.clone());
    let expected_cow: Cow<'_, str> = Cow::Owned(String::from("hello"));

    assert_eq!(value.as_str(), "hello");
    assert!(value.is_shared());
    assert_eq!(Rc::strong_count(&original), 2);
    assert!(value == &expected_cow);

    let cloned = value.clone();
    assert_eq!(cloned.as_str(), "hello");
    assert_eq!(Rc::strong_count(&original), 3);
}

#[test]
fn local_static_ref_str_reference_lhs_partial_eq_roundtrip() {
    let borrowed = LocalStaticRefStr::from_static("borrowed");
    let borrowed_string = String::from("borrowed");
    let borrowed_cow = Cow::Borrowed("borrowed");
    let borrowed_arc = Arc::<str>::from("borrowed");
    let borrowed_rc = Rc::<str>::from("borrowed");

    assert!((&borrowed) == borrowed.clone());
    assert!((&borrowed) == "borrowed");
    assert!((&borrowed) == &borrowed_string);
    assert!((&borrowed) == &borrowed_cow);
    assert!((&borrowed) == &borrowed_arc);
    assert!((&borrowed) == &borrowed_rc);

    let shared = LocalStaticRefStr::from_shared(Rc::<str>::from("shared"));
    let shared_string = String::from("shared");
    let shared_cow: Cow<'_, str> = Cow::Owned(String::from("shared"));
    let shared_arc = Arc::<str>::from("shared");
    let shared_rc = Rc::<str>::from("shared");

    assert!((&shared) == shared.clone());
    assert!((&shared) == "shared");
    assert!((&shared) == &shared_string);
    assert!((&shared) == &shared_cow);
    assert!((&shared) == &shared_arc);
    assert!((&shared) == &shared_rc);
}

#[test]
fn local_static_ref_str_rhs_reference_partial_eq_roundtrip() {
    let borrowed = LocalStaticRefStr::from_static("borrowed");
    let borrowed_cow = Cow::Borrowed("borrowed");
    let borrowed_arc = Arc::<str>::from("borrowed");
    let borrowed_rc = Rc::<str>::from("borrowed");

    assert!(borrowed == &borrowed_cow);
    assert!(borrowed == &borrowed_arc);
    assert!(borrowed == &borrowed_rc);

    let shared = LocalStaticRefStr::from_shared(Rc::<str>::from("shared"));
    let shared_cow: Cow<'_, str> = Cow::Owned(String::from("shared"));
    let shared_arc = Arc::<str>::from("shared");
    let shared_rc = Rc::<str>::from("shared");

    assert!(shared == &shared_cow);
    assert!(shared == &shared_arc);
    assert!(shared == &shared_rc);
}

#[test]
fn local_static_ref_str_backend_conversion_roundtrip() {
    let shared = LocalStaticRefStr::from_shared(Rc::<str>::from("bridge"));
    let peer: StaticRefStr = shared.clone().into();
    let back: LocalStaticRefStr = peer.into();

    assert_eq!(back.as_str(), "bridge");
    assert!(back.is_shared());
}

#[test]
fn local_static_ref_str_static_generic_roundtrip() {
    let value = LocalStaticRefStr::from_static("static");
    let generic: LocalRefStr<'static> = value.clone().into();

    assert_eq!(generic.as_str(), "static");
    let back: LocalStaticRefStr = generic.into();
    assert_eq!(back.as_str(), "static");
    assert!(back.is_borrowed());
}

#[test]
fn shared_static_ref_str_borrowed_roundtrip() {
    let value = StaticRefStr::from_static("borrowed");
    let default_value: StaticRefStr = Default::default();
    let borrowed_cow = Cow::Borrowed("borrowed");
    let borrowed_arc = Arc::<str>::from("borrowed");
    let borrowed_rc = Rc::<str>::from("borrowed");

    assert_eq!(value.as_str(), "borrowed");
    assert!(value.is_borrowed());
    assert!(default_value.is_borrowed());
    assert_eq!(default_value.as_str(), "");
    assert!(value == &borrowed_cow);
    assert!(value == &borrowed_arc);
    assert!(value == &borrowed_rc);
}

#[test]
fn shared_static_ref_str_owned_roundtrip() {
    let from_string: StaticRefStr = String::from("hello").into();
    let from_box: StaticRefStr = Box::<str>::from("boxed").into();
    let from_cow: StaticRefStr = Cow::Borrowed("cow").into();

    assert_eq!(from_string.clone().into_string(), "hello");
    assert_eq!(from_box.into_boxed_str().as_ref(), "boxed");
    assert_eq!(from_cow.as_str(), "cow");
    assert!(from_string.is_inline());
}

#[test]
fn shared_static_ref_str_shared_roundtrip() {
    let original: Arc<str> = Arc::<str>::from("hello");
    let value = StaticRefStr::from_shared(original.clone());
    let expected_cow: Cow<'_, str> = Cow::Owned(String::from("hello"));

    assert_eq!(value.as_str(), "hello");
    assert!(value.is_shared());
    assert_eq!(Arc::strong_count(&original), 2);
    assert!(value == &expected_cow);

    let cloned = value.clone();
    assert_eq!(cloned.as_str(), "hello");
    assert_eq!(Arc::strong_count(&original), 3);
}

#[test]
fn shared_static_ref_str_reference_lhs_partial_eq_roundtrip() {
    let borrowed = StaticRefStr::from_static("borrowed");
    let borrowed_string = String::from("borrowed");
    let borrowed_cow = Cow::Borrowed("borrowed");
    let borrowed_arc = Arc::<str>::from("borrowed");
    let borrowed_rc = Rc::<str>::from("borrowed");

    assert!((&borrowed) == borrowed.clone());
    assert!((&borrowed) == "borrowed");
    assert!((&borrowed) == &borrowed_string);
    assert!((&borrowed) == &borrowed_cow);
    assert!((&borrowed) == &borrowed_arc);
    assert!((&borrowed) == &borrowed_rc);

    let shared = StaticRefStr::from_shared(Arc::<str>::from("shared"));
    let shared_string = String::from("shared");
    let shared_cow: Cow<'_, str> = Cow::Owned(String::from("shared"));
    let shared_arc = Arc::<str>::from("shared");
    let shared_rc = Rc::<str>::from("shared");

    assert!((&shared) == shared.clone());
    assert!((&shared) == "shared");
    assert!((&shared) == &shared_string);
    assert!((&shared) == &shared_cow);
    assert!((&shared) == &shared_arc);
    assert!((&shared) == &shared_rc);
}

#[test]
fn shared_static_ref_str_rhs_reference_partial_eq_roundtrip() {
    let borrowed = StaticRefStr::from_static("borrowed");
    let borrowed_cow = Cow::Borrowed("borrowed");
    let borrowed_arc = Arc::<str>::from("borrowed");
    let borrowed_rc = Rc::<str>::from("borrowed");

    assert!(borrowed == &borrowed_cow);
    assert!(borrowed == &borrowed_arc);
    assert!(borrowed == &borrowed_rc);

    let shared = StaticRefStr::from_shared(Arc::<str>::from("shared"));
    let shared_cow: Cow<'_, str> = Cow::Owned(String::from("shared"));
    let shared_arc = Arc::<str>::from("shared");
    let shared_rc = Rc::<str>::from("shared");

    assert!(shared == &shared_cow);
    assert!(shared == &shared_arc);
    assert!(shared == &shared_rc);
}

#[test]
fn shared_static_ref_str_backend_conversion_roundtrip() {
    let shared = StaticRefStr::from_shared(Arc::<str>::from("bridge"));
    let peer: LocalStaticRefStr = shared.clone().into();
    let back: StaticRefStr = peer.into();

    assert_eq!(back.as_str(), "bridge");
    assert!(back.is_shared());
}

#[test]
fn shared_static_ref_str_static_generic_roundtrip() {
    let value = StaticRefStr::from_static("static");
    let generic: RefStr<'static> = value.clone().into();

    assert_eq!(generic.as_str(), "static");
    let back: StaticRefStr = generic.into();
    assert_eq!(back.as_str(), "static");
    assert!(back.is_borrowed());
}
