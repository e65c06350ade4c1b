//! Thread-safe compact strings, shared through `Arc<str>`.
use vstd::prelude::*;
use vstd::string::StringSliceAdditionalSpecFns;
use vstd::std_specs::cmp::{PartialEqSpec, PartialEqSpecImpl, PartialOrdSpec, PartialOrdSpecImpl};
use vstd::std_specs::convert::FromSpecImpl;
use vstd::utf8::{encode_utf8, is_ascii_chars};
use core::cmp::Ordering;
use std::borrow::{Borrow, Cow};
use std::hash::{Hash, Hasher};
use std::ops::Deref;
use std::rc::Rc;
use std::sync::Arc;

use crate::arch::layout::{INLINE_CAPACITY, MAX_BORROWED_OR_SHARED_LEN};
use crate::arch::StateTag;
use crate::backend::SharedBackend;
use crate::compact::order::{lex_order_of, str_order};
use crate::compact::{spec_owned_state, RefStrCore};
use crate::text::{str_view, cow_as_str, hash_str, str_eq};
use crate::fmt::{debug_render, spec_debug_render};
use crate::local::{LocalRefStr, LocalStaticRefStr};

verus! {

/// A compact string that is either borrowed for `'a`, stored inline, or
/// shared through `Arc<str>`.
///
/// Use this type to keep borrowing when possible while still accepting owned
/// strings and cloning them cheaply through atomic reference counting.
pub struct RefStr<'a>(RefStrCore<'a, SharedBackend>);

impl<'a> View for RefStr<'a> {
    type V = Seq<char>;

    /// The string contents.
    closed spec fn view(&self) -> Seq<char> {
        self.0@
    }
}

impl<'a> RefStr<'a> {
    /// The storage state: borrowed, shared or inline.
    pub closed spec fn state(&self) -> StateTag {
        self.0.state()
    }

    /// Wrap a compact value.
    pub(crate) fn from_inner(inner: RefStrCore<'a, SharedBackend>) -> (r: Self)
        ensures
            r@ == inner@,
            r.state() == inner.state(),
    {
        RefStr(inner)
    }

    /// Borrow the compact value.
    pub(crate) fn inner(&self) -> (r: &RefStrCore<'a, SharedBackend>)
        ensures
            r@ == self@,
            r.state() == self.state(),
    {
        &self.0
    }

    /// Unwrap the compact value.
    pub(crate) fn into_inner(self) -> (r: RefStrCore<'a, SharedBackend>)
        ensures
            r@ == self@,
            r.state() == self.state(),
    {
        self.0
    }

    /// Create a borrowed value from `&str`.
    ///
    /// This is equivalent to [`from_str`](Self::from_str).
    pub fn new(s: &'a str) -> (r: Self)
        requires
            s.spec_bytes().len() <= MAX_BORROWED_OR_SHARED_LEN,
        ensures
            r@ == s@,
            r.state() == StateTag::Borrowed,
    {
        Self::from_inner(RefStrCore::new(s))
    }

    /// Create a borrowed value from `&str`.
    ///
    /// The resulting value does not allocate and stays borrowed.
    pub fn from_str(s: &'a str) -> (r: Self)
        requires
            s.spec_bytes().len() <= MAX_BORROWED_OR_SHARED_LEN,
        ensures
            r@ == s@,
            r.state() == StateTag::Borrowed,
    {
        Self::from_inner(RefStrCore::from_str(s))
    }

    /// Create an owned value from a string.
    ///
    /// Unlike [`from_str`](Self::from_str), this copies the input into owned
    /// storage: short strings are stored inline, longer ones in the backend's
    /// shared representation.
    pub fn from_owned_like(s: &str) -> (r: Self)
        requires
            s.spec_bytes().len() <= MAX_BORROWED_OR_SHARED_LEN,
        ensures
            r@ == s@,
            r.state() == if s.spec_bytes().len() <= INLINE_CAPACITY {
                StateTag::Inline
            } else {
                StateTag::Shared
            },
    {
        Self::from_inner(RefStrCore::from_owned_like(s))
    }

    /// Create a value directly from the backend's shared string type.
    ///
    /// The allocation stays shared; the contents are not copied.
    pub fn from_shared(s: Arc<str>) -> (r: Self)
        requires
            encode_utf8((*s)@).len() <= MAX_BORROWED_OR_SHARED_LEN,
        ensures
            r@ == (*s)@,
            r.state() == StateTag::Shared,
    {
        Self::from_inner(RefStrCore::from_shared(s))
    }

    /// Returns `true` when this value owns shared storage.
    pub fn is_shared(&self) -> (r: bool)
        ensures
            r == (self.state() == StateTag::Shared),
    {
        self.inner().is_shared()
    }

    /// Returns `true` when this value is a borrowed string.
    pub fn is_borrowed(&self) -> (r: bool)
        ensures
            r == (self.state() == StateTag::Borrowed),
    {
        self.inner().is_borrowed()
    }

    /// Returns `true` when this value stores an inline short string.
    pub fn is_inline(&self) -> (r: bool)
        ensures
            r == (self.state() == StateTag::Inline),
    {
        self.inner().is_inline()
    }

    /// Returns `true` when the cached contents are ASCII-only.
    pub fn is_ascii(&self) -> (r: bool)
        ensures
            r == is_ascii_chars(self@),
    {
        self.inner().is_ascii()
    }

    /// Returns the string length in bytes.
    pub fn len(&self) -> (r: usize)
        ensures
            r == encode_utf8(self@).len(),
            r <= MAX_BORROWED_OR_SHARED_LEN,
            self.state() == StateTag::Inline ==> r <= INLINE_CAPACITY,
    {
        self.inner().len()
    }

    /// Returns `true` when the string is empty.
    pub fn is_empty(&self) -> (r: bool)
        ensures
            r == (self@.len() == 0),
    {
        self.inner().is_empty()
    }

    /// Borrows the contents as `&str`.
    pub fn as_str(&self) -> (r: &str)
        ensures
            r@ == self@,
    {
        self.inner().as_str()
    }

    /// Converts this value into owned UTF-8 bytes.
    pub fn into_bytes(self) -> (r: Vec<u8>)
        ensures
            r@ == encode_utf8(self@),
    {
        self.into_inner().into_bytes()
    }

    /// Converts this value into `Box<str>`.
    pub fn into_boxed_str(self) -> (r: Box<str>)
        ensures
            r@ == self@,
    {
        self.into_inner().into_boxed_str()
    }

    /// Converts this value into `String`.
    pub fn into_string(self) -> (r: String)
        ensures
            r@ == self@,
    {
        self.into_inner().into_string()
    }

    /// Hand out the shared storage handle, only when this value is shared.
    ///
    /// Borrowed and inline values give `None`, so the result never stands for
    /// borrowed data.
    pub fn into_raw_shared(self) -> (r: Option<Arc<str>>)
        ensures
            r is Some <==> self.state() == StateTag::Shared,
            r matches Some(h) ==> (*h)@ == self@,
    {
        self.into_inner().into_raw_shared()
    }

    /// Convert a borrowed value into the string it borrows, for the full lifetime.
    pub fn into_str_unchecked(self) -> (r: &'a str)
        requires
            self.state() == StateTag::Borrowed,
        ensures
            r@ == self@,
    {
        self.into_inner().into_str_unchecked()
    }

    /// Converts this value into `Cow<str>`.
    ///
    /// Borrowed values stay borrowed. Inline and shared values become owned strings.
    pub fn into_cow(self) -> (r: Cow<'a, str>)
        ensures
            r@ == self@,
            r is Borrowed <==> self.state() == StateTag::Borrowed,
    {
        self.into_inner().into_cow()
    }

    /// Borrows the contents as `Cow<str>`.
    ///
    /// Borrowed values stay borrowed, for the full lifetime `'a`. Inline and
    /// shared values allocate and clone into an owned string.
    pub fn as_cow(&self) -> (r: Cow<'a, str>)
        ensures
            r@ == self@,
            r is Borrowed <==> self.state() == StateTag::Borrowed,
    {
        self.inner().as_cow()
    }

    /// Convert to the `'static` form.
    ///
    /// Shared values take one more handle on their storage. Borrowed values
    /// are copied into owned storage, inline for short strings and shared for
    /// longer ones.
    pub fn to_static_str(&self) -> (r: StaticRefStr)
        ensures
            r@ == self@,
            r.state() == spec_owned_state(self.state(), self@),
            self.state() == StateTag::Borrowed ==> (r.state() == StateTag::Inline
                <==> encode_utf8(self@).len() <= INLINE_CAPACITY),
            self.state() == StateTag::Borrowed ==> (r.state() == StateTag::Shared
                <==> encode_utf8(self@).len() > INLINE_CAPACITY),
            self.state() != StateTag::Borrowed ==> r.state() == self.state(),
    {
        StaticRefStr::from_inner(self.inner().to_static_core())
    }

    /// Convert into the `'static` form.
    ///
    /// Shared and inline values are transferred directly. Borrowed values are
    /// copied into owned storage, inline for short strings and shared for
    /// longer ones.
    pub fn into_static_str(self) -> (r: StaticRefStr)
        ensures
            r@ == self@,
            r.state() == spec_owned_state(self.state(), self@),
            self.state() == StateTag::Borrowed ==> (r.state() == StateTag::Inline
                <==> encode_utf8(self@).len() <= INLINE_CAPACITY),
            self.state() == StateTag::Borrowed ==> (r.state() == StateTag::Shared
                <==> encode_utf8(self@).len() > INLINE_CAPACITY),
            self.state() != StateTag::Borrowed ==> r.state() == self.state(),
    {
        StaticRefStr::from_inner(self.into_inner().into_static_core())
    }

    /// The contents as a `String`, as `Display` renders them.
    pub fn to_string(&self) -> (r: String)
        ensures
            r@ == self@,
    {
        self.as_str().to_owned()
    }


    /// Render the value for debugging: `RefStr<'a>("...")`, or with
    /// `alternate` a struct rendering with its state, length and contents.
    pub fn debug_string(&self, alternate: bool) -> (r: String)
        ensures
            r@ == spec_debug_render(
                "RefStr<'a>"@,
                self.state(),
                encode_utf8(self@).len(),
                self@,
                alternate,
            ),
    {
        debug_render("RefStr<'a>", self.inner().state_tag(), self.len(), self.as_str(), alternate)
    }
}

impl<'a> Default for RefStr<'a> {
    /// Creates an empty borrowed value.
    fn default() -> (r: Self)
        ensures
            r@ == Seq::<char>::empty(),
            r.state() == StateTag::Borrowed,
    {
        Self::from_inner(RefStrCore::default())
    }
}

impl<'a> AsRef<str> for RefStr<'a> {
    /// Borrows the contents as `&str`.
    fn as_ref(&self) -> (r: &str)
        ensures
            r@ == self@,
    {
        self.as_str()
    }
}

impl<'a> Borrow<str> for RefStr<'a> {
    /// Borrows the contents as `&str`.
    fn borrow(&self) -> (r: &str)
        ensures
            str_view(r) == self@,
    {
        self.as_str()
    }
}

impl<'a> Deref for RefStr<'a> {
    type Target = str;

    /// Borrows the contents as `str`.
    fn deref(&self) -> (r: &str)
        ensures
            r@ == self@,
    {
        self.as_str()
    }
}

impl<'a> Clone for RefStr<'a> {
    /// Clones the string; shared storage gains one more handle.
    fn clone(&self) -> (r: Self)
        ensures
            r@ == self@,
            r.state() == self.state(),
    {
        Self::from_inner(self.inner().clone_core())
    }
}

impl<'a> Eq for RefStr<'a> {
}

impl<'a> Hash for RefStr<'a> {
    /// Hashes the string contents, as `str` hashes them.
    fn hash<H: Hasher>(&self, state: &mut H) {
        hash_str(self.as_str(), state)
    }
}

impl<'a> PartialOrd for RefStr<'a> {
    /// Orders lexicographically by UTF-8 bytes.
    fn partial_cmp(&self, other: &Self) -> (r: Option<Ordering>)
        ensures
            r == Some(lex_order_of(encode_utf8(self@), encode_utf8(other@))),
    {
        Some(str_order(self.as_str(), other.as_str()))
    }
}

impl<'a> PartialOrdSpecImpl for RefStr<'a> {
    open spec fn obeys_partial_cmp_spec() -> bool {
        true
    }

    open spec fn partial_cmp_spec(&self, other: &Self) -> Option<Ordering> {
        Some(lex_order_of(encode_utf8(self@), encode_utf8(other@)))
    }
}

impl<'a> From<&'a str> for RefStr<'a> {
    /// Creates a borrowed value from `&str`; a string too long for the length field gives the empty value.
    fn from(value: &'a str) -> (r: Self)
        ensures
            value.spec_bytes().len() <= MAX_BORROWED_OR_SHARED_LEN ==> r@ == value@ && r.state()
                == StateTag::Borrowed,
            value.spec_bytes().len() > MAX_BORROWED_OR_SHARED_LEN ==> r@ == Seq::<char>::empty()
                && r.state() == StateTag::Borrowed,
    {
        Self::from_inner(RefStrCore::from(value))
    }
}

impl<'a> FromSpecImpl<&'a str> for RefStr<'a> {
    open spec fn obeys_from_spec() -> bool {
        false
    }

    open spec fn from_spec(v: &'a str) -> Self {
        arbitrary()
    }
}

impl<'a> From<&'a String> for RefStr<'a> {
    /// Creates a borrowed value from `&String`; a string too long for the length field gives the empty value.
    fn from(value: &'a String) -> (r: Self)
        ensures
            encode_utf8(value@).len() <= MAX_BORROWED_OR_SHARED_LEN ==> r@ == value@ && r.state()
                == StateTag::Borrowed,
            encode_utf8(value@).len() > MAX_BORROWED_OR_SHARED_LEN ==> r@ == Seq::<char>::empty()
                && r.state() == StateTag::Borrowed,
    {
        Self::from_inner(RefStrCore::from(value.as_str()))
    }
}

impl<'a> FromSpecImpl<&'a String> for RefStr<'a> {
    open spec fn obeys_from_spec() -> bool {
        false
    }

    open spec fn from_spec(v: &'a String) -> Self {
        arbitrary()
    }
}

impl<'a> From<Arc<str>> for RefStr<'a> {
    /// Creates a shared value from the backend's shared string type; a string too long for the length field gives the empty value.
    fn from(value: Arc<str>) -> (r: Self)
        ensures
            encode_utf8((*value)@).len() <= MAX_BORROWED_OR_SHARED_LEN ==> r@ == (*value)@
                && r.state() == StateTag::Shared,
            encode_utf8((*value)@).len() > MAX_BORROWED_OR_SHARED_LEN ==> r@ == Seq::<char>::empty()
                && r.state() == StateTag::Borrowed,
    {
        Self::from_inner(RefStrCore::from_shared_checked(value))
    }
}

impl<'a> FromSpecImpl<Arc<str>> for RefStr<'a> {
    open spec fn obeys_from_spec() -> bool {
        false
    }

    open spec fn from_spec(v: Arc<str>) -> Self {
        arbitrary()
    }
}

impl<'a> From<Box<str>> for RefStr<'a> {
    /// Creates an owned value from `Box<str>`: inline when short, shared otherwise; a string too long for the length field gives the empty value.
    fn from(value: Box<str>) -> (r: Self)
        ensures
            encode_utf8(value@).len() <= MAX_BORROWED_OR_SHARED_LEN ==> r@ == value@ && r.state()
                == if encode_utf8(value@).len() <= INLINE_CAPACITY {
                StateTag::Inline
            } else {
                StateTag::Shared
            },
            encode_utf8(value@).len() > MAX_BORROWED_OR_SHARED_LEN ==> r@ == Seq::<char>::empty()
                && r.state() == StateTag::Borrowed,
    {
        Self::from_inner(RefStrCore::from(value))
    }
}

impl<'a> FromSpecImpl<Box<str>> for RefStr<'a> {
    open spec fn obeys_from_spec() -> bool {
        false
    }

    open spec fn from_spec(v: Box<str>) -> Self {
        arbitrary()
    }
}

impl<'a> From<String> for RefStr<'a> {
    /// Creates an owned value from `String`: inline when short, shared otherwise; a string too long for the length field gives the empty value.
    fn from(value: String) -> (r: Self)
        ensures
            encode_utf8(value@).len() <= MAX_BORROWED_OR_SHARED_LEN ==> r@ == value@ && r.state()
                == if encode_utf8(value@).len() <= INLINE_CAPACITY {
                StateTag::Inline
            } else {
                StateTag::Shared
            },
            encode_utf8(value@).len() > MAX_BORROWED_OR_SHARED_LEN ==> r@ == Seq::<char>::empty()
                && r.state() == StateTag::Borrowed,
    {
        Self::from_inner(RefStrCore::from(value))
    }
}

impl<'a> FromSpecImpl<String> for RefStr<'a> {
    open spec fn obeys_from_spec() -> bool {
        false
    }

    open spec fn from_spec(v: String) -> Self {
        arbitrary()
    }
}

impl<'a> From<Cow<'a, str>> for RefStr<'a> {
    /// Creates a value from `Cow<str>`: borrowed input stays borrowed, owned input becomes owned storage; a string too long for the length field gives the empty value.
    fn from(value: Cow<'a, str>) -> (r: Self)
        ensures
            encode_utf8(value@).len() <= MAX_BORROWED_OR_SHARED_LEN ==> r@ == value@ && r.state()
                == match value {
                Cow::Borrowed(_) => StateTag::Borrowed,
                Cow::Owned(_) => if encode_utf8(value@).len() <= INLINE_CAPACITY {
                    StateTag::Inline
                } else {
                    StateTag::Shared
                },
            },
            encode_utf8(value@).len() > MAX_BORROWED_OR_SHARED_LEN ==> r@ == Seq::<char>::empty()
                && r.state() == StateTag::Borrowed,
    {
        match value {
            Cow::Borrowed(s) => Self::from(s),
            Cow::Owned(s) => Self::from(s),
        }
    }
}

impl<'a> FromSpecImpl<Cow<'a, str>> for RefStr<'a> {
    open spec fn obeys_from_spec() -> bool {
        false
    }

    open spec fn from_spec(v: Cow<'a, str>) -> Self {
        arbitrary()
    }
}

impl<'a> From<RefStr<'a>> for Cow<'a, str> {
    /// Converts into `Cow<str>`: borrowed values stay borrowed, the others become owned.
    fn from(value: RefStr<'a>) -> (r: Self)
        ensures
            r@ == value@,
            r is Borrowed <==> value.state() == StateTag::Borrowed,
    {
        value.into_cow()
    }
}

impl<'a> FromSpecImpl<RefStr<'a>> for Cow<'a, str> {
    open spec fn obeys_from_spec() -> bool {
        false
    }

    open spec fn from_spec(v: RefStr<'a>) -> Self {
        arbitrary()
    }
}

impl<'a> PartialEq<RefStr<'a>> for RefStr<'a> {
    fn eq(&self, other: &RefStr<'a>) -> (r: bool)
        ensures
            r == (self@ == other@),
    {
        self.inner().eq_core(other.inner())
    }
}

impl<'a> PartialEqSpecImpl<RefStr<'a>> for RefStr<'a> {
    open spec fn obeys_eq_spec() -> bool {
        true
    }

    open spec fn eq_spec(&self, other: &RefStr<'a>) -> bool {
        self@ == other@
    }
}

impl<'a> PartialEq<RefStr<'a>> for &RefStr<'a> {
    fn eq(&self, other: &RefStr<'a>) -> (r: bool)
        ensures
            r == ((*self)@ == other@),
    {
        str_eq((*self).as_str(), other.as_str())
    }
}

impl<'a> PartialEqSpecImpl<RefStr<'a>> for &RefStr<'a> {
    open spec fn obeys_eq_spec() -> bool {
        true
    }

    open spec fn eq_spec(&self, other: &RefStr<'a>) -> bool {
        (*self)@ == other@
    }
}

impl<'a> PartialEq<&RefStr<'a>> for RefStr<'a> {
    fn eq(&self, other: &&RefStr<'a>) -> (r: bool)
        ensures
            r == (self@ == (*other)@),
    {
        str_eq(self.as_str(), (*other).as_str())
    }
}

impl<'a> PartialEqSpecImpl<&RefStr<'a>> for RefStr<'a> {
    open spec fn obeys_eq_spec() -> bool {
        true
    }

    open spec fn eq_spec(&self, other: &&RefStr<'a>) -> bool {
        self@ == (*other)@
    }
}

impl<'a> PartialEq<&str> for RefStr<'a> {
    fn eq(&self, other: &&str) -> (r: bool)
        ensures
            r == (self@ == other@),
    {
        str_eq(self.as_str(), *other)
    }
}

impl<'a> PartialEqSpecImpl<&str> for RefStr<'a> {
    open spec fn obeys_eq_spec() -> bool {
        true
    }

    open spec fn eq_spec(&self, other: &&str) -> bool {
        self@ == other@
    }
}

impl<'a> PartialEq<&str> for &RefStr<'a> {
    fn eq(&self, other: &&str) -> (r: bool)
        ensures
            r == ((*self)@ == other@),
    {
        str_eq((*self).as_str(), *other)
    }
}

impl<'a> PartialEqSpecImpl<&str> for &RefStr<'a> {
    open spec fn obeys_eq_spec() -> bool {
        true
    }

    open spec fn eq_spec(&self, other: &&str) -> bool {
        (*self)@ == other@
    }
}

impl<'a> PartialEq<&&str> for RefStr<'a> {
    fn eq(&self, other: &&&str) -> (r: bool)
        ensures
            r == (self@ == (*other)@),
    {
        str_eq(self.as_str(), *(*other))
    }
}

impl<'a> PartialEqSpecImpl<&&str> for RefStr<'a> {
    open spec fn obeys_eq_spec() -> bool {
        true
    }

    open spec fn eq_spec(&self, other: &&&str) -> bool {
        self@ == (*other)@
    }
}

impl<'a> PartialEq<String> for RefStr<'a> {
    fn eq(&self, other: &String) -> (r: bool)
        ensures
            r == (self@ == other@),
    {
        str_eq(self.as_str(), other.as_str())
    }
}

impl<'a> PartialEqSpecImpl<String> for RefStr<'a> {
    open spec fn obeys_eq_spec() -> bool {
        true
    }

    open spec fn eq_spec(&self, other: &String) -> bool {
        self@ == other@
    }
}

impl<'a> PartialEq<String> for &RefStr<'a> {
    fn eq(&self, other: &String) -> (r: bool)
        ensures
            r == ((*self)@ == other@),
    {
        str_eq((*self).as_str(), other.as_str())
    }
}

impl<'a> PartialEqSpecImpl<String> for &RefStr<'a> {
    open spec fn obeys_eq_spec() -> bool {
        true
    }

    open spec fn eq_spec(&self, other: &String) -> bool {
        (*self)@ == other@
    }
}

impl<'a> PartialEq<&String> for RefStr<'a> {
    fn eq(&self, other: &&String) -> (r: bool)
        ensures
            r == (self@ == (*other)@),
    {
        str_eq(self.as_str(), (*other).as_str())
    }
}

impl<'a> PartialEqSpecImpl<&String> for RefStr<'a> {
    open spec fn obeys_eq_spec() -> bool {
        true
    }

    open spec fn eq_spec(&self, other: &&String) -> bool {
        self@ == (*other)@
    }
}

impl<'a, 'b> PartialEq<Cow<'b, str>> for RefStr<'a> {
    fn eq(&self, other: &Cow<'b, str>) -> (r: bool)
        ensures
            r == (self@ == other@),
    {
        str_eq(self.as_str(), cow_as_str(other))
    }
}

impl<'a, 'b> PartialEqSpecImpl<Cow<'b, str>> for RefStr<'a> {
    open spec fn obeys_eq_spec() -> bool {
        true
    }

    open spec fn eq_spec(&self, other: &Cow<'b, str>) -> bool {
        self@ == other@
    }
}

impl<'a, 'b> PartialEq<Cow<'b, str>> for &RefStr<'a> {
    fn eq(&self, other: &Cow<'b, str>) -> (r: bool)
        ensures
            r == ((*self)@ == other@),
    {
        str_eq((*self).as_str(), cow_as_str(other))
    }
}

impl<'a, 'b> PartialEqSpecImpl<Cow<'b, str>> for &RefStr<'a> {
    open spec fn obeys_eq_spec() -> bool {
        true
    }

    open spec fn eq_spec(&self, other: &Cow<'b, str>) -> bool {
        (*self)@ == other@
    }
}

impl<'a, 'b> PartialEq<&Cow<'b, str>> for RefStr<'a> {
    fn eq(&self, other: &&Cow<'b, str>) -> (r: bool)
        ensures
            r == (self@ == (*other)@),
    {
        str_eq(self.as_str(), cow_as_str((*other)))
    }
}

impl<'a, 'b> PartialEqSpecImpl<&Cow<'b, str>> for RefStr<'a> {
    open spec fn obeys_eq_spec() -> bool {
        true
    }

    open spec fn eq_spec(&self, other: &&Cow<'b, str>) -> bool {
        self@ == (*other)@
    }
}

impl<'a> PartialEq<Arc<str>> for RefStr<'a> {
    fn eq(&self, other: &Arc<str>) -> (r: bool)
        ensures
            r == (self@ == (**other)@),
    {
        str_eq(self.as_str(), &**other)
    }
}

impl<'a> PartialEqSpecImpl<Arc<str>> for RefStr<'a> {
    open spec fn obeys_eq_spec() -> bool {
        true
    }

    open spec fn eq_spec(&self, other: &Arc<str>) -> bool {
        self@ == (**other)@
    }
}

impl<'a> PartialEq<Arc<str>> for &RefStr<'a> {
    fn eq(&self, other: &Arc<str>) -> (r: bool)
        ensures
            r == ((*self)@ == (**other)@),
    {
        str_eq((*self).as_str(), &**other)
    }
}

impl<'a> PartialEqSpecImpl<Arc<str>> for &RefStr<'a> {
    open spec fn obeys_eq_spec() -> bool {
        true
    }

    open spec fn eq_spec(&self, other: &Arc<str>) -> bool {
        (*self)@ == (**other)@
    }
}

impl<'a> PartialEq<&Arc<str>> for RefStr<'a> {
    fn eq(&self, other: &&Arc<str>) -> (r: bool)
        ensures
            r == (self@ == (**(*other))@),
    {
        str_eq(self.as_str(), &**(*other))
    }
}

impl<'a> PartialEqSpecImpl<&Arc<str>> for RefStr<'a> {
    open spec fn obeys_eq_spec() -> bool {
        true
    }

    open spec fn eq_spec(&self, other: &&Arc<str>) -> bool {
        self@ == (**(*other))@
    }
}

impl<'a> PartialEq<Rc<str>> for RefStr<'a> {
    fn eq(&self, other: &Rc<str>) -> (r: bool)
        ensures
            r == (self@ == (**other)@),
    {
        str_eq(self.as_str(), &**other)
    }
}

impl<'a> PartialEqSpecImpl<Rc<str>> for RefStr<'a> {
    open spec fn obeys_eq_spec() -> bool {
        true
    }

    open spec fn eq_spec(&self, other: &Rc<str>) -> bool {
        self@ == (**other)@
    }
}

impl<'a> PartialEq<Rc<str>> for &RefStr<'a> {
    fn eq(&self, other: &Rc<str>) -> (r: bool)
        ensures
            r == ((*self)@ == (**other)@),
    {
        str_eq((*self).as_str(), &**other)
    }
}

impl<'a> PartialEqSpecImpl<Rc<str>> for &RefStr<'a> {
    open spec fn obeys_eq_spec() -> bool {
        true
    }

    open spec fn eq_spec(&self, other: &Rc<str>) -> bool {
        (*self)@ == (**other)@
    }
}

impl<'a> PartialEq<&Rc<str>> for RefStr<'a> {
    fn eq(&self, other: &&Rc<str>) -> (r: bool)
        ensures
            r == (self@ == (**(*other))@),
    {
        str_eq(self.as_str(), &**(*other))
    }
}

impl<'a> PartialEqSpecImpl<&Rc<str>> for RefStr<'a> {
    open spec fn obeys_eq_spec() -> bool {
        true
    }

    open spec fn eq_spec(&self, other: &&Rc<str>) -> bool {
        self@ == (**(*other))@
    }
}

/// Law: `partial_cmp` orders two values by the bytes of the left operand
/// against those of the right one.
pub proof fn law_ref_str_partial_cmp<'a>(a: &RefStr<'a>, b: &RefStr<'a>)
    ensures
        PartialOrdSpec::partial_cmp_spec(a, b) == Some(lex_order_of(encode_utf8(a@), encode_utf8(b@))),
{
}

/// Law: `==` between `RefStr<'a>` and `RefStr<'a>` holds exactly when the contents are equal.
pub proof fn law_ref_str_eq_contents_0<'a>(a: &RefStr<'a>, b: &RefStr<'a>)
    ensures
        <RefStr<'a> as PartialEqSpec<RefStr<'a>>>::eq_spec(a, b) == (a@ == b@),
{
}

/// Law: `==` between `&RefStr<'a>` and `RefStr<'a>` holds exactly when the contents are equal.
pub proof fn law_ref_str_eq_contents_1<'a>(a: &&RefStr<'a>, b: &RefStr<'a>)
    ensures
        <&RefStr<'a> as PartialEqSpec<RefStr<'a>>>::eq_spec(a, b) == ((*a)@ == b@),
{
}

/// Law: `==` between `RefStr<'a>` and `&RefStr<'a>` holds exactly when the contents are equal.
pub proof fn law_ref_str_eq_contents_2<'a>(a: &RefStr<'a>, b: &&RefStr<'a>)
    ensures
        <RefStr<'a> as PartialEqSpec<&RefStr<'a>>>::eq_spec(a, b) == (a@ == (*b)@),
{
}

/// Law: `==` between `RefStr<'a>` and `&str` holds exactly when the contents are equal.
pub proof fn law_ref_str_eq_contents_3<'a>(a: &RefStr<'a>, b: &&str)
    ensures
        <RefStr<'a> as PartialEqSpec<&str>>::eq_spec(a, b) == (a@ == b@),
{
}

/// Law: `==` between `&RefStr<'a>` and `&str` holds exactly when the contents are equal.
pub proof fn law_ref_str_eq_contents_4<'a>(a: &&RefStr<'a>, b: &&str)
    ensures
        <&RefStr<'a> as PartialEqSpec<&str>>::eq_spec(a, b) == ((*a)@ == b@),
{
}

/// Law: `==` between `RefStr<'a>` and `&&str` holds exactly when the contents are equal.
pub proof fn law_ref_str_eq_contents_5<'a>(a: &RefStr<'a>, b: &&&str)
    ensures
        <RefStr<'a> as PartialEqSpec<&&str>>::eq_spec(a, b) == (a@ == (*b)@),
{
}

/// Law: `==` between `RefStr<'a>` and `String` holds exactly when the contents are equal.
pub proof fn law_ref_str_eq_contents_6<'a>(a: &RefStr<'a>, b: &String)
    ensures
        <RefStr<'a> as PartialEqSpec<String>>::eq_spec(a, b) == (a@ == b@),
{
}

/// Law: `==` between `&RefStr<'a>` and `String` holds exactly when the contents are equal.
pub proof fn law_ref_str_eq_contents_7<'a>(a: &&RefStr<'a>, b: &String)
    ensures
        <&RefStr<'a> as PartialEqSpec<String>>::eq_spec(a, b) == ((*a)@ == b@),
{
}

/// Law: `==` between `RefStr<'a>` and `&String` holds exactly when the contents are equal.
pub proof fn law_ref_str_eq_contents_8<'a>(a: &RefStr<'a>, b: &&String)
    ensures
        <RefStr<'a> as PartialEqSpec<&String>>::eq_spec(a, b) == (a@ == (*b)@),
{
}

/// Law: `==` between `RefStr<'a>` and `Cow<'b, str>` holds exactly when the contents are equal.
pub proof fn law_ref_str_eq_contents_9<'a, 'b>(a: &RefStr<'a>, b: &Cow<'b, str>)
    ensures
        <RefStr<'a> as PartialEqSpec<Cow<'b, str>>>::eq_spec(a, b) == (a@ == b@),
{
}

/// Law: `==` between `&RefStr<'a>` and `Cow<'b, str>` holds exactly when the contents are equal.
pub proof fn law_ref_str_eq_contents_10<'a, 'b>(a: &&RefStr<'a>, b: &Cow<'b, str>)
    ensures
        <&RefStr<'a> as PartialEqSpec<Cow<'b, str>>>::eq_spec(a, b) == ((*a)@ == b@),
{
}

/// Law: `==` between `RefStr<'a>` and `&Cow<'b, str>` holds exactly when the contents are equal.
pub proof fn law_ref_str_eq_contents_11<'a, 'b>(a: &RefStr<'a>, b: &&Cow<'b, str>)
    ensures
        <RefStr<'a> as PartialEqSpec<&Cow<'b, str>>>::eq_spec(a, b) == (a@ == (*b)@),
{
}

/// Law: `==` between `RefStr<'a>` and `Arc<str>` holds exactly when the contents are equal.
pub proof fn law_ref_str_eq_contents_12<'a>(a: &RefStr<'a>, b: &Arc<str>)
    ensures
        <RefStr<'a> as PartialEqSpec<Arc<str>>>::eq_spec(a, b) == (a@ == (**b)@),
{
}

/// Law: `==` between `&RefStr<'a>` and `Arc<str>` holds exactly when the contents are equal.
pub proof fn law_ref_str_eq_contents_13<'a>(a: &&RefStr<'a>, b: &Arc<str>)
    ensures
        <&RefStr<'a> as PartialEqSpec<Arc<str>>>::eq_spec(a, b) == ((*a)@ == (**b)@),
{
}

/// Law: `==` between `RefStr<'a>` and `&Arc<str>` holds exactly when the contents are equal.
pub proof fn law_ref_str_eq_contents_14<'a>(a: &RefStr<'a>, b: &&Arc<str>)
    ensures
        <RefStr<'a> as PartialEqSpec<&Arc<str>>>::eq_spec(a, b) == (a@ == (**(*b))@),
{
}

/// Law: `==` between `RefStr<'a>` and `Rc<str>` holds exactly when the contents are equal.
pub proof fn law_ref_str_eq_contents_15<'a>(a: &RefStr<'a>, b: &Rc<str>)
    ensures
        <RefStr<'a> as PartialEqSpec<Rc<str>>>::eq_spec(a, b) == (a@ == (**b)@),
{
}

/// Law: `==` between `&RefStr<'a>` and `Rc<str>` holds exactly when the contents are equal.
pub proof fn law_ref_str_eq_contents_16<'a>(a: &&RefStr<'a>, b: &Rc<str>)
    ensures
        <&RefStr<'a> as PartialEqSpec<Rc<str>>>::eq_spec(a, b) == ((*a)@ == (**b)@),
{
}

/// Law: `==` between `RefStr<'a>` and `&Rc<str>` holds exactly when the contents are equal.
pub proof fn law_ref_str_eq_contents_17<'a>(a: &RefStr<'a>, b: &&Rc<str>)
    ensures
        <RefStr<'a> as PartialEqSpec<&Rc<str>>>::eq_spec(a, b) == (a@ == (**(*b))@),
{
}

/// A `'static` compact string that is either borrowed, stored inline, or
/// shared through `Arc<str>`.
///
/// Borrowed values hold `&'static str`; owned inputs are kept inline or in
/// shared storage, so the value stays `'static`.
pub struct StaticRefStr(RefStrCore<'static, SharedBackend>);

impl View for StaticRefStr {
    type V = Seq<char>;

    /// The string contents.
    closed spec fn view(&self) -> Seq<char> {
        self.0@
    }
}

impl StaticRefStr {
    /// The storage state: borrowed, shared or inline.
    pub closed spec fn state(&self) -> StateTag {
        self.0.state()
    }

    /// Wrap a compact value.
    pub(crate) fn from_inner(inner: RefStrCore<'static, SharedBackend>) -> (r: Self)
        ensures
            r@ == inner@,
            r.state() == inner.state(),
    {
        StaticRefStr(inner)
    }

    /// Borrow the compact value.
    pub(crate) fn inner(&self) -> (r: &RefStrCore<'static, SharedBackend>)
        ensures
            r@ == self@,
            r.state() == self.state(),
    {
        &self.0
    }

    /// Unwrap the compact value.
    pub(crate) fn into_inner(self) -> (r: RefStrCore<'static, SharedBackend>)
        ensures
            r@ == self@,
            r.state() == self.state(),
    {
        self.0
    }

    /// Create a borrowed value from `&str`.
    ///
    /// This is equivalent to [`from_str`](Self::from_str).
    pub fn new(s: &'static str) -> (r: Self)
        requires
            s.spec_bytes().len() <= MAX_BORROWED_OR_SHARED_LEN,
        ensures
            r@ == s@,
            r.state() == StateTag::Borrowed,
    {
        Self::from_inner(RefStrCore::new(s))
    }

    /// Create a borrowed value from `&str`.
    ///
    /// The resulting value does not allocate and stays borrowed.
    pub fn from_str(s: &'static str) -> (r: Self)
        requires
            s.spec_bytes().len() <= MAX_BORROWED_OR_SHARED_LEN,
        ensures
            r@ == s@,
            r.state() == StateTag::Borrowed,
    {
        Self::from_inner(RefStrCore::from_str(s))
    }

    /// Create an owned value from a string.
    ///
    /// Unlike [`from_str`](Self::from_str), this copies the input into owned
    /// storage: short strings are stored inline, longer ones in the backend's
    /// shared representation.
    pub fn from_owned_like(s: &str) -> (r: Self)
        requires
            s.spec_bytes().len() <= MAX_BORROWED_OR_SHARED_LEN,
        ensures
            r@ == s@,
            r.state() == if s.spec_bytes().len() <= INLINE_CAPACITY {
                StateTag::Inline
            } else {
                StateTag::Shared
            },
    {
        Self::from_inner(RefStrCore::from_owned_like(s))
    }

    /// Create a value directly from the backend's shared string type.
    ///
    /// The allocation stays shared; the contents are not copied.
    pub fn from_shared(s: Arc<str>) -> (r: Self)
        requires
            encode_utf8((*s)@).len() <= MAX_BORROWED_OR_SHARED_LEN,
        ensures
            r@ == (*s)@,
            r.state() == StateTag::Shared,
    {
        Self::from_inner(RefStrCore::from_shared(s))
    }

    /// Returns `true` when this value owns shared storage.
    pub fn is_shared(&self) -> (r: bool)
        ensures
            r == (self.state() == StateTag::Shared),
    {
        self.inner().is_shared()
    }

    /// Returns `true` when this value is a borrowed string.
    pub fn is_borrowed(&self) -> (r: bool)
        ensures
            r == (self.state() == StateTag::Borrowed),
    {
        self.inner().is_borrowed()
    }

    /// Returns `true` when this value stores an inline short string.
    pub fn is_inline(&self) -> (r: bool)
        ensures
            r == (self.state() == StateTag::Inline),
    {
        self.inner().is_inline()
    }

    /// Returns `true` when the cached contents are ASCII-only.
    pub fn is_ascii(&self) -> (r: bool)
        ensures
            r == is_ascii_chars(self@),
    {
        self.inner().is_ascii()
    }

    /// Returns the string length in bytes.
    pub fn len(&self) -> (r: usize)
        ensures
            r == encode_utf8(self@).len(),
            r <= MAX_BORROWED_OR_SHARED_LEN,
            self.state() == StateTag::Inline ==> r <= INLINE_CAPACITY,
    {
        self.inner().len()
    }

    /// Returns `true` when the string is empty.
    pub fn is_empty(&self) -> (r: bool)
        ensures
            r == (self@.len() == 0),
    {
        self.inner().is_empty()
    }

    /// Borrows the contents as `&str`.
    pub fn as_str(&self) -> (r: &str)
        ensures
            r@ == self@,
    {
        self.inner().as_str()
    }

    /// Converts this value into owned UTF-8 bytes.
    pub fn into_bytes(self) -> (r: Vec<u8>)
        ensures
            r@ == encode_utf8(self@),
    {
        self.into_inner().into_bytes()
    }

    /// Converts this value into `Box<str>`.
    pub fn into_boxed_str(self) -> (r: Box<str>)
        ensures
            r@ == self@,
    {
        self.into_inner().into_boxed_str()
    }

    /// Converts this value into `String`.
    pub fn into_string(self) -> (r: String)
        ensures
            r@ == self@,
    {
        self.into_inner().into_string()
    }

    /// Hand out the shared storage handle, only when this value is shared.
    ///
    /// Borrowed and inline values give `None`, so the result never stands for
    /// borrowed data.
    pub fn into_raw_shared(self) -> (r: Option<Arc<str>>)
        ensures
            r is Some <==> self.state() == StateTag::Shared,
            r matches Some(h) ==> (*h)@ == self@,
    {
        self.into_inner().into_raw_shared()
    }

    /// Convert a borrowed value into the string it borrows, for the full lifetime.
    pub fn into_str_unchecked(self) -> (r: &'static str)
        requires
            self.state() == StateTag::Borrowed,
        ensures
            r@ == self@,
    {
        self.into_inner().into_str_unchecked()
    }

    /// Converts this value into `Cow<str>`.
    ///
    /// Borrowed values stay borrowed. Inline and shared values become owned strings.
    pub fn into_cow(self) -> (r: Cow<'static, str>)
        ensures
            r@ == self@,
            r is Borrowed <==> self.state() == StateTag::Borrowed,
    {
        self.into_inner().into_cow()
    }

    /// Borrows the contents as `Cow<'static, str>`.
    ///
    /// Borrowed values stay borrowed; inline and shared values are copied
    /// into an owned string.
    pub fn as_cow(&self) -> (r: Cow<'static, str>)
        ensures
            r@ == self@,
            r is Borrowed <==> self.state() == StateTag::Borrowed,
    {
        match self.inner().borrowed_static_str() {
            Some(value) => Cow::Borrowed(value),
            None => Cow::Owned(self.as_str().to_owned()),
        }
    }

    /// Creates a borrowed value from `&'static str`.
    pub fn from_static(s: &'static str) -> (r: Self)
        requires
            s.spec_bytes().len() <= MAX_BORROWED_OR_SHARED_LEN,
        ensures
            r@ == s@,
            r.state() == StateTag::Borrowed,
    {
        Self::from_str(s)
    }

    /// The contents as a `String`, as `Display` renders them.
    pub fn to_string(&self) -> (r: String)
        ensures
            r@ == self@,
    {
        self.as_str().to_owned()
    }


    /// Render the value for debugging: `StaticRefStr("...")`, or with
    /// `alternate` a struct rendering with its state, length and contents.
    pub fn debug_string(&self, alternate: bool) -> (r: String)
        ensures
            r@ == spec_debug_render(
                "StaticRefStr"@,
                self.state(),
                encode_utf8(self@).len(),
                self@,
                alternate,
            ),
    {
        debug_render("StaticRefStr", self.inner().state_tag(), self.len(), self.as_str(), alternate)
    }
}

impl Default for StaticRefStr {
    /// Creates an empty borrowed value.
    fn default() -> (r: Self)
        ensures
            r@ == Seq::<char>::empty(),
            r.state() == StateTag::Borrowed,
    {
        Self::from_inner(RefStrCore::default())
    }
}

impl AsRef<str> for StaticRefStr {
    /// Borrows the contents as `&str`.
    fn as_ref(&self) -> (r: &str)
        ensures
            r@ == self@,
    {
        self.as_str()
    }
}

impl Borrow<str> for StaticRefStr {
    /// Borrows the contents as `&str`.
    fn borrow(&self) -> (r: &str)
        ensures
            str_view(r) == self@,
    {
        self.as_str()
    }
}

impl Deref for StaticRefStr {
    type Target = str;

    /// Borrows the contents as `str`.
    fn deref(&self) -> (r: &str)
        ensures
            r@ == self@,
    {
        self.as_str()
    }
}

impl Clone for StaticRefStr {
    /// Clones the string; shared storage gains one more handle.
    fn clone(&self) -> (r: Self)
        ensures
            r@ == self@,
            r.state() == self.state(),
    {
        Self::from_inner(self.inner().clone_core())
    }
}

impl Eq for StaticRefStr {
}

impl Hash for StaticRefStr {
    /// Hashes the string contents, as `str` hashes them.
    fn hash<H: Hasher>(&self, state: &mut H) {
        hash_str(self.as_str(), state)
    }
}

impl PartialOrd for StaticRefStr {
    /// Orders lexicographically by UTF-8 bytes.
    fn partial_cmp(&self, other: &Self) -> (r: Option<Ordering>)
        ensures
            r == Some(lex_order_of(encode_utf8(self@), encode_utf8(other@))),
    {
        Some(str_order(self.as_str(), other.as_str()))
    }
}

impl PartialOrdSpecImpl for StaticRefStr {
    open spec fn obeys_partial_cmp_spec() -> bool {
        true
    }

    open spec fn partial_cmp_spec(&self, other: &Self) -> Option<Ordering> {
        Some(lex_order_of(encode_utf8(self@), encode_utf8(other@)))
    }
}

impl From<&'static str> for StaticRefStr {
    /// Creates a borrowed value from `&str`; a string too long for the length field gives the empty value.
    fn from(value: &'static str) -> (r: Self)
        ensures
            value.spec_bytes().len() <= MAX_BORROWED_OR_SHARED_LEN ==> r@ == value@ && r.state()
                == StateTag::Borrowed,
            value.spec_bytes().len() > MAX_BORROWED_OR_SHARED_LEN ==> r@ == Seq::<char>::empty()
                && r.state() == StateTag::Borrowed,
    {
        Self::from_inner(RefStrCore::from(value))
    }
}

impl FromSpecImpl<&'static str> for StaticRefStr {
    open spec fn obeys_from_spec() -> bool {
        false
    }

    open spec fn from_spec(v: &'static str) -> Self {
        arbitrary()
    }
}

impl From<Arc<str>> for StaticRefStr {
    /// Creates a shared value from the backend's shared string type; a string too long for the length field gives the empty value.
    fn from(value: Arc<str>) -> (r: Self)
        ensures
            encode_utf8((*value)@).len() <= MAX_BORROWED_OR_SHARED_LEN ==> r@ == (*value)@
                && r.state() == StateTag::Shared,
            encode_utf8((*value)@).len() > MAX_BORROWED_OR_SHARED_LEN ==> r@ == Seq::<char>::empty()
                && r.state() == StateTag::Borrowed,
    {
        Self::from_inner(RefStrCore::from_shared_checked(value))
    }
}

impl FromSpecImpl<Arc<str>> for StaticRefStr {
    open spec fn obeys_from_spec() -> bool {
        false
    }

    open spec fn from_spec(v: Arc<str>) -> Self {
        arbitrary()
    }
}

impl From<Box<str>> for StaticRefStr {
    /// Creates an owned value from `Box<str>`: inline when short, shared otherwise; a string too long for the length field gives the empty value.
    fn from(value: Box<str>) -> (r: Self)
        ensures
            encode_utf8(value@).len() <= MAX_BORROWED_OR_SHARED_LEN ==> r@ == value@ && r.state()
                == if encode_utf8(value@).len() <= INLINE_CAPACITY {
                StateTag::Inline
            } else {
                StateTag::Shared
            },
            encode_utf8(value@).len() > MAX_BORROWED_OR_SHARED_LEN ==> r@ == Seq::<char>::empty()
                && r.state() == StateTag::Borrowed,
    {
        Self::from_inner(RefStrCore::from(value))
    }
}

impl FromSpecImpl<Box<str>> for StaticRefStr {
    open spec fn obeys_from_spec() -> bool {
        false
    }

    open spec fn from_spec(v: Box<str>) -> Self {
        arbitrary()
    }
}

impl From<String> for StaticRefStr {
    /// Creates an owned value from `String`: inline when short, shared otherwise; a string too long for the length field gives the empty value.
    fn from(value: String) -> (r: Self)
        ensures
            encode_utf8(value@).len() <= MAX_BORROWED_OR_SHARED_LEN ==> r@ == value@ && r.state()
                == if encode_utf8(value@).len() <= INLINE_CAPACITY {
                StateTag::Inline
            } else {
                StateTag::Shared
            },
            encode_utf8(value@).len() > MAX_BORROWED_OR_SHARED_LEN ==> r@ == Seq::<char>::empty()
                && r.state() == StateTag::Borrowed,
    {
        Self::from_inner(RefStrCore::from(value))
    }
}

impl FromSpecImpl<String> for StaticRefStr {
    open spec fn obeys_from_spec() -> bool {
        false
    }

    open spec fn from_spec(v: String) -> Self {
        arbitrary()
    }
}

impl From<Cow<'static, str>> for StaticRefStr {
    /// Creates a value from `Cow<str>`: borrowed input stays borrowed, owned input becomes owned storage; a string too long for the length field gives the empty value.
    fn from(value: Cow<'static, str>) -> (r: Self)
        ensures
            encode_utf8(value@).len() <= MAX_BORROWED_OR_SHARED_LEN ==> r@ == value@ && r.state()
                == match value {
                Cow::Borrowed(_) => StateTag::Borrowed,
                Cow::Owned(_) => if encode_utf8(value@).len() <= INLINE_CAPACITY {
                    StateTag::Inline
                } else {
                    StateTag::Shared
                },
            },
            encode_utf8(value@).len() > MAX_BORROWED_OR_SHARED_LEN ==> r@ == Seq::<char>::empty()
                && r.state() == StateTag::Borrowed,
    {
        match value {
            Cow::Borrowed(s) => Self::from(s),
            Cow::Owned(s) => Self::from(s),
        }
    }
}

impl FromSpecImpl<Cow<'static, str>> for StaticRefStr {
    open spec fn obeys_from_spec() -> bool {
        false
    }

    open spec fn from_spec(v: Cow<'static, str>) -> Self {
        arbitrary()
    }
}

impl From<StaticRefStr> for Cow<'static, str> {
    /// Converts into `Cow<str>`: borrowed values stay borrowed, the others become owned.
    fn from(value: StaticRefStr) -> (r: Self)
        ensures
            r@ == value@,
            r is Borrowed <==> value.state() == StateTag::Borrowed,
    {
        value.into_cow()
    }
}

impl FromSpecImpl<StaticRefStr> for Cow<'static, str> {
    open spec fn obeys_from_spec() -> bool {
        false
    }

    open spec fn from_spec(v: StaticRefStr) -> Self {
        arbitrary()
    }
}

impl PartialEq<StaticRefStr> for StaticRefStr {
    fn eq(&self, other: &StaticRefStr) -> (r: bool)
        ensures
            r == (self@ == other@),
    {
        self.inner().eq_core(other.inner())
    }
}

impl PartialEqSpecImpl<StaticRefStr> for StaticRefStr {
    open spec fn obeys_eq_spec() -> bool {
        true
    }

    open spec fn eq_spec(&self, other: &StaticRefStr) -> bool {
        self@ == other@
    }
}

impl PartialEq<StaticRefStr> for &StaticRefStr {
    fn eq(&self, other: &StaticRefStr) -> (r: bool)
        ensures
            r == ((*self)@ == other@),
    {
        str_eq((*self).as_str(), other.as_str())
    }
}

impl PartialEqSpecImpl<StaticRefStr> for &StaticRefStr {
    open spec fn obeys_eq_spec() -> bool {
        true
    }

    open spec fn eq_spec(&self, other: &StaticRefStr) -> bool {
        (*self)@ == other@
    }
}

impl PartialEq<&StaticRefStr> for StaticRefStr {
    fn eq(&self, other: &&StaticRefStr) -> (r: bool)
        ensures
            r == (self@ == (*other)@),
    {
        str_eq(self.as_str(), (*other).as_str())
    }
}

impl PartialEqSpecImpl<&StaticRefStr> for StaticRefStr {
    open spec fn obeys_eq_spec() -> bool {
        true
    }

    open spec fn eq_spec(&self, other: &&StaticRefStr) -> bool {
        self@ == (*other)@
    }
}

impl PartialEq<&str> for StaticRefStr {
    fn eq(&self, other: &&str) -> (r: bool)
        ensures
            r == (self@ == other@),
    {
        str_eq(self.as_str(), *other)
    }
}

impl PartialEqSpecImpl<&str> for StaticRefStr {
    open spec fn obeys_eq_spec() -> bool {
        true
    }

    open spec fn eq_spec(&self, other: &&str) -> bool {
        self@ == other@
    }
}

impl PartialEq<&str> for &StaticRefStr {
    fn eq(&self, other: &&str) -> (r: bool)
        ensures
            r == ((*self)@ == other@),
    {
        str_eq((*self).as_str(), *other)
    }
}

impl PartialEqSpecImpl<&str> for &StaticRefStr {
    open spec fn obeys_eq_spec() -> bool {
        true
    }

    open spec fn eq_spec(&self, other: &&str) -> bool {
        (*self)@ == other@
    }
}

impl PartialEq<&&str> for StaticRefStr {
    fn eq(&self, other: &&&str) -> (r: bool)
        ensures
            r == (self@ == (*other)@),
    {
        str_eq(self.as_str(), *(*other))
    }
}

impl PartialEqSpecImpl<&&str> for StaticRefStr {
    open spec fn obeys_eq_spec() -> bool {
        true
    }

    open spec fn eq_spec(&self, other: &&&str) -> bool {
        self@ == (*other)@
    }
}

impl PartialEq<String> for StaticRefStr {
    fn eq(&self, other: &String) -> (r: bool)
        ensures
            r == (self@ == other@),
    {
        str_eq(self.as_str(), other.as_str())
    }
}

impl PartialEqSpecImpl<String> for StaticRefStr {
    open spec fn obeys_eq_spec() -> bool {
        true
    }

    open spec fn eq_spec(&self, other: &String) -> bool {
        self@ == other@
    }
}

impl PartialEq<String> for &StaticRefStr {
    fn eq(&self, other: &String) -> (r: bool)
        ensures
            r == ((*self)@ == other@),
    {
        str_eq((*self).as_str(), other.as_str())
    }
}

impl PartialEqSpecImpl<String> for &StaticRefStr {
    open spec fn obeys_eq_spec() -> bool {
        true
    }

    open spec fn eq_spec(&self, other: &String) -> bool {
        (*self)@ == other@
    }
}

impl PartialEq<&String> for StaticRefStr {
    fn eq(&self, other: &&String) -> (r: bool)
        ensures
            r == (self@ == (*other)@),
    {
        str_eq(self.as_str(), (*other).as_str())
    }
}

impl PartialEqSpecImpl<&String> for StaticRefStr {
    open spec fn obeys_eq_spec() -> bool {
        true
    }

    open spec fn eq_spec(&self, other: &&String) -> bool {
        self@ == (*other)@
    }
}

impl<'b> PartialEq<Cow<'b, str>> for StaticRefStr {
    fn eq(&self, other: &Cow<'b, str>) -> (r: bool)
        ensures
            r == (self@ == other@),
    {
        str_eq(self.as_str(), cow_as_str(other))
    }
}

impl<'b> PartialEqSpecImpl<Cow<'b, str>> for StaticRefStr {
    open spec fn obeys_eq_spec() -> bool {
        true
    }

    open spec fn eq_spec(&self, other: &Cow<'b, str>) -> bool {
        self@ == other@
    }
}

impl<'b> PartialEq<Cow<'b, str>> for &StaticRefStr {
    fn eq(&self, other: &Cow<'b, str>) -> (r: bool)
        ensures
            r == ((*self)@ == other@),
    {
        str_eq((*self).as_str(), cow_as_str(other))
    }
}

impl<'b> PartialEqSpecImpl<Cow<'b, str>> for &StaticRefStr {
    open spec fn obeys_eq_spec() -> bool {
        true
    }

    open spec fn eq_spec(&self, other: &Cow<'b, str>) -> bool {
        (*self)@ == other@
    }
}

impl<'b> PartialEq<&Cow<'b, str>> for StaticRefStr {
    fn eq(&self, other: &&Cow<'b, str>) -> (r: bool)
        ensures
            r == (self@ == (*other)@),
    {
        str_eq(self.as_str(), cow_as_str((*other)))
    }
}

impl<'b> PartialEqSpecImpl<&Cow<'b, str>> for StaticRefStr {
    open spec fn obeys_eq_spec() -> bool {
        true
    }

    open spec fn eq_spec(&self, other: &&Cow<'b, str>) -> bool {
        self@ == (*other)@
    }
}

impl PartialEq<Arc<str>> for StaticRefStr {
    fn eq(&self, other: &Arc<str>) -> (r: bool)
        ensures
            r == (self@ == (**other)@),
    {
        str_eq(self.as_str(), &**other)
    }
}

impl PartialEqSpecImpl<Arc<str>> for StaticRefStr {
    open spec fn obeys_eq_spec() -> bool {
        true
    }

    open spec fn eq_spec(&self, other: &Arc<str>) -> bool {
        self@ == (**other)@
    }
}

impl PartialEq<Arc<str>> for &StaticRefStr {
    fn eq(&self, other: &Arc<str>) -> (r: bool)
        ensures
            r == ((*self)@ == (**other)@),
    {
        str_eq((*self).as_str(), &**other)
    }
}

impl PartialEqSpecImpl<Arc<str>> for &StaticRefStr {
    open spec fn obeys_eq_spec() -> bool {
        true
    }

    open spec fn eq_spec(&self, other: &Arc<str>) -> bool {
        (*self)@ == (**other)@
    }
}

impl PartialEq<&Arc<str>> for StaticRefStr {
    fn eq(&self, other: &&Arc<str>) -> (r: bool)
        ensures
            r == (self@ == (**(*other))@),
    {
        str_eq(self.as_str(), &**(*other))
    }
}

impl PartialEqSpecImpl<&Arc<str>> for StaticRefStr {
    open spec fn obeys_eq_spec() -> bool {
        true
    }

    open spec fn eq_spec(&self, other: &&Arc<str>) -> bool {
        self@ == (**(*other))@
    }
}

impl PartialEq<Rc<str>> for StaticRefStr {
    fn eq(&self, other: &Rc<str>) -> (r: bool)
        ensures
            r == (self@ == (**other)@),
    {
        str_eq(self.as_str(), &**other)
    }
}

impl PartialEqSpecImpl<Rc<str>> for StaticRefStr {
    open spec fn obeys_eq_spec() -> bool {
        true
    }

    open spec fn eq_spec(&self, other: &Rc<str>) -> bool {
        self@ == (**other)@
    }
}

impl PartialEq<Rc<str>> for &StaticRefStr {
    fn eq(&self, other: &Rc<str>) -> (r: bool)
        ensures
            r == ((*self)@ == (**other)@),
    {
        str_eq((*self).as_str(), &**other)
    }
}

impl PartialEqSpecImpl<Rc<str>> for &StaticRefStr {
    open spec fn obeys_eq_spec() -> bool {
        true
    }

    open spec fn eq_spec(&self, other: &Rc<str>) -> bool {
        (*self)@ == (**other)@
    }
}

impl PartialEq<&Rc<str>> for StaticRefStr {
    fn eq(&self, other: &&Rc<str>) -> (r: bool)
        ensures
            r == (self@ == (**(*other))@),
    {
        str_eq(self.as_str(), &**(*other))
    }
}

impl PartialEqSpecImpl<&Rc<str>> for StaticRefStr {
    open spec fn obeys_eq_spec() -> bool {
        true
    }

    open spec fn eq_spec(&self, other: &&Rc<str>) -> bool {
        self@ == (**(*other))@
    }
}

/// Law: `partial_cmp` orders two values by the bytes of the left operand
/// against those of the right one.
pub proof fn law_static_ref_str_partial_cmp(a: &StaticRefStr, b: &StaticRefStr)
    ensures
        PartialOrdSpec::partial_cmp_spec(a, b) == Some(lex_order_of(encode_utf8(a@), encode_utf8(b@))),
{
}

/// Law: `==` between `StaticRefStr` and `StaticRefStr` holds exactly when the contents are equal.
pub proof fn law_static_ref_str_eq_contents_0(a: &StaticRefStr, b: &StaticRefStr)
    ensures
        <StaticRefStr as PartialEqSpec<StaticRefStr>>::eq_spec(a, b) == (a@ == b@),
{
}

/// Law: `==` between `&StaticRefStr` and `StaticRefStr` holds exactly when the contents are equal.
pub proof fn law_static_ref_str_eq_contents_1(a: &&StaticRefStr, b: &StaticRefStr)
    ensures
        <&StaticRefStr as PartialEqSpec<StaticRefStr>>::eq_spec(a, b) == ((*a)@ == b@),
{
}

/// Law: `==` between `StaticRefStr` and `&StaticRefStr` holds exactly when the contents are equal.
pub proof fn law_static_ref_str_eq_contents_2(a: &StaticRefStr, b: &&StaticRefStr)
    ensures
        <StaticRefStr as PartialEqSpec<&StaticRefStr>>::eq_spec(a, b) == (a@ == (*b)@),
{
}

/// Law: `==` between `StaticRefStr` and `&str` holds exactly when the contents are equal.
pub proof fn law_static_ref_str_eq_contents_3(a: &StaticRefStr, b: &&str)
    ensures
        <StaticRefStr as PartialEqSpec<&str>>::eq_spec(a, b) == (a@ == b@),
{
}

/// Law: `==` between `&StaticRefStr` and `&str` holds exactly when the contents are equal.
pub proof fn law_static_ref_str_eq_contents_4(a: &&StaticRefStr, b: &&str)
    ensures
        <&StaticRefStr as PartialEqSpec<&str>>::eq_spec(a, b) == ((*a)@ == b@),
{
}

/// Law: `==` between `StaticRefStr` and `&&str` holds exactly when the contents are equal.
pub proof fn law_static_ref_str_eq_contents_5(a: &StaticRefStr, b: &&&str)
    ensures
        <StaticRefStr as PartialEqSpec<&&str>>::eq_spec(a, b) == (a@ == (*b)@),
{
}

/// Law: `==` between `StaticRefStr` and `String` holds exactly when the contents are equal.
pub proof fn law_static_ref_str_eq_contents_6(a: &StaticRefStr, b: &String)
    ensures
        <StaticRefStr as PartialEqSpec<String>>::eq_spec(a, b) == (a@ == b@),
{
}

/// Law: `==` between `&StaticRefStr` and `String` holds exactly when the contents are equal.
pub proof fn law_static_ref_str_eq_contents_7(a: &&StaticRefStr, b: &String)
    ensures
        <&StaticRefStr as PartialEqSpec<String>>::eq_spec(a, b) == ((*a)@ == b@),
{
}

/// Law: `==` between `StaticRefStr` and `&String` holds exactly when the contents are equal.
pub proof fn law_static_ref_str_eq_contents_8(a: &StaticRefStr, b: &&String)
    ensures
        <StaticRefStr as PartialEqSpec<&String>>::eq_spec(a, b) == (a@ == (*b)@),
{
}

/// Law: `==` between `StaticRefStr` and `Cow<'b, str>` holds exactly when the contents are equal.
pub proof fn law_static_ref_str_eq_contents_9<'b>(a: &StaticRefStr, b: &Cow<'b, str>)
    ensures
        <StaticRefStr as PartialEqSpec<Cow<'b, str>>>::eq_spec(a, b) == (a@ == b@),
{
}

/// Law: `==` between `&StaticRefStr` and `Cow<'b, str>` holds exactly when the contents are equal.
pub proof fn law_static_ref_str_eq_contents_10<'b>(a: &&StaticRefStr, b: &Cow<'b, str>)
    ensures
        <&StaticRefStr as PartialEqSpec<Cow<'b, str>>>::eq_spec(a, b) == ((*a)@ == b@),
{
}

/// Law: `==` between `StaticRefStr` and `&Cow<'b, str>` holds exactly when the contents are equal.
pub proof fn law_static_ref_str_eq_contents_11<'b>(a: &StaticRefStr, b: &&Cow<'b, str>)
    ensures
        <StaticRefStr as PartialEqSpec<&Cow<'b, str>>>::eq_spec(a, b) == (a@ == (*b)@),
{
}

/// Law: `==` between `StaticRefStr` and `Arc<str>` holds exactly when the contents are equal.
pub proof fn law_static_ref_str_eq_contents_12(a: &StaticRefStr, b: &Arc<str>)
    ensures
        <StaticRefStr as PartialEqSpec<Arc<str>>>::eq_spec(a, b) == (a@ == (**b)@),
{
}

/// Law: `==` between `&StaticRefStr` and `Arc<str>` holds exactly when the contents are equal.
pub proof fn law_static_ref_str_eq_contents_13(a: &&StaticRefStr, b: &Arc<str>)
    ensures
        <&StaticRefStr as PartialEqSpec<Arc<str>>>::eq_spec(a, b) == ((*a)@ == (**b)@),
{
}

/// Law: `==` between `StaticRefStr` and `&Arc<str>` holds exactly when the contents are equal.
pub proof fn law_static_ref_str_eq_contents_14(a: &StaticRefStr, b: &&Arc<str>)
    ensures
        <StaticRefStr as PartialEqSpec<&Arc<str>>>::eq_spec(a, b) == (a@ == (**(*b))@),
{
}

/// Law: `==` between `StaticRefStr` and `Rc<str>` holds exactly when the contents are equal.
pub proof fn law_static_ref_str_eq_contents_15(a: &StaticRefStr, b: &Rc<str>)
    ensures
        <StaticRefStr as PartialEqSpec<Rc<str>>>::eq_spec(a, b) == (a@ == (**b)@),
{
}

/// Law: `==` between `&StaticRefStr` and `Rc<str>` holds exactly when the contents are equal.
pub proof fn law_static_ref_str_eq_contents_16(a: &&StaticRefStr, b: &Rc<str>)
    ensures
        <&StaticRefStr as PartialEqSpec<Rc<str>>>::eq_spec(a, b) == ((*a)@ == (**b)@),
{
}

/// Law: `==` between `StaticRefStr` and `&Rc<str>` holds exactly when the contents are equal.
pub proof fn law_static_ref_str_eq_contents_17(a: &StaticRefStr, b: &&Rc<str>)
    ensures
        <StaticRefStr as PartialEqSpec<&Rc<str>>>::eq_spec(a, b) == (a@ == (**(*b))@),
{
}

impl<'a> From<LocalRefStr<'a>> for RefStr<'a> {
    /// Converts from the local `Rc`-backed variant.
    ///
    /// Borrowed and inline values are transferred as they are. Shared values
    /// are copied into new storage of this backend.
    fn from(value: LocalRefStr<'a>) -> (r: Self)
        ensures
            r@ == value@,
            r.state() == value.state(),
    {
        Self::from_inner(value.into_inner().into_backend())
    }
}

impl<'a> FromSpecImpl<LocalRefStr<'a>> for RefStr<'a> {
    open spec fn obeys_from_spec() -> bool {
        false
    }

    open spec fn from_spec(v: LocalRefStr<'a>) -> Self {
        arbitrary()
    }
}

impl From<LocalStaticRefStr> for StaticRefStr {
    /// Converts from the local `Rc`-backed `'static` variant.
    fn from(value: LocalStaticRefStr) -> (r: Self)
        ensures
            r@ == value@,
            r.state() == value.state(),
    {
        Self::from_inner(value.into_inner().into_backend())
    }
}

impl FromSpecImpl<LocalStaticRefStr> for StaticRefStr {
    open spec fn obeys_from_spec() -> bool {
        false
    }

    open spec fn from_spec(v: LocalStaticRefStr) -> Self {
        arbitrary()
    }
}

impl From<StaticRefStr> for RefStr<'static> {
    /// Converts the dedicated `'static` wrapper into the lifetime-parameterized form.
    fn from(value: StaticRefStr) -> (r: Self)
        ensures
            r@ == value@,
            r.state() == value.state(),
    {
        Self::from_inner(value.into_inner())
    }
}

impl FromSpecImpl<StaticRefStr> for RefStr<'static> {
    open spec fn obeys_from_spec() -> bool {
        false
    }

    open spec fn from_spec(v: StaticRefStr) -> Self {
        arbitrary()
    }
}

impl From<RefStr<'static>> for StaticRefStr {
    /// Converts the lifetime-parameterized `'static` form into the dedicated wrapper.
    fn from(value: RefStr<'static>) -> (r: Self)
        ensures
            r@ == value@,
            r.state() == value.state(),
    {
        Self::from_inner(value.into_inner())
    }
}

impl FromSpecImpl<RefStr<'static>> for StaticRefStr {
    open spec fn obeys_from_spec() -> bool {
        false
    }

    open spec fn from_spec(v: RefStr<'static>) -> Self {
        arbitrary()
    }
}

} // verus!
