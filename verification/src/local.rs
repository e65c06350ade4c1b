//! Single-threaded compact strings, shared through `Rc<str>`.
use vstd::prelude::*;
use vstd::string::StringSliceAdditionalSpecFns;
use vstd::std_specs::cmp::{PartialEqSpec, PartialEqSpecImpl, PartialOrdSpec, PartialOrdSpecImpl};
use vstd::std_specs::convert::FromSpecImpl;
use vstd::utf8::{encode_utf8, is_ascii_chars};
use core::cmp::Ordering;
use std::borrow::{Borrow, Cow};
use std::hash::{Hash, Hasher};
use std::ops::Deref;
use std::rc::Rc;
use std::sync::Arc;

use crate::arch::layout::{INLINE_CAPACITY, MAX_BORROWED_OR_SHARED_LEN};
use crate::arch::StateTag;
use crate::backend::LocalBackend;
use crate::compact::order::{lex_order_of, str_order};
use crate::compact::{spec_owned_state, RefStrCore};
use crate::text::{str_view, cow_as_str, hash_str, str_eq};
use crate::fmt::{debug_render, spec_debug_render};
use crate::shared::{RefStr, StaticRefStr};

verus! {

/// A compact string that is either borrowed for `'a`, stored inline, or
/// shared through `Rc<str>`.
///
/// This is the single-threaded counterpart of [`RefStr`]: the same API, with
/// non-atomic reference counting for shared storage.
pub struct LocalRefStr<'a>(RefStrCore<'a, LocalBackend>);

impl<'a> View for LocalRefStr<'a> {
    type V = Seq<char>;

    /// The string contents.
    closed spec fn view(&self) -> Seq<char> {
        self.0@
    }
}

impl<'a> LocalRefStr<'a> {
    /// The storage state: borrowed, shared or inline.
    pub closed spec fn state(&self) -> StateTag {
        self.0.state()
    }

    /// Wrap a compact value.
    pub(crate) fn from_inner(inner: RefStrCore<'a, LocalBackend>) -> (r: Self)
        ensures
            r@ == inner@,
            r.state() == inner.state(),
    {
        LocalRefStr(inner)
    }

    /// Borrow the compact value.
    pub(crate) fn inner(&self) -> (r: &RefStrCore<'a, LocalBackend>)
        ensures
            r@ == self@,
            r.state() == self.state(),
    {
        &self.0
    }

    /// Unwrap the compact value.
    pub(crate) fn into_inner(self) -> (r: RefStrCore<'a, LocalBackend>)
        ensures
            r@ == self@,
            r.state() == self.state(),
    {
        self.0
    }

    /// Create a borrowed value from `&str`.
    ///
    /// This is equivalent to [`from_str`](Self::from_str).
    pub fn new(s: &'a str) -> (r: Self)
        requires
            s.spec_bytes().len() <= MAX_BORROWED_OR_SHARED_LEN,
        ensures
            r@ == s@,
            r.state() == StateTag::Borrowed,
    {
        Self::from_inner(RefStrCore::new(s))
    }

    /// Create a borrowed value from `&str`.
    ///
    /// The resulting value does not allocate and stays borrowed.
    pub fn from_str(s: &'a str) -> (r: Self)
        requires
            s.spec_bytes().len() <= MAX_BORROWED_OR_SHARED_LEN,
        ensures
            r@ == s@,
            r.state() == StateTag::Borrowed,
    {
        Self::from_inner(RefStrCore::from_str(s))
    }

    /// Create an owned value from a string.
    ///
    /// Unlike [`from_str`](Self::from_str), this copies the input into owned
    /// storage: short strings are stored inline, longer ones in the backend's
    /// shared representation.
    pub fn from_owned_like(s: &str) -> (r: Self)
        requires
            s.spec_bytes().len() <= MAX_BORROWED_OR_SHARED_LEN,
        ensures
            r@ == s@,
            r.state() == if s.spec_bytes().len() <= INLINE_CAPACITY {
                StateTag::Inline
            } else {
                StateTag::Shared
            },
    {
        Self::from_inner(RefStrCore::from_owned_like(s))
    }

    /// Create a value directly from the backend's shared string type.
    ///
    /// The allocation stays shared; the contents are not copied.
    pub fn from_shared(s: Rc<str>) -> (r: Self)
        requires
            encode_utf8((*s)@).len() <= MAX_BORROWED_OR_SHARED_LEN,
        ensures
            r@ == (*s)@,
            r.state() == StateTag::Shared,
    {
        Self::from_inner(RefStrCore::from_shared(s))
    }

    /// Returns `true` when this value owns shared storage.
    pub fn is_shared(&self) -> (r: bool)
        ensures
            r == (self.state() == StateTag::Shared),
    {
        self.inner().is_shared()
    }

    /// Returns `true` when this value is a borrowed string.
    pub fn is_borrowed(&self) -> (r: bool)
        ensures
            r == (self.state() == StateTag::Borrowed),
    {
        self.inner().is_borrowed()
    }

    /// Returns `true` when this value stores an inline short string.
    pub fn is_inline(&self) -> (r: bool)
        ensures
            r == (self.state() == StateTag::Inline),
    {
        self.inner().is_inline()
    }

    /// Returns `true` when the cached contents are ASCII-only.
    pub fn is_ascii(&self) -> (r: bool)
        ensures
            r == is_ascii_chars(self@),
    {
        self.inner().is_ascii()
    }

    /// Returns the string length in bytes.
    pub fn len(&self) -> (r: usize)
        ensures
            r == encode_utf8(self@).len(),
            r <= MAX_BORROWED_OR_SHARED_LEN,
            self.state() == StateTag::Inline ==> r <= INLINE_CAPACITY,
    {
        self.inner().len()
    }

    /// Returns `true` when the string is empty.
    pub fn is_empty(&self) -> (r: bool)
        ensures
            r == (self@.len() == 0),
    {
        self.inner().is_empty()
    }

    /// Borrows the contents as `&str`.
    pub fn as_str(&self) -> (r: &str)
        ensures
            r@ == self@,
    {
        self.inner().as_str()
    }

    /// Converts this value into owned UTF-8 bytes.
    pub fn into_bytes(self) -> (r: Vec<u8>)
        ensures
            r@ == encode_utf8(self@),
    {
        self.into_inner().into_bytes()
    }

    /// Converts this value into `Box<str>`.
    pub fn into_boxed_str(self) -> (r: Box<str>)
        ensures
            r@ == self@,
    {
        self.into_inner().into_boxed_str()
    }

    /// Converts this value into `String`.
    pub fn into_string(self) -> (r: String)
        ensures
            r@ == self@,
    {
        self.into_inner().into_string()
    }

    /// Hand out the shared storage handle, only when this value is shared.
    ///
    /// Borrowed and inline values give `None`, so the result never stands for
    /// borrowed data.
    pub fn into_raw_shared(self) -> (r: Option<Rc<str>>)
        ensures
            r is Some <==> self.state() == StateTag::Shared,
            r matches Some(h) ==> (*h)@ == self@,
    {
        self.into_inner().into_raw_shared()
    }

    /// Convert a borrowed value into the string it borrows, for the full lifetime.
    pub fn into_str_unchecked(self) -> (r: &'a str)
        requires
            self.state() == StateTag::Borrowed,
        ensures
            r@ == self@,
    {
        self.into_inner().into_str_unchecked()
    }

    /// Converts this value into `Cow<str>`.
    ///
    /// Borrowed values stay borrowed. Inline and shared values become owned strings.
    pub fn into_cow(self) -> (r: Cow<'a, str>)
        ensures
            r@ == self@,
            r is Borrowed <==> self.state() == StateTag::Borrowed,
    {
        self.into_inner().into_cow()
    }

    /// Borrows the contents as `Cow<str>`.
    ///
    /// Borrowed values stay borrowed, for the full lifetime `'a`. Inline and
    /// shared values allocate and clone into an owned string.
    pub fn as_cow(&self) -> (r: Cow<'a, str>)
        ensures
            r@ == self@,
            r is Borrowed <==> self.state() == StateTag::Borrowed,
    {
        self.inner().as_cow()
    }

    /// Convert to the `'static` form.
    ///
    /// Shared values take one more handle on their storage. Borrowed values
    /// are copied into owned storage, inline for short strings and shared for
    /// longer ones.
    pub fn to_static_str(&self) -> (r: LocalStaticRefStr)
        ensures
            r@ == self@,
            r.state() == spec_owned_state(self.state(), self@),
            self.state() == StateTag::Borrowed ==> (r.state() == StateTag::Inline
                <==> encode_utf8(self@).len() <= INLINE_CAPACITY),
            self.state() == StateTag::Borrowed ==> (r.state() == StateTag::Shared
                <==> encode_utf8(self@).len() > INLINE_CAPACITY),
            self.state() != StateTag::Borrowed ==> r.state() == self.state(),
    {
        LocalStaticRefStr::from_inner(self.inner().to_static_core())
    }

    /// Convert into the `'static` form.
    ///
    /// Shared and inline values are transferred directly. Borrowed values are
    /// copied into owned storage, inline for short strings and shared for
    /// longer ones.
    pub fn into_static_str(self) -> (r: LocalStaticRefStr)
        ensures
            r@ == self@,
            r.state() == spec_owned_state(self.state(), self@),
            self.state() == StateTag::Borrowed ==> (r.state() == StateTag::Inline
                <==> encode_utf8(self@).len() <= INLINE_CAPACITY),
            self.state() == StateTag::Borrowed ==> (r.state() == StateTag::Shared
                <==> encode_utf8(self@).len() > INLINE_CAPACITY),
            self.state() != StateTag::Borrowed ==> r.state() == self.state(),
    {
        LocalStaticRefStr::from_inner(self.into_inner().into_static_core())
    }

    /// The contents as a `String`, as `Display` renders them.
    pub fn to_string(&self) -> (r: String)
        ensures
            r@ == self@,
    {
        self.as_str().to_owned()
    }


    /// Render the value for debugging: `LocalRefStr<'a>("...")`, or with
    /// `alternate` a struct rendering with its state, length and contents.
    pub fn debug_string(&self, alternate: bool) -> (r: String)
        ensures
            r@ == spec_debug_render(
                "LocalRefStr<'a>"@,
                self.state(),
                encode_utf8(self@).len(),
                self@,
                alternate,
            ),
    {
        debug_render("LocalRefStr<'a>", self.inner().state_tag(), self.len(), self.as_str(), alternate)
    }
}

impl<'a> Default for LocalRefStr<'a> {
    /// Creates an empty borrowed value.
    fn default() -> (r: Self)
        ensures
            r@ == Seq::<char>::empty(),
            r.state() == StateTag::Borrowed,
    {
        Self::from_inner(RefStrCore::default())
    }
}

impl<'a> AsRef<str> for LocalRefStr<'a> {
    /// Borrows the contents as `&str`.
    fn as_ref(&self) -> (r: &str)
        ensures
            r@ == self@,
    {
        self.as_str()
    }
}

impl<'a> Borrow<str> for LocalRefStr<'a> {
    /// Borrows the contents as `&str`.
    fn borrow(&self) -> (r: &str)
        ensures
            str_view(r) == self@,
    {
        self.as_str()
    }
}

impl<'a> Deref for LocalRefStr<'a> {
    type Target = str;

    /// Borrows the contents as `str`.
    fn deref(&self) -> (r: &str)
        ensures
            r@ == self@,
    {
        self.as_str()
    }
}

impl<'a> Clone for LocalRefStr<'a> {
    /// Clones the string; shared storage gains one more handle.
    fn clone(&self) -> (r: Self)
        ensures
            r@ == self@,
            r.state() == self.state(),
    {
        Self::from_inner(self.inner().clone_core())
    }
}

impl<'a> Eq for LocalRefStr<'a> {
}

impl<'a> Hash for LocalRefStr<'a> {
    /// Hashes the string contents, as `str` hashes them.
    fn hash<H: Hasher>(&self, state: &mut H) {
        hash_str(self.as_str(), state)
    }
}

impl<'a> PartialOrd for LocalRefStr<'a> {
    /// Orders lexicographically by UTF-8 bytes.
    fn partial_cmp(&self, other: &Self) -> (r: Option<Ordering>)
        ensures
            r == Some(lex_order_of(encode_utf8(self@), encode_utf8(other@))),
    {
        Some(str_order(self.as_str(), other.as_str()))
    }
}

impl<'a> PartialOrdSpecImpl for LocalRefStr<'a> {
    open spec fn obeys_partial_cmp_spec() -> bool {
        true
    }

    open spec fn partial_cmp_spec(&self, other: &Self) -> Option<Ordering> {
        Some(lex_order_of(encode_utf8(self@), encode_utf8(other@)))
    }
}

impl<'a> From<&'a str> for LocalRefStr<'a> {
    /// Creates a borrowed value from `&str`; a string too long for the length field gives the empty value.
    fn from(value: &'a str) -> (r: Self)
        ensures
            value.spec_bytes().len() <= MAX_BORROWED_OR_SHARED_LEN ==> r@ == value@ && r.state()
                == StateTag::Borrowed,
            value.spec_bytes().len() > MAX_BORROWED_OR_SHARED_LEN ==> r@ == Seq::<char>::empty()
                && r.state() == StateTag::Borrowed,
    {
        Self::from_inner(RefStrCore::from(value))
    }
}

impl<'a> FromSpecImpl<&'a str> for LocalRefStr<'a> {
    open spec fn obeys_from_spec() -> bool {
        false
    }

    open spec fn from_spec(v: &'a str) -> Self {
        arbitrary()
    }
}

impl<'a> From<&'a String> for LocalRefStr<'a> {
    /// Creates a borrowed value from `&String`; a string too long for the length field gives the empty value.
    fn from(value: &'a String) -> (r: Self)
        ensures
            encode_utf8(value@).len() <= MAX_BORROWED_OR_SHARED_LEN ==> r@ == value@ && r.state()
                == StateTag::Borrowed,
            encode_utf8(value@).len() > MAX_BORROWED_OR_SHARED_LEN ==> r@ == Seq::<char>::empty()
                && r.state() == StateTag::Borrowed,
    {
        Self::from_inner(RefStrCore::from(value.as_str()))
    }
}

impl<'a> FromSpecImpl<&'a String> for LocalRefStr<'a> {
    open spec fn obeys_from_spec() -> bool {
        false
    }

    open spec fn from_spec(v: &'a String) -> Self {
        arbitrary()
    }
}

impl<'a> From<Rc<str>> for LocalRefStr<'a> {
    /// Creates a shared value from the backend's shared string type; a string too long for the length field gives the empty value.
    fn from(value: Rc<str>) -> (r: Self)
        ensures
            encode_utf8((*value)@).len() <= MAX_BORROWED_OR_SHARED_LEN ==> r@ == (*value)@
                && r.state() == StateTag::Shared,
            encode_utf8((*value)@).len() > MAX_BORROWED_OR_SHARED_LEN ==> r@ == Seq::<char>::empty()
                && r.state() == StateTag::Borrowed,
    {
        Self::from_inner(RefStrCore::from_shared_checked(value))
    }
}

impl<'a> FromSpecImpl<Rc<str>> for LocalRefStr<'a> {
    open spec fn obeys_from_spec() -> bool {
        false
    }

    open spec fn from_spec(v: Rc<str>) -> Self {
        arbitrary()
    }
}

impl<'a> From<Box<str>> for LocalRefStr<'a> {
    /// Creates an owned value from `Box<str>`: inline when short, shared otherwise; a string too long for the length field gives the empty value.
    fn from(value: Box<str>) -> (r: Self)
        ensures
            encode_utf8(value@).len() <= MAX_BORROWED_OR_SHARED_LEN ==> r@ == value@ && r.state()
                == if encode_utf8(value@).len() <= INLINE_CAPACITY {
                StateTag::Inline
            } else {
                StateTag::Shared
            },
            encode_utf8(value@).len() > MAX_BORROWED_OR_SHARED_LEN ==> r@ == Seq::<char>::empty()
                && r.state() == StateTag::Borrowed,
    {
        Self::from_inner(RefStrCore::from(value))
    }
}

impl<'a> FromSpecImpl<Box<str>> for LocalRefStr<'a> {
    open spec fn obeys_from_spec() -> bool {
        false
    }

    open spec fn from_spec(v: Box<str>) -> Self {
        arbitrary()
    }
}

impl<'a> From<String> for LocalRefStr<'a> {
    /// Creates an owned value from `String`: inline when short, shared otherwise; a string too long for the length field gives the empty value.
    fn from(value: String) -> (r: Self)
        ensures
            encode_utf8(value@).len() <= MAX_BORROWED_OR_SHARED_LEN ==> r@ == value@ && r.state()
                == if encode_utf8(value@).len() <= INLINE_CAPACITY {
                StateTag::Inline
            } else {
                StateTag::Shared
            },
            encode_utf8(value@).len() > MAX_BORROWED_OR_SHARED_LEN ==> r@ == Seq::<char>::empty()
                && r.state() == StateTag::Borrowed,
    {
        Self::from_inner(RefStrCore::from(value))
    }
}

impl<'a> FromSpecImpl<String> for LocalRefStr<'a> {
    open spec fn obeys_from_spec() -> bool {
        false
    }

    open spec fn from_spec(v: String) -> Self {
        arbitrary()
    }
}

impl<'a> From<Cow<'a, str>> for LocalRefStr<'a> {
    /// Creates a value from `Cow<str>`: borrowed input stays borrowed, owned input becomes owned storage; a string too long for the length field gives the empty value.
    fn from(value: Cow<'a, str>) -> (r: Self)
        ensures
            encode_utf8(value@).len() <= MAX_BORROWED_OR_SHARED_LEN ==> r@ == value@ && r.state()
                == match value {
                Cow::Borrowed(_) => StateTag::Borrowed,
                Cow::Owned(_) => if encode_utf8(value@).len() <= INLINE_CAPACITY {
                    StateTag::Inline
                } else {
                    StateTag::Shared
                },
            },
            encode_utf8(value@).len() > MAX_BORROWED_OR_SHARED_LEN ==> r@ == Seq::<char>::empty()
                && r.state() == StateTag::Borrowed,
    {
        match value {
            Cow::Borrowed(s) => Self::from(s),
            Cow::Owned(s) => Self::from(s),
        }
    }
}

impl<'a> FromSpecImpl<Cow<'a, str>> for LocalRefStr<'a> {
    open spec fn obeys_from_spec() -> bool {
        false
    }

    open spec fn from_spec(v: Cow<'a, str>) -> Self {
        arbitrary()
    }
}

impl<'a> From<LocalRefStr<'a>> for Cow<'a, str> {
    /// Converts into `Cow<str>`: borrowed values stay borrowed, the others become owned.
    fn from(value: LocalRefStr<'a>) -> (r: Self)
        ensures
            r@ == value@,
            r is Borrowed <==> value.state() == StateTag::Borrowed,
    {
        value.into_cow()
    }
}

impl<'a> FromSpecImpl<LocalRefStr<'a>> for Cow<'a, str> {
    open spec fn obeys_from_spec() -> bool {
        false
    }

    open spec fn from_spec(v: LocalRefStr<'a>) -> Self {
        arbitrary()
    }
}

impl<'a> PartialEq<LocalRefStr<'a>> for LocalRefStr<'a> {
    fn eq(&self, other: &LocalRefStr<'a>) -> (r: bool)
        ensures
            r == (self@ == other@),
    {
        self.inner().eq_core(other.inner())
    }
}

impl<'a> PartialEqSpecImpl<LocalRefStr<'a>> for LocalRefStr<'a> {
    open spec fn obeys_eq_spec() -> bool {
        true
    }

    open spec fn eq_spec(&self, other: &LocalRefStr<'a>) -> bool {
        self@ == other@
    }
}

impl<'a> PartialEq<LocalRefStr<'a>> for &LocalRefStr<'a> {
    fn eq(&self, other: &LocalRefStr<'a>) -> (r: bool)
        ensures
            r == ((*self)@ == other@),
    {
        str_eq((*self).as_str(), other.as_str())
    }
}

impl<'a> PartialEqSpecImpl<LocalRefStr<'a>> for &LocalRefStr<'a> {
    open spec fn obeys_eq_spec() -> bool {
        true
    }

    open spec fn eq_spec(&self, other: &LocalRefStr<'a>) -> bool {
        (*self)@ == other@
    }
}

impl<'a> PartialEq<&LocalRefStr<'a>> for LocalRefStr<'a> {
    fn eq(&self, other: &&LocalRefStr<'a>) -> (r: bool)
        ensures
            r == (self@ == (*other)@),
    {
        str_eq(self.as_str(), (*other).as_str())
    }
}

impl<'a> PartialEqSpecImpl<&LocalRefStr<'a>> for LocalRefStr<'a> {
    open spec fn obeys_eq_spec() -> bool {
        true
    }

    open spec fn eq_spec(&self, other: &&LocalRefStr<'a>) -> bool {
        self@ == (*other)@
    }
}

impl<'a> PartialEq<&str> for LocalRefStr<'a> {
    fn eq(&self, other: &&str) -> (r: bool)
        ensures
            r == (self@ == other@),
    {
        str_eq(self.as_str(), *other)
    }
}

impl<'a> PartialEqSpecImpl<&str> for LocalRefStr<'a> {
    open spec fn obeys_eq_spec() -> bool {
        true
    }

    open spec fn eq_spec(&self, other: &&str) -> bool {
        self@ == other@
    }
}

impl<'a> PartialEq<&str> for &LocalRefStr<'a> {
    fn eq(&self, other: &&str) -> (r: bool)
        ensures
            r == ((*self)@ == other@),
    {
        str_eq((*self).as_str(), *other)
    }
}

impl<'a> PartialEqSpecImpl<&str> for &LocalRefStr<'a> {
    open spec fn obeys_eq_spec() -> bool {
        true
    }

    open spec fn eq_spec(&self, other: &&str) -> bool {
        (*self)@ == other@
    }
}

impl<'a> PartialEq<&&str> for LocalRefStr<'a> {
    fn eq(&self, other: &&&str) -> (r: bool)
        ensures
            r == (self@ == (*other)@),
    {
        str_eq(self.as_str(), *(*other))
    }
}

impl<'a> PartialEqSpecImpl<&&str> for LocalRefStr<'a> {
    open spec fn obeys_eq_spec() -> bool {
        true
    }

    open spec fn eq_spec(&self, other: &&&str) -> bool {
        self@ == (*other)@
    }
}

impl<'a> PartialEq<String> for LocalRefStr<'a> {
    fn eq(&self, other: &String) -> (r: bool)
        ensures
            r == (self@ == other@),
    {
        str_eq(self.as_str(), other.as_str())
    }
}

impl<'a> PartialEqSpecImpl<String> for LocalRefStr<'a> {
    open spec fn obeys_eq_spec() -> bool {
        true
    }

    open spec fn eq_spec(&self, other: &String) -> bool {
        self@ == other@
    }
}

impl<'a> PartialEq<String> for &LocalRefStr<'a> {
    fn eq(&self, other: &String) -> (r: bool)
        ensures
            r == ((*self)@ == other@),
    {
        str_eq((*self).as_str(), other.as_str())
    }
}

impl<'a> PartialEqSpecImpl<String> for &LocalRefStr<'a> {
    open spec fn obeys_eq_spec() -> bool {
        true
    }

    open spec fn eq_spec(&self, other: &String) -> bool {
        (*self)@ == other@
    }
}

impl<'a> PartialEq<&String> for LocalRefStr<'a> {
    fn eq(&self, other: &&String) -> (r: bool)
        ensures
            r == (self@ == (*other)@),
    {
        str_eq(self.as_str(), (*other).as_str())
    }
}

impl<'a> PartialEqSpecImpl<&String> for LocalRefStr<'a> {
    open spec fn obeys_eq_spec() -> bool {
        true
    }

    open spec fn eq_spec(&self, other: &&String) -> bool {
        self@ == (*other)@
    }
}

impl<'a, 'b> PartialEq<Cow<'b, str>> for LocalRefStr<'a> {
    fn eq(&self, other: &Cow<'b, str>) -> (r: bool)
        ensures
            r == (self@ == other@),
    {
        str_eq(self.as_str(), cow_as_str(other))
    }
}

impl<'a, 'b> PartialEqSpecImpl<Cow<'b, str>> for LocalRefStr<'a> {
    open spec fn obeys_eq_spec() -> bool {
        true
    }

    open spec fn eq_spec(&self, other: &Cow<'b, str>) -> bool {
        self@ == other@
    }
}

impl<'a, 'b> PartialEq<Cow<'b, str>> for &LocalRefStr<'a> {
    fn eq(&self, other: &Cow<'b, str>) -> (r: bool)
        ensures
            r == ((*self)@ == other@),
    {
        str_eq((*self).as_str(), cow_as_str(other))
    }
}

impl<'a, 'b> PartialEqSpecImpl<Cow<'b, str>> for &LocalRefStr<'a> {
    open spec fn obeys_eq_spec() -> bool {
        true
    }

    open spec fn eq_spec(&self, other: &Cow<'b, str>) -> bool {
        (*self)@ == other@
    }
}

impl<'a, 'b> PartialEq<&Cow<'b, str>> for LocalRefStr<'a> {
    fn eq(&self, other: &&Cow<'b, str>) -> (r: bool)
        ensures
            r == (self@ == (*other)@),
    {
        str_eq(self.as_str(), cow_as_str((*other)))
    }
}

impl<'a, 'b> PartialEqSpecImpl<&Cow<'b, str>> for LocalRefStr<'a> {
    open spec fn obeys_eq_spec() -> bool {
        true
    }

    open spec fn eq_spec(&self, other: &&Cow<'b, str>) -> bool {
        self@ == (*other)@
    }
}

impl<'a> PartialEq<Arc<str>> for LocalRefStr<'a> {
    fn eq(&self, other: &Arc<str>) -> (r: bool)
        ensures
            r == (self@ == (**other)@),
    {
        str_eq(self.as_str(), &**other)
    }
}

impl<'a> PartialEqSpecImpl<Arc<str>> for LocalRefStr<'a> {
    open spec fn obeys_eq_spec() -> bool {
        true
    }

    open spec fn eq_spec(&self, other: &Arc<str>) -> bool {
        self@ == (**other)@
    }
}

impl<'a> PartialEq<Arc<str>> for &LocalRefStr<'a> {
    fn eq(&self, other: &Arc<str>) -> (r: bool)
        ensures
            r == ((*self)@ == (**other)@),
    {
        str_eq((*self).as_str(), &**other)
    }
}

impl<'a> PartialEqSpecImpl<Arc<str>> for &LocalRefStr<'a> {
    open spec fn obeys_eq_spec() -> bool {
        true
    }

    open spec fn eq_spec(&self, other: &Arc<str>) -> bool {
        (*self)@ == (**other)@
    }
}

impl<'a> PartialEq<&Arc<str>> for LocalRefStr<'a> {
    fn eq(&self, other: &&Arc<str>) -> (r: bool)
        ensures
            r == (self@ == (**(*other))@),
    {
        str_eq(self.as_str(), &**(*other))
    }
}

impl<'a> PartialEqSpecImpl<&Arc<str>> for LocalRefStr<'a> {
    open spec fn obeys_eq_spec() -> bool {
        true
    }

    open spec fn eq_spec(&self, other: &&Arc<str>) -> bool {
        self@ == (**(*other))@
    }
}

impl<'a> PartialEq<Rc<str>> for LocalRefStr<'a> {
    fn eq(&self, other: &Rc<str>) -> (r: bool)
        ensures
            r == (self@ == (**other)@),
    {
        str_eq(self.as_str(), &**other)
    }
}

impl<'a> PartialEqSpecImpl<Rc<str>> for LocalRefStr<'a> {
    open spec fn obeys_eq_spec() -> bool {
        true
    }

    open spec fn eq_spec(&self, other: &Rc<str>) -> bool {
        self@ == (**other)@
    }
}

impl<'a> PartialEq<Rc<str>> for &LocalRefStr<'a> {
    fn eq(&self, other: &Rc<str>) -> (r: bool)
        ensures
            r == ((*self)@ == (**other)@),
    {
        str_eq((*self).as_str(), &**other)
    }
}

impl<'a> PartialEqSpecImpl<Rc<str>> for &LocalRefStr<'a> {
    open spec fn obeys_eq_spec() -> bool {
        true
    }

    open spec fn eq_spec(&self, other: &Rc<str>) -> bool {
        (*self)@ == (**other)@
    }
}

impl<'a> PartialEq<&Rc<str>> for LocalRefStr<'a> {
    fn eq(&self, other: &&Rc<str>) -> (r: bool)
        ensures
            r == (self@ == (**(*other))@),
    {
        str_eq(self.as_str(), &**(*other))
    }
}

impl<'a> PartialEqSpecImpl<&Rc<str>> for LocalRefStr<'a> {
    open spec fn obeys_eq_spec() -> bool {
        true
    }

    open spec fn eq_spec(&self, other: &&Rc<str>) -> bool {
        self@ == (**(*other))@
    }
}

/// Law: `partial_cmp` orders two values by the bytes of the left operand
/// against those of the right one.
pub proof fn law_local_ref_str_partial_cmp<'a>(a: &LocalRefStr<'a>, b: &LocalRefStr<'a>)
    ensures
        PartialOrdSpec::partial_cmp_spec(a, b) == Some(lex_order_of(encode_utf8(a@), encode_utf8(b@))),
{
}

/// Law: `==` between `LocalRefStr<'a>` and `LocalRefStr<'a>` holds exactly when the contents are equal.
pub proof fn law_local_ref_str_eq_contents_0<'a>(a: &LocalRefStr<'a>, b: &LocalRefStr<'a>)
    ensures
        <LocalRefStr<'a> as PartialEqSpec<LocalRefStr<'a>>>::eq_spec(a, b) == (a@ == b@),
{
}

/// Law: `==` between `&LocalRefStr<'a>` and `LocalRefStr<'a>` holds exactly when the contents are equal.
pub proof fn law_local_ref_str_eq_contents_1<'a>(a: &&LocalRefStr<'a>, b: &LocalRefStr<'a>)
    ensures
        <&LocalRefStr<'a> as PartialEqSpec<LocalRefStr<'a>>>::eq_spec(a, b) == ((*a)@ == b@),
{
}

/// Law: `==` between `LocalRefStr<'a>` and `&LocalRefStr<'a>` holds exactly when the contents are equal.
pub proof fn law_local_ref_str_eq_contents_2<'a>(a: &LocalRefStr<'a>, b: &&LocalRefStr<'a>)
    ensures
        <LocalRefStr<'a> as PartialEqSpec<&LocalRefStr<'a>>>::eq_spec(a, b) == (a@ == (*b)@),
{
}

/// Law: `==` between `LocalRefStr<'a>` and `&str` holds exactly when the contents are equal.
pub proof fn law_local_ref_str_eq_contents_3<'a>(a: &LocalRefStr<'a>, b: &&str)
    ensures
        <LocalRefStr<'a> as PartialEqSpec<&str>>::eq_spec(a, b) == (a@ == b@),
{
}

/// Law: `==` between `&LocalRefStr<'a>` and `&str` holds exactly when the contents are equal.
pub proof fn law_local_ref_str_eq_contents_4<'a>(a: &&LocalRefStr<'a>, b: &&str)
    ensures
        <&LocalRefStr<'a> as PartialEqSpec<&str>>::eq_spec(a, b) == ((*a)@ == b@),
{
}

/// Law: `==` between `LocalRefStr<'a>` and `&&str` holds exactly when the contents are equal.
pub proof fn law_local_ref_str_eq_contents_5<'a>(a: &LocalRefStr<'a>, b: &&&str)
    ensures
        <LocalRefStr<'a> as PartialEqSpec<&&str>>::eq_spec(a, b) == (a@ == (*b)@),
{
}

/// Law: `==` between `LocalRefStr<'a>` and `String` holds exactly when the contents are equal.
pub proof fn law_local_ref_str_eq_contents_6<'a>(a: &LocalRefStr<'a>, b: &String)
    ensures
        <LocalRefStr<'a> as PartialEqSpec<String>>::eq_spec(a, b) == (a@ == b@),
{
}

/// Law: `==` between `&LocalRefStr<'a>` and `String` holds exactly when the contents are equal.
pub proof fn law_local_ref_str_eq_contents_7<'a>(a: &&LocalRefStr<'a>, b: &String)
    ensures
        <&LocalRefStr<'a> as PartialEqSpec<String>>::eq_spec(a, b) == ((*a)@ == b@),
{
}

/// Law: `==` between `LocalRefStr<'a>` and `&String` holds exactly when the contents are equal.
pub proof fn law_local_ref_str_eq_contents_8<'a>(a: &LocalRefStr<'a>, b: &&String)
    ensures
        <LocalRefStr<'a> as PartialEqSpec<&String>>::eq_spec(a, b) == (a@ == (*b)@),
{
}

/// Law: `==` between `LocalRefStr<'a>` and `Cow<'b, str>` holds exactly when the contents are equal.
pub proof fn law_local_ref_str_eq_contents_9<'a, 'b>(a: &LocalRefStr<'a>, b: &Cow<'b, str>)
    ensures
        <LocalRefStr<'a> as PartialEqSpec<Cow<'b, str>>>::eq_spec(a, b) == (a@ == b@),
{
}

/// Law: `==` between `&LocalRefStr<'a>` and `Cow<'b, str>` holds exactly when the contents are equal.
pub proof fn law_local_ref_str_eq_contents_10<'a, 'b>(a: &&LocalRefStr<'a>, b: &Cow<'b, str>)
    ensures
        <&LocalRefStr<'a> as PartialEqSpec<Cow<'b, str>>>::eq_spec(a, b) == ((*a)@ == b@),
{
}

/// Law: `==` between `LocalRefStr<'a>` and `&Cow<'b, str>` holds exactly when the contents are equal.
pub proof fn law_local_ref_str_eq_contents_11<'a, 'b>(a: &LocalRefStr<'a>, b: &&Cow<'b, str>)
    ensures
        <LocalRefStr<'a> as PartialEqSpec<&Cow<'b, str>>>::eq_spec(a, b) == (a@ == (*b)@),
{
}

/// Law: `==` between `LocalRefStr<'a>` and `Arc<str>` holds exactly when the contents are equal.
pub proof fn law_local_ref_str_eq_contents_12<'a>(a: &LocalRefStr<'a>, b: &Arc<str>)
    ensures
        <LocalRefStr<'a> as PartialEqSpec<Arc<str>>>::eq_spec(a, b) == (a@ == (**b)@),
{
}

/// Law: `==` between `&LocalRefStr<'a>` and `Arc<str>` holds exactly when the contents are equal.
pub proof fn law_local_ref_str_eq_contents_13<'a>(a: &&LocalRefStr<'a>, b: &Arc<str>)
    ensures
        <&LocalRefStr<'a> as PartialEqSpec<Arc<str>>>::eq_spec(a, b) == ((*a)@ == (**b)@),
{
}

/// Law: `==` between `LocalRefStr<'a>` and `&Arc<str>` holds exactly when the contents are equal.
pub proof fn law_local_ref_str_eq_contents_14<'a>(a: &LocalRefStr<'a>, b: &&Arc<str>)
    ensures
        <LocalRefStr<'a> as PartialEqSpec<&Arc<str>>>::eq_spec(a, b) == (a@ == (**(*b))@),
{
}

/// Law: `==` between `LocalRefStr<'a>` and `Rc<str>` holds exactly when the contents are equal.
pub proof fn law_local_ref_str_eq_contents_15<'a>(a: &LocalRefStr<'a>, b: &Rc<str>)
    ensures
        <LocalRefStr<'a> as PartialEqSpec<Rc<str>>>::eq_spec(a, b) == (a@ == (**b)@),
{
}

/// Law: `==` between `&LocalRefStr<'a>` and `Rc<str>` holds exactly when the contents are equal.
pub proof fn law_local_ref_str_eq_contents_16<'a>(a: &&LocalRefStr<'a>, b: &Rc<str>)
    ensures
        <&LocalRefStr<'a> as PartialEqSpec<Rc<str>>>::eq_spec(a, b) == ((*a)@ == (**b)@),
{
}

/// Law: `==` between `LocalRefStr<'a>` and `&Rc<str>` holds exactly when the contents are equal.
pub proof fn law_local_ref_str_eq_contents_17<'a>(a: &LocalRefStr<'a>, b: &&Rc<str>)
    ensures
        <LocalRefStr<'a> as PartialEqSpec<&Rc<str>>>::eq_spec(a, b) == (a@ == (**(*b))@),
{
}

/// A `'static` compact string that is either borrowed, stored inline, or
/// shared through `Rc<str>`.
///
/// This is the single-threaded counterpart of [`StaticRefStr`].
pub struct LocalStaticRefStr(RefStrCore<'static, LocalBackend>);

impl View for LocalStaticRefStr {
    type V = Seq<char>;

    /// The string contents.
    closed spec fn view(&self) -> Seq<char> {
        self.0@
    }
}

impl LocalStaticRefStr {
    /// The storage state: borrowed, shared or inline.
    pub closed spec fn state(&self) -> StateTag {
        self.0.state()
    }

    /// Wrap a compact value.
    pub(crate) fn from_inner(inner: RefStrCore<'static, LocalBackend>) -> (r: Self)
        ensures
            r@ == inner@,
            r.state() == inner.state(),
    {
        LocalStaticRefStr(inner)
    }

    /// Borrow the compact value.
    pub(crate) fn inner(&self) -> (r: &RefStrCore<'static, LocalBackend>)
        ensures
            r@ == self@,
            r.state() == self.state(),
    {
        &self.0
    }

    /// Unwrap the compact value.
    pub(crate) fn into_inner(self) -> (r: RefStrCore<'static, LocalBackend>)
        ensures
            r@ == self@,
            r.state() == self.state(),
    {
        self.0
    }

    /// Create a borrowed value from `&str`.
    ///
    /// This is equivalent to [`from_str`](Self::from_str).
    pub fn new(s: &'static str) -> (r: Self)
        requires
            s.spec_bytes().len() <= MAX_BORROWED_OR_SHARED_LEN,
        ensures
            r@ == s@,
            r.state() == StateTag::Borrowed,
    {
        Self::from_inner(RefStrCore::new(s))
    }

    /// Create a borrowed value from `&str`.
    ///
    /// The resulting value does not allocate and stays borrowed.
    pub fn from_str(s: &'static str) -> (r: Self)
        requires
            s.spec_bytes().len() <= MAX_BORROWED_OR_SHARED_LEN,
        ensures
            r@ == s@,
            r.state() == StateTag::Borrowed,
    {
        Self::from_inner(RefStrCore::from_str(s))
    }

    /// Create an owned value from a string.
    ///
    /// Unlike [`from_str`](Self::from_str), this copies the input into owned
    /// storage: short strings are stored inline, longer ones in the backend's
    /// shared representation.
    pub fn from_owned_like(s: &str) -> (r: Self)
        requires
            s.spec_bytes().len() <= MAX_BORROWED_OR_SHARED_LEN,
        ensures
            r@ == s@,
            r.state() == if s.spec_bytes().len() <= INLINE_CAPACITY {
                StateTag::Inline
            } else {
                StateTag::Shared
            },
    {
        Self::from_inner(RefStrCore::from_owned_like(s))
    }

    /// Create a value directly from the backend's shared string type.
    ///
    /// The allocation stays shared; the contents are not copied.
    pub fn from_shared(s: Rc<str>) -> (r: Self)
        requires
            encode_utf8((*s)@).len() <= MAX_BORROWED_OR_SHARED_LEN,
        ensures
            r@ == (*s)@,
            r.state() == StateTag::Shared,
    {
        Self::from_inner(RefStrCore::from_shared(s))
    }

    /// Returns `true` when this value owns shared storage.
    pub fn is_shared(&self) -> (r: bool)
        ensures
            r == (self.state() == StateTag::Shared),
    {
        self.inner().is_shared()
    }

    /// Returns `true` when this value is a borrowed string.
    pub fn is_borrowed(&self) -> (r: bool)
        ensures
            r == (self.state() == StateTag::Borrowed),
    {
        self.inner().is_borrowed()
    }

    /// Returns `true` when this value stores an inline short string.
    pub fn is_inline(&self) -> (r: bool)
        ensures
            r == (self.state() == StateTag::Inline),
    {
        self.inner().is_inline()
    }

    /// Returns `true` when the cached contents are ASCII-only.
    pub fn is_ascii(&self) -> (r: bool)
        ensures
            r == is_ascii_chars(self@),
    {
        self.inner().is_ascii()
    }

    /// Returns the string length in bytes.
    pub fn len(&self) -> (r: usize)
        ensures
            r == encode_utf8(self@).len(),
            r <= MAX_BORROWED_OR_SHARED_LEN,
            self.state() == StateTag::Inline ==> r <= INLINE_CAPACITY,
    {
        self.inner().len()
    }

    /// Returns `true` when the string is empty.
    pub fn is_empty(&self) -> (r: bool)
        ensures
            r == (self@.len() == 0),
    {
        self.inner().is_empty()
    }

    /// Borrows the contents as `&str`.
    pub fn as_str(&self) -> (r: &str)
        ensures
            r@ == self@,
    {
        self.inner().as_str()
    }

    /// Converts this value into owned UTF-8 bytes.
    pub fn into_bytes(self) -> (r: Vec<u8>)
        ensures
            r@ == encode_utf8(self@),
    {
        self.into_inner().into_bytes()
    }

    /// Converts this value into `Box<str>`.
    pub fn into_boxed_str(self) -> (r: Box<str>)
        ensures
            r@ == self@,
    {
        self.into_inner().into_boxed_str()
    }

    /// Converts this value into `String`.
    pub fn into_string(self) -> (r: String)
        ensures
            r@ == self@,
    {
        self.into_inner().into_string()
    }

    /// Hand out the shared storage handle, only when this value is shared.
    ///
    /// Borrowed and inline values give `None`, so the result never stands for
    /// borrowed data.
    pub fn into_raw_shared(self) -> (r: Option<Rc<str>>)
        ensures
            r is Some <==> self.state() == StateTag::Shared,
            r matches Some(h) ==> (*h)@ == self@,
    {
        self.into_inner().into_raw_shared()
    }

    /// Convert a borrowed value into the string it borrows, for the full lifetime.
    pub fn into_str_unchecked(self) -> (r: &'static str)
        requires
            self.state() == StateTag::Borrowed,
        ensures
            r@ == self@,
    {
        self.into_inner().into_str_unchecked()
    }

    /// Converts this value into `Cow<str>`.
    ///
    /// Borrowed values stay borrowed. Inline and shared values become owned strings.
    pub fn into_cow(self) -> (r: Cow<'static, str>)
        ensures
            r@ == self@,
            r is Borrowed <==> self.state() == StateTag::Borrowed,
    {
        self.into_inner().into_cow()
    }

    /// Borrows the contents as `Cow<'static, str>`.
    ///
    /// Borrowed values stay borrowed; inline and shared values are copied
    /// into an owned string.
    pub fn as_cow(&self) -> (r: Cow<'static, str>)
        ensures
            r@ == self@,
            r is Borrowed <==> self.state() == StateTag::Borrowed,
    {
        match self.inner().borrowed_static_str() {
            Some(value) => Cow::Borrowed(value),
            None => Cow::Owned(self.as_str().to_owned()),
        }
    }

    /// Creates a borrowed value from `&'static str`.
    pub fn from_static(s: &'static str) -> (r: Self)
        requires
            s.spec_bytes().len() <= MAX_BORROWED_OR_SHARED_LEN,
        ensures
            r@ == s@,
            r.state() == StateTag::Borrowed,
    {
        Self::from_str(s)
    }

    /// The contents as a `String`, as `Display` renders them.
    pub fn to_string(&self) -> (r: String)
        ensures
            r@ == self@,
    {
        self.as_str().to_owned()
    }


    /// Render the value for debugging: `LocalStaticRefStr("...")`, or with
    /// `alternate` a struct rendering with its state, length and contents.
    pub fn debug_string(&self, alternate: bool) -> (r: String)
        ensures
            r@ == spec_debug_render(
                "LocalStaticRefStr"@,
                self.state(),
                encode_utf8(self@).len(),
                self@,
                alternate,
            ),
    {
        debug_render("LocalStaticRefStr", self.inner().state_tag(), self.len(), self.as_str(), alternate)
    }
}

impl Default for LocalStaticRefStr {
    /// Creates an empty borrowed value.
    fn default() -> (r: Self)
        ensures
            r@ == Seq::<char>::empty(),
            r.state() == StateTag::Borrowed,
    {
        Self::from_inner(RefStrCore::default())
    }
}

impl AsRef<str> for LocalStaticRefStr {
    /// Borrows the contents as `&str`.
    fn as_ref(&self) -> (r: &str)
        ensures
            r@ == self@,
    {
        self.as_str()
    }
}

impl Borrow<str> for LocalStaticRefStr {
    /// Borrows the contents as `&str`.
    fn borrow(&self) -> (r: &str)
        ensures
            str_view(r) == self@,
    {
        self.as_str()
    }
}

impl Deref for LocalStaticRefStr {
    type Target = str;

    /// Borrows the contents as `str`.
    fn deref(&self) -> (r: &str)
        ensures
            r@ == self@,
    {
        self.as_str()
    }
}

impl Clone for LocalStaticRefStr {
    /// Clones the string; shared storage gains one more handle.
    fn clone(&self) -> (r: Self)
        ensures
            r@ == self@,
            r.state() == self.state(),
    {
        Self::from_inner(self.inner().clone_core())
    }
}

impl Eq for LocalStaticRefStr {
}

impl Hash for LocalStaticRefStr {
    /// Hashes the string contents, as `str` hashes them.
    fn hash<H: Hasher>(&self, state: &mut H) {
        hash_str(self.as_str(), state)
    }
}

impl PartialOrd for LocalStaticRefStr {
    /// Orders lexicographically by UTF-8 bytes.
    fn partial_cmp(&self, other: &Self) -> (r: Option<Ordering>)
        ensures
            r == Some(lex_order_of(encode_utf8(self@), encode_utf8(other@))),
    {
        Some(str_order(self.as_str(), other.as_str()))
    }
}

impl PartialOrdSpecImpl for LocalStaticRefStr {
    open spec fn obeys_partial_cmp_spec() -> bool {
        true
    }

    open spec fn partial_cmp_spec(&self, other: &Self) -> Option<Ordering> {
        Some(lex_order_of(encode_utf8(self@), encode_utf8(other@)))
    }
}

impl From<&'static str> for LocalStaticRefStr {
    /// Creates a borrowed value from `&str`; a string too long for the length field gives the empty value.
    fn from(value: &'static str) -> (r: Self)
        ensures
            value.spec_bytes().len() <= MAX_BORROWED_OR_SHARED_LEN ==> r@ == value@ && r.state()
                == StateTag::Borrowed,
            value.spec_bytes().len() > MAX_BORROWED_OR_SHARED_LEN ==> r@ == Seq::<char>::empty()
                && r.state() == StateTag::Borrowed,
    {
        Self::from_inner(RefStrCore::from(value))
    }
}

impl FromSpecImpl<&'static str> for LocalStaticRefStr {
    open spec fn obeys_from_spec() -> bool {
        false
    }

    open spec fn from_spec(v: &'static str) -> Self {
        arbitrary()
    }
}

impl From<Rc<str>> for LocalStaticRefStr {
    /// Creates a shared value from the backend's shared string type; a string too long for the length field gives the empty value.
    fn from(value: Rc<str>) -> (r: Self)
        ensures
            encode_utf8((*value)@).len() <= MAX_BORROWED_OR_SHARED_LEN ==> r@ == (*value)@
                && r.state() == StateTag::Shared,
            encode_utf8((*value)@).len() > MAX_BORROWED_OR_SHARED_LEN ==> r@ == Seq::<char>::empty()
                && r.state() == StateTag::Borrowed,
    {
        Self::from_inner(RefStrCore::from_shared_checked(value))
    }
}

impl FromSpecImpl<Rc<str>> for LocalStaticRefStr {
    open spec fn obeys_from_spec() -> bool {
        false
    }

    open spec fn from_spec(v: Rc<str>) -> Self {
        arbitrary()
    }
}

impl From<Box<str>> for LocalStaticRefStr {
    /// Creates an owned value from `Box<str>`: inline when short, shared otherwise; a string too long for the length field gives the empty value.
    fn from(value: Box<str>) -> (r: Self)
        ensures
            encode_utf8(value@).len() <= MAX_BORROWED_OR_SHARED_LEN ==> r@ == value@ && r.state()
                == if encode_utf8(value@).len() <= INLINE_CAPACITY {
                StateTag::Inline
            } else {
                StateTag::Shared
            },
            encode_utf8(value@).len() > MAX_BORROWED_OR_SHARED_LEN ==> r@ == Seq::<char>::empty()
                && r.state() == StateTag::Borrowed,
    {
        Self::from_inner(RefStrCore::from(value))
    }
}

impl FromSpecImpl<Box<str>> for LocalStaticRefStr {
    open spec fn obeys_from_spec() -> bool {
        false
    }

    open spec fn from_spec(v: Box<str>) -> Self {
        arbitrary()
    }
}

impl From<String> for LocalStaticRefStr {
    /// Creates an owned value from `String`: inline when short, shared otherwise; a string too long for the length field gives the empty value.
    fn from(value: String) -> (r: Self)
        ensures
            encode_utf8(value@).len() <= MAX_BORROWED_OR_SHARED_LEN ==> r@ == value@ && r.state()
                == if encode_utf8(value@).len() <= INLINE_CAPACITY {
                StateTag::Inline
            } else {
                StateTag::Shared
            },
            encode_utf8(value@).len() > MAX_BORROWED_OR_SHARED_LEN ==> r@ == Seq::<char>::empty()
                && r.state() == StateTag::Borrowed,
    {
        Self::from_inner(RefStrCore::from(value))
    }
}

impl FromSpecImpl<String> for LocalStaticRefStr {
    open spec fn obeys_from_spec() -> bool {
        false
    }

    open spec fn from_spec(v: String) -> Self {
        arbitrary()
    }
}

impl From<Cow<'static, str>> for LocalStaticRefStr {
    /// Creates a value from `Cow<str>`: borrowed input stays borrowed, owned input becomes owned storage; a string too long for the length field gives the empty value.
    fn from(value: Cow<'static, str>) -> (r: Self)
        ensures
            encode_utf8(value@).len() <= MAX_BORROWED_OR_SHARED_LEN ==> r@ == value@ && r.state()
                == match value {
                Cow::Borrowed(_) => StateTag::Borrowed,
                Cow::Owned(_) => if encode_utf8(value@).len() <= INLINE_CAPACITY {
                    StateTag::Inline
                } else {
                    StateTag::Shared
                },
            },
            encode_utf8(value@).len() > MAX_BORROWED_OR_SHARED_LEN ==> r@ == Seq::<char>::empty()
                && r.state() == StateTag::Borrowed,
    {
        match value {
            Cow::Borrowed(s) => Self::from(s),
            Cow::Owned(s) => Self::from(s),
        }
    }
}

impl FromSpecImpl<Cow<'static, str>> for LocalStaticRefStr {
    open spec fn obeys_from_spec() -> bool {
        false
    }

    open spec fn from_spec(v: Cow<'static, str>) -> Self {
        arbitrary()
    }
}

impl From<LocalStaticRefStr> for Cow<'static, str> {
    /// Converts into `Cow<str>`: borrowed values stay borrowed, the others become owned.
    fn from(value: LocalStaticRefStr) -> (r: Self)
        ensures
            r@ == value@,
            r is Borrowed <==> value.state() == StateTag::Borrowed,
    {
        value.into_cow()
    }
}

impl FromSpecImpl<LocalStaticRefStr> for Cow<'static, str> {
    open spec fn obeys_from_spec() -> bool {
        false
    }

    open spec fn from_spec(v: LocalStaticRefStr) -> Self {
        arbitrary()
    }
}

impl PartialEq<LocalStaticRefStr> for LocalStaticRefStr {
    fn eq(&self, other: &LocalStaticRefStr) -> (r: bool)
        ensures
            r == (self@ == other@),
    {
        self.inner().eq_core(other.inner())
    }
}

impl PartialEqSpecImpl<LocalStaticRefStr> for LocalStaticRefStr {
    open spec fn obeys_eq_spec() -> bool {
        true
    }

    open spec fn eq_spec(&self, other: &LocalStaticRefStr) -> bool {
        self@ == other@
    }
}

impl PartialEq<LocalStaticRefStr> for &LocalStaticRefStr {
    fn eq(&self, other: &LocalStaticRefStr) -> (r: bool)
        ensures
            r == ((*self)@ == other@),
    {
        str_eq((*self).as_str(), other.as_str())
    }
}

impl PartialEqSpecImpl<LocalStaticRefStr> for &LocalStaticRefStr {
    open spec fn obeys_eq_spec() -> bool {
        true
    }

    open spec fn eq_spec(&self, other: &LocalStaticRefStr) -> bool {
        (*self)@ == other@
    }
}

impl PartialEq<&LocalStaticRefStr> for LocalStaticRefStr {
    fn eq(&self, other: &&LocalStaticRefStr) -> (r: bool)
        ensures
            r == (self@ == (*other)@),
    {
        str_eq(self.as_str(), (*other).as_str())
    }
}

impl PartialEqSpecImpl<&LocalStaticRefStr> for LocalStaticRefStr {
    open spec fn obeys_eq_spec() -> bool {
        true
    }

    open spec fn eq_spec(&self, other: &&LocalStaticRefStr) -> bool {
        self@ == (*other)@
    }
}

impl PartialEq<&str> for LocalStaticRefStr {
    fn eq(&self, other: &&str) -> (r: bool)
        ensures
            r == (self@ == other@),
    {
        str_eq(self.as_str(), *other)
    }
}

impl PartialEqSpecImpl<&str> for LocalStaticRefStr {
    open spec fn obeys_eq_spec() -> bool {
        true
    }

    open spec fn eq_spec(&self, other: &&str) -> bool {
        self@ == other@
    }
}

impl PartialEq<&str> for &LocalStaticRefStr {
    fn eq(&self, other: &&str) -> (r: bool)
        ensures
            r == ((*self)@ == other@),
    {
        str_eq((*self).as_str(), *other)
    }
}

impl PartialEqSpecImpl<&str> for &LocalStaticRefStr {
    open spec fn obeys_eq_spec() -> bool {
        true
    }

    open spec fn eq_spec(&self, other: &&str) -> bool {
        (*self)@ == other@
    }
}

impl PartialEq<&&str> for LocalStaticRefStr {
    fn eq(&self, other: &&&str) -> (r: bool)
        ensures
            r == (self@ == (*other)@),
    {
        str_eq(self.as_str(), *(*other))
    }
}

impl PartialEqSpecImpl<&&str> for LocalStaticRefStr {
    open spec fn obeys_eq_spec() -> bool {
        true
    }

    open spec fn eq_spec(&self, other: &&&str) -> bool {
        self@ == (*other)@
    }
}

impl PartialEq<String> for LocalStaticRefStr {
    fn eq(&self, other: &String) -> (r: bool)
        ensures
            r == (self@ == other@),
    {
        str_eq(self.as_str(), other.as_str())
    }
}

impl PartialEqSpecImpl<String> for LocalStaticRefStr {
    open spec fn obeys_eq_spec() -> bool {
        true
    }

    open spec fn eq_spec(&self, other: &String) -> bool {
        self@ == other@
    }
}

impl PartialEq<String> for &LocalStaticRefStr {
    fn eq(&self, other: &String) -> (r: bool)
        ensures
            r == ((*self)@ == other@),
    {
        str_eq((*self).as_str(), other.as_str())
    }
}

impl PartialEqSpecImpl<String> for &LocalStaticRefStr {
    open spec fn obeys_eq_spec() -> bool {
        true
    }

    open spec fn eq_spec(&self, other: &String) -> bool {
        (*self)@ == other@
    }
}

impl PartialEq<&String> for LocalStaticRefStr {
    fn eq(&self, other: &&String) -> (r: bool)
        ensures
            r == (self@ == (*other)@),
    {
        str_eq(self.as_str(), (*other).as_str())
    }
}

impl PartialEqSpecImpl<&String> for LocalStaticRefStr {
    open spec fn obeys_eq_spec() -> bool {
        true
    }

    open spec fn eq_spec(&self, other: &&String) -> bool {
        self@ == (*other)@
    }
}

impl<'b> PartialEq<Cow<'b, str>> for LocalStaticRefStr {
    fn eq(&self, other: &Cow<'b, str>) -> (r: bool)
        ensures
            r == (self@ == other@),
    {
        str_eq(self.as_str(), cow_as_str(other))
    }
}

impl<'b> PartialEqSpecImpl<Cow<'b, str>> for LocalStaticRefStr {
    open spec fn obeys_eq_spec() -> bool {
        true
    }

    open spec fn eq_spec(&self, other: &Cow<'b, str>) -> bool {
        self@ == other@
    }
}

impl<'b> PartialEq<Cow<'b, str>> for &LocalStaticRefStr {
    fn eq(&self, other: &Cow<'b, str>) -> (r: bool)
        ensures
            r == ((*self)@ == other@),
    {
        str_eq((*self).as_str(), cow_as_str(other))
    }
}

impl<'b> PartialEqSpecImpl<Cow<'b, str>> for &LocalStaticRefStr {
    open spec fn obeys_eq_spec() -> bool {
        true
    }

    open spec fn eq_spec(&self, other: &Cow<'b, str>) -> bool {
        (*self)@ == other@
    }
}

impl<'b> PartialEq<&Cow<'b, str>> for LocalStaticRefStr {
    fn eq(&self, other: &&Cow<'b, str>) -> (r: bool)
        ensures
            r == (self@ == (*other)@),
    {
        str_eq(self.as_str(), cow_as_str((*other)))
    }
}

impl<'b> PartialEqSpecImpl<&Cow<'b, str>> for LocalStaticRefStr {
    open spec fn obeys_eq_spec() -> bool {
        true
    }

    open spec fn eq_spec(&self, other: &&Cow<'b, str>) -> bool {
        self@ == (*other)@
    }
}

impl PartialEq<Arc<str>> for LocalStaticRefStr {
    fn eq(&self, other: &Arc<str>) -> (r: bool)
        ensures
            r == (self@ == (**other)@),
    {
        str_eq(self.as_str(), &**other)
    }
}

impl PartialEqSpecImpl<Arc<str>> for LocalStaticRefStr {
    open spec fn obeys_eq_spec() -> bool {
        true
    }

    open spec fn eq_spec(&self, other: &Arc<str>) -> bool {
        self@ == (**other)@
    }
}

impl PartialEq<Arc<str>> for &LocalStaticRefStr {
    fn eq(&self, other: &Arc<str>) -> (r: bool)
        ensures
            r == ((*self)@ == (**other)@),
    {
        str_eq((*self).as_str(), &**other)
    }
}

impl PartialEqSpecImpl<Arc<str>> for &LocalStaticRefStr {
    open spec fn obeys_eq_spec() -> bool {
        true
    }

    open spec fn eq_spec(&self, other: &Arc<str>) -> bool {
        (*self)@ == (**other)@
    }
}

impl PartialEq<&Arc<str>> for LocalStaticRefStr {
    fn eq(&self, other: &&Arc<str>) -> (r: bool)
        ensures
            r == (self@ == (**(*other))@),
    {
        str_eq(self.as_str(), &**(*other))
    }
}

impl PartialEqSpecImpl<&Arc<str>> for LocalStaticRefStr {
    open spec fn obeys_eq_spec() -> bool {
        true
    }

    open spec fn eq_spec(&self, other: &&Arc<str>) -> bool {
        self@ == (**(*other))@
    }
}

impl PartialEq<Rc<str>> for LocalStaticRefStr {
    fn eq(&self, other: &Rc<str>) -> (r: bool)
        ensures
            r == (self@ == (**other)@),
    {
        str_eq(self.as_str(), &**other)
    }
}

impl PartialEqSpecImpl<Rc<str>> for LocalStaticRefStr {
    open spec fn obeys_eq_spec() -> bool {
        true
    }

    open spec fn eq_spec(&self, other: &Rc<str>) -> bool {
        self@ == (**other)@
    }
}

impl PartialEq<Rc<str>> for &LocalStaticRefStr {
    fn eq(&self, other: &Rc<str>) -> (r: bool)
        ensures
            r == ((*self)@ == (**other)@),
    {
        str_eq((*self).as_str(), &**other)
    }
}

impl PartialEqSpecImpl<Rc<str>> for &LocalStaticRefStr {
    open spec fn obeys_eq_spec() -> bool {
        true
    }

    open spec fn eq_spec(&self, other: &Rc<str>) -> bool {
        (*self)@ == (**other)@
    }
}

impl PartialEq<&Rc<str>> for LocalStaticRefStr {
    fn eq(&self, other: &&Rc<str>) -> (r: bool)
        ensures
            r == (self@ == (**(*other))@),
    {
        str_eq(self.as_str(), &**(*other))
    }
}

impl PartialEqSpecImpl<&Rc<str>> for LocalStaticRefStr {
    open spec fn obeys_eq_spec() -> bool {
        true
    }

    open spec fn eq_spec(&self, other: &&Rc<str>) -> bool {
        self@ == (**(*other))@
    }
}

/// Law: `partial_cmp` orders two values by the bytes of the left operand
/// against those of the right one.
pub proof fn law_local_static_ref_str_partial_cmp(a: &LocalStaticRefStr, b: &LocalStaticRefStr)
    ensures
        PartialOrdSpec::partial_cmp_spec(a, b) == Some(lex_order_of(encode_utf8(a@), encode_utf8(b@))),
{
}

/// Law: `==` between `LocalStaticRefStr` and `LocalStaticRefStr` holds exactly when the contents are equal.
pub proof fn law_local_static_ref_str_eq_contents_0(a: &LocalStaticRefStr, b: &LocalStaticRefStr)
    ensures
        <LocalStaticRefStr as PartialEqSpec<LocalStaticRefStr>>::eq_spec(a, b) == (a@ == b@),
{
}

/// Law: `==` between `&LocalStaticRefStr` and `LocalStaticRefStr` holds exactly when the contents are equal.
pub proof fn law_local_static_ref_str_eq_contents_1(a: &&LocalStaticRefStr, b: &LocalStaticRefStr)
    ensures
        <&LocalStaticRefStr as PartialEqSpec<LocalStaticRefStr>>::eq_spec(a, b) == ((*a)@ == b@),
{
}

/// Law: `==` between `LocalStaticRefStr` and `&LocalStaticRefStr` holds exactly when the contents are equal.
pub proof fn law_local_static_ref_str_eq_contents_2(a: &LocalStaticRefStr, b: &&LocalStaticRefStr)
    ensures
        <LocalStaticRefStr as PartialEqSpec<&LocalStaticRefStr>>::eq_spec(a, b) == (a@ == (*b)@),
{
}

/// Law: `==` between `LocalStaticRefStr` and `&str` holds exactly when the contents are equal.
pub proof fn law_local_static_ref_str_eq_contents_3(a: &LocalStaticRefStr, b: &&str)
    ensures
        <LocalStaticRefStr as PartialEqSpec<&str>>::eq_spec(a, b) == (a@ == b@),
{
}

/// Law: `==` between `&LocalStaticRefStr` and `&str` holds exactly when the contents are equal.
pub proof fn law_local_static_ref_str_eq_contents_4(a: &&LocalStaticRefStr, b: &&str)
    ensures
        <&LocalStaticRefStr as PartialEqSpec<&str>>::eq_spec(a, b) == ((*a)@ == b@),
{
}

/// Law: `==` between `LocalStaticRefStr` and `&&str` holds exactly when the contents are equal.
pub proof fn law_local_static_ref_str_eq_contents_5(a: &LocalStaticRefStr, b: &&&str)
    ensures
        <LocalStaticRefStr as PartialEqSpec<&&str>>::eq_spec(a, b) == (a@ == (*b)@),
{
}

/// Law: `==` between `LocalStaticRefStr` and `String` holds exactly when the contents are equal.
pub proof fn law_local_static_ref_str_eq_contents_6(a: &LocalStaticRefStr, b: &String)
    ensures
        <LocalStaticRefStr as PartialEqSpec<String>>::eq_spec(a, b) == (a@ == b@),
{
}

/// Law: `==` between `&LocalStaticRefStr` and `String` holds exactly when the contents are equal.
pub proof fn law_local_static_ref_str_eq_contents_7(a: &&LocalStaticRefStr, b: &String)
    ensures
        <&LocalStaticRefStr as PartialEqSpec<String>>::eq_spec(a, b) == ((*a)@ == b@),
{
}

/// Law: `==` between `LocalStaticRefStr` and `&String` holds exactly when the contents are equal.
pub proof fn law_local_static_ref_str_eq_contents_8(a: &LocalStaticRefStr, b: &&String)
    ensures
        <LocalStaticRefStr as PartialEqSpec<&String>>::eq_spec(a, b) == (a@ == (*b)@),
{
}

/// Law: `==` between `LocalStaticRefStr` and `Cow<'b, str>` holds exactly when the contents are equal.
pub proof fn law_local_static_ref_str_eq_contents_9<'b>(a: &LocalStaticRefStr, b: &Cow<'b, str>)
    ensures
        <LocalStaticRefStr as PartialEqSpec<Cow<'b, str>>>::eq_spec(a, b) == (a@ == b@),
{
}

/// Law: `==` between `&LocalStaticRefStr` and `Cow<'b, str>` holds exactly when the contents are equal.
pub proof fn law_local_static_ref_str_eq_contents_10<'b>(a: &&LocalStaticRefStr, b: &Cow<'b, str>)
    ensures
        <&LocalStaticRefStr as PartialEqSpec<Cow<'b, str>>>::eq_spec(a, b) == ((*a)@ == b@),
{
}

/// Law: `==` between `LocalStaticRefStr` and `&Cow<'b, str>` holds exactly when the contents are equal.
pub proof fn law_local_static_ref_str_eq_contents_11<'b>(a: &LocalStaticRefStr, b: &&Cow<'b, str>)
    ensures
        <LocalStaticRefStr as PartialEqSpec<&Cow<'b, str>>>::eq_spec(a, b) == (a@ == (*b)@),
{
}

/// Law: `==` between `LocalStaticRefStr` and `Arc<str>` holds exactly when the contents are equal.
pub proof fn law_local_static_ref_str_eq_contents_12(a: &LocalStaticRefStr, b: &Arc<str>)
    ensures
        <LocalStaticRefStr as PartialEqSpec<Arc<str>>>::eq_spec(a, b) == (a@ == (**b)@),
{
}

/// Law: `==` between `&LocalStaticRefStr` and `Arc<str>` holds exactly when the contents are equal.
pub proof fn law_local_static_ref_str_eq_contents_13(a: &&LocalStaticRefStr, b: &Arc<str>)
    ensures
        <&LocalStaticRefStr as PartialEqSpec<Arc<str>>>::eq_spec(a, b) == ((*a)@ == (**b)@),
{
}

/// Law: `==` between `LocalStaticRefStr` and `&Arc<str>` holds exactly when the contents are equal.
pub proof fn law_local_static_ref_str_eq_contents_14(a: &LocalStaticRefStr, b: &&Arc<str>)
    ensures
        <LocalStaticRefStr as PartialEqSpec<&Arc<str>>>::eq_spec(a, b) == (a@ == (**(*b))@),
{
}

/// Law: `==` between `LocalStaticRefStr` and `Rc<str>` holds exactly when the contents are equal.
pub proof fn law_local_static_ref_str_eq_contents_15(a: &LocalStaticRefStr, b: &Rc<str>)
    ensures
        <LocalStaticRefStr as PartialEqSpec<Rc<str>>>::eq_spec(a, b) == (a@ == (**b)@),
{
}

/// Law: `==` between `&LocalStaticRefStr` and `Rc<str>` holds exactly when the contents are equal.
pub proof fn law_local_static_ref_str_eq_contents_16(a: &&LocalStaticRefStr, b: &Rc<str>)
    ensures
        <&LocalStaticRefStr as PartialEqSpec<Rc<str>>>::eq_spec(a, b) == ((*a)@ == (**b)@),
{
}

/// Law: `==` between `LocalStaticRefStr` and `&Rc<str>` holds exactly when the contents are equal.
pub proof fn law_local_static_ref_str_eq_contents_17(a: &LocalStaticRefStr, b: &&Rc<str>)
    ensures
        <LocalStaticRefStr as PartialEqSpec<&Rc<str>>>::eq_spec(a, b) == (a@ == (**(*b))@),
{
}

impl<'a> From<RefStr<'a>> for LocalRefStr<'a> {
    /// Converts from the thread-safe `Arc`-backed variant.
    ///
    /// Borrowed and inline values are transferred as they are. Shared values
    /// are copied into new storage of this backend.
    fn from(value: RefStr<'a>) -> (r: Self)
        ensures
            r@ == value@,
            r.state() == value.state(),
    {
        Self::from_inner(value.into_inner().into_backend())
    }
}

impl<'a> FromSpecImpl<RefStr<'a>> for LocalRefStr<'a> {
    open spec fn obeys_from_spec() -> bool {
        false
    }

    open spec fn from_spec(v: RefStr<'a>) -> Self {
        arbitrary()
    }
}

impl From<StaticRefStr> for LocalStaticRefStr {
    /// Converts from the thread-safe `Arc`-backed `'static` variant.
    fn from(value: StaticRefStr) -> (r: Self)
        ensures
            r@ == value@,
            r.state() == value.state(),
    {
        Self::from_inner(value.into_inner().into_backend())
    }
}

impl FromSpecImpl<StaticRefStr> for LocalStaticRefStr {
    open spec fn obeys_from_spec() -> bool {
        false
    }

    open spec fn from_spec(v: StaticRefStr) -> Self {
        arbitrary()
    }
}

impl From<LocalStaticRefStr> for LocalRefStr<'static> {
    /// Converts the dedicated `'static` wrapper into the lifetime-parameterized form.
    fn from(value: LocalStaticRefStr) -> (r: Self)
        ensures
            r@ == value@,
            r.state() == value.state(),
    {
        Self::from_inner(value.into_inner())
    }
}

impl FromSpecImpl<LocalStaticRefStr> for LocalRefStr<'static> {
    open spec fn obeys_from_spec() -> bool {
        false
    }

    open spec fn from_spec(v: LocalStaticRefStr) -> Self {
        arbitrary()
    }
}

impl From<LocalRefStr<'static>> for LocalStaticRefStr {
    /// Converts the lifetime-parameterized `'static` form into the dedicated wrapper.
    fn from(value: LocalRefStr<'static>) -> (r: Self)
        ensures
            r@ == value@,
            r.state() == value.state(),
    {
        Self::from_inner(value.into_inner())
    }
}

impl FromSpecImpl<LocalRefStr<'static>> for LocalStaticRefStr {
    open spec fn obeys_from_spec() -> bool {
        false
    }

    open spec fn from_spec(v: LocalRefStr<'static>) -> Self {
        arbitrary()
    }
}

} // verus!
