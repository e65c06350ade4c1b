//! Standard trait implementations of the compact representation.
use vstd::prelude::*;
use vstd::string::StringSliceAdditionalSpecFns;
use vstd::std_specs::cmp::{PartialEqSpec, PartialEqSpecImpl, PartialOrdSpec};
use vstd::std_specs::cmp::PartialOrdSpecImpl;
use vstd::std_specs::convert::FromSpecImpl;
use vstd::utf8::encode_utf8;
use core::cmp::Ordering;
use std::borrow::Cow;
use std::hash::{Hash, Hasher};
use std::rc::Rc;
use std::sync::Arc;

use crate::arch::layout::{INLINE_CAPACITY, MAX_BORROWED_OR_SHARED_LEN};
use crate::arch::StateTag;
use crate::backend::{LocalBackend, RefCountBackend, SharedBackend};
use crate::compact::RefStrCore;
use crate::text::{str_view, hash_str, str_eq};
use crate::compact::order::{lex_order_of, str_order};

verus! {

impl<'a, B: RefCountBackend> PartialEq for RefStrCore<'a, B> {
    fn eq(&self, other: &Self) -> (r: bool)
        ensures
            r == (self@ == other@),
    {
        self.eq_core(other)
    }
}

impl<'a, B: RefCountBackend> PartialEqSpecImpl for RefStrCore<'a, B> {
    open spec fn obeys_eq_spec() -> bool {
        true
    }

    open spec fn eq_spec(&self, other: &Self) -> bool {
        self@ == other@
    }
}

impl<'a, B: RefCountBackend> Eq for RefStrCore<'a, B> {
}

impl<'a, B: RefCountBackend> PartialOrd for RefStrCore<'a, B> {
    fn partial_cmp(&self, other: &Self) -> (r: Option<Ordering>)
        ensures
            r == Some(lex_order_of(encode_utf8(self@), encode_utf8(other@))),
    {
        Some(str_order(self.as_str(), other.as_str()))
    }
}

impl<'a, B: RefCountBackend> PartialOrdSpecImpl for RefStrCore<'a, B> {
    open spec fn obeys_partial_cmp_spec() -> bool {
        true
    }

    open spec fn partial_cmp_spec(&self, other: &Self) -> Option<Ordering> {
        Some(lex_order_of(encode_utf8(self@), encode_utf8(other@)))
    }
}

impl<'a, B: RefCountBackend> Clone for RefStrCore<'a, B> {
    fn clone(&self) -> (r: Self)
        ensures
            r@ == self@,
            r.state() == self.state(),
    {
        self.clone_core()
    }
}

impl<'a, B: RefCountBackend> Default for RefStrCore<'a, B> {
    fn default() -> (r: Self)
        ensures
            r@ == Seq::<char>::empty(),
            r.state() == StateTag::Borrowed,
    {
        proof {
            reveal_strlit("");
        }
        Self::from_str("")
    }
}

impl<'a, B: RefCountBackend> From<&'a str> for RefStrCore<'a, B> {
    fn from(value: &'a str) -> (r: Self)
        ensures
            value.spec_bytes().len() <= MAX_BORROWED_OR_SHARED_LEN ==> r@ == value@ && r.state()
                == StateTag::Borrowed,
            value.spec_bytes().len() > MAX_BORROWED_OR_SHARED_LEN ==> r@ == Seq::<char>::empty()
                && r.state() == StateTag::Borrowed,
    {
        if value.as_bytes().len() <= MAX_BORROWED_OR_SHARED_LEN {
            Self::new(value)
        } else {
            Self::default()
        }
    }
}

impl<'a, B: RefCountBackend> FromSpecImpl<&'a str> for RefStrCore<'a, B> {
    open spec fn obeys_from_spec() -> bool {
        false
    }

    open spec fn from_spec(v: &'a str) -> Self {
        arbitrary()
    }
}

impl<'a, B: RefCountBackend> From<String> for RefStrCore<'a, B> {
    fn from(value: String) -> (r: Self)
        ensures
            encode_utf8(value@).len() <= MAX_BORROWED_OR_SHARED_LEN ==> r@ == value@ && r.state()
                == if encode_utf8(value@).len() <= INLINE_CAPACITY {
                StateTag::Inline
            } else {
                StateTag::Shared
            },
            encode_utf8(value@).len() > MAX_BORROWED_OR_SHARED_LEN ==> r@ == Seq::<char>::empty()
                && r.state() == StateTag::Borrowed,
    {
        if value.as_str().as_bytes().len() <= MAX_BORROWED_OR_SHARED_LEN {
            Self::from_owned_string(value)
        } else {
            Self::default()
        }
    }
}

impl<'a, B: RefCountBackend> FromSpecImpl<String> for RefStrCore<'a, B> {
    open spec fn obeys_from_spec() -> bool {
        false
    }

    open spec fn from_spec(v: String) -> Self {
        arbitrary()
    }
}

impl<'a, B: RefCountBackend> From<Box<str>> for RefStrCore<'a, B> {
    fn from(value: Box<str>) -> (r: Self)
        ensures
            encode_utf8(value@).len() <= MAX_BORROWED_OR_SHARED_LEN ==> r@ == value@ && r.state()
                == if encode_utf8(value@).len() <= INLINE_CAPACITY {
                StateTag::Inline
            } else {
                StateTag::Shared
            },
            encode_utf8(value@).len() > MAX_BORROWED_OR_SHARED_LEN ==> r@ == Seq::<char>::empty()
                && r.state() == StateTag::Borrowed,
    {
        if (&*value).as_bytes().len() <= MAX_BORROWED_OR_SHARED_LEN {
            Self::from_owned_boxed_str(value)
        } else {
            Self::default()
        }
    }
}

impl<'a, B: RefCountBackend> FromSpecImpl<Box<str>> for RefStrCore<'a, B> {
    open spec fn obeys_from_spec() -> bool {
        false
    }

    open spec fn from_spec(v: Box<str>) -> Self {
        arbitrary()
    }
}

impl<'a, B: RefCountBackend> From<&'a String> for RefStrCore<'a, B> {
    fn from(value: &'a String) -> (r: Self)
        ensures
            encode_utf8(value@).len() <= MAX_BORROWED_OR_SHARED_LEN ==> r@ == value@ && r.state()
                == StateTag::Borrowed,
            encode_utf8(value@).len() > MAX_BORROWED_OR_SHARED_LEN ==> r@ == Seq::<char>::empty()
                && r.state() == StateTag::Borrowed,
    {
        Self::from(value.as_str())
    }
}

impl<'a, B: RefCountBackend> FromSpecImpl<&'a String> for RefStrCore<'a, B> {
    open spec fn obeys_from_spec() -> bool {
        false
    }

    open spec fn from_spec(v: &'a String) -> Self {
        arbitrary()
    }
}

impl<'a> From<Rc<str>> for RefStrCore<'a, LocalBackend> {
    fn from(value: Rc<str>) -> (r: Self)
        ensures
            encode_utf8((*value)@).len() <= MAX_BORROWED_OR_SHARED_LEN ==> r@ == (*value)@
                && r.state() == StateTag::Shared,
            encode_utf8((*value)@).len() > MAX_BORROWED_OR_SHARED_LEN ==> r@ == Seq::<char>::empty()
                && r.state() == StateTag::Borrowed,
    {
        Self::from_shared_checked(value)
    }
}

impl<'a> FromSpecImpl<Rc<str>> for RefStrCore<'a, LocalBackend> {
    open spec fn obeys_from_spec() -> bool {
        false
    }

    open spec fn from_spec(v: Rc<str>) -> Self {
        arbitrary()
    }
}

impl<'a> From<Arc<str>> for RefStrCore<'a, SharedBackend> {
    fn from(value: Arc<str>) -> (r: Self)
        ensures
            encode_utf8((*value)@).len() <= MAX_BORROWED_OR_SHARED_LEN ==> r@ == (*value)@
                && r.state() == StateTag::Shared,
            encode_utf8((*value)@).len() > MAX_BORROWED_OR_SHARED_LEN ==> r@ == Seq::<char>::empty()
                && r.state() == StateTag::Borrowed,
    {
        Self::from_shared_checked(value)
    }
}

impl<'a> FromSpecImpl<Arc<str>> for RefStrCore<'a, SharedBackend> {
    open spec fn obeys_from_spec() -> bool {
        false
    }

    open spec fn from_spec(v: Arc<str>) -> Self {
        arbitrary()
    }
}

impl<'a> From<RefStrCore<'a, LocalBackend>> for RefStrCore<'a, SharedBackend> {
    fn from(value: RefStrCore<'a, LocalBackend>) -> (r: Self)
        ensures
            r@ == value@,
            r.state() == value.state(),
    {
        value.into_backend()
    }
}

impl<'a> FromSpecImpl<RefStrCore<'a, LocalBackend>> for RefStrCore<'a, SharedBackend> {
    open spec fn obeys_from_spec() -> bool {
        false
    }

    open spec fn from_spec(v: RefStrCore<'a, LocalBackend>) -> Self {
        arbitrary()
    }
}

impl<'a> From<RefStrCore<'a, SharedBackend>> for RefStrCore<'a, LocalBackend> {
    fn from(value: RefStrCore<'a, SharedBackend>) -> (r: Self)
        ensures
            r@ == value@,
            r.state() == value.state(),
    {
        value.into_backend()
    }
}

impl<'a> FromSpecImpl<RefStrCore<'a, SharedBackend>> for RefStrCore<'a, LocalBackend> {
    open spec fn obeys_from_spec() -> bool {
        false
    }

    open spec fn from_spec(v: RefStrCore<'a, SharedBackend>) -> Self {
        arbitrary()
    }
}

impl<'a, B: RefCountBackend> From<RefStrCore<'a, B>> for Cow<'a, str> {
    fn from(value: RefStrCore<'a, B>) -> (r: Self)
        ensures
            r@ == value@,
            r is Borrowed <==> value.state() == StateTag::Borrowed,
    {
        value.into_cow()
    }
}

impl<'a, B: RefCountBackend> FromSpecImpl<RefStrCore<'a, B>> for Cow<'a, str> {
    open spec fn obeys_from_spec() -> bool {
        false
    }

    open spec fn from_spec(v: RefStrCore<'a, B>) -> Self {
        arbitrary()
    }
}

impl<'a, B: RefCountBackend> From<Cow<'a, str>> for RefStrCore<'a, B> {
    fn from(value: Cow<'a, str>) -> (r: Self)
        ensures
            encode_utf8(value@).len() <= MAX_BORROWED_OR_SHARED_LEN ==> r@ == value@ && r.state()
                == match value {
                Cow::Borrowed(_) => StateTag::Borrowed,
                Cow::Owned(_) => if encode_utf8(value@).len() <= INLINE_CAPACITY {
                    StateTag::Inline
                } else {
                    StateTag::Shared
                },
            },
            encode_utf8(value@).len() > MAX_BORROWED_OR_SHARED_LEN ==> r@ == Seq::<char>::empty()
                && r.state() == StateTag::Borrowed,
    {
        match value {
            Cow::Borrowed(s) => Self::from(s),
            Cow::Owned(s) => Self::from(s),
        }
    }
}

impl<'a, B: RefCountBackend> FromSpecImpl<Cow<'a, str>> for RefStrCore<'a, B> {
    open spec fn obeys_from_spec() -> bool {
        false
    }

    open spec fn from_spec(v: Cow<'a, str>) -> Self {
        arbitrary()
    }
}

impl<'a, B: RefCountBackend> PartialEq<&str> for RefStrCore<'a, B> {
    fn eq(&self, other: &&str) -> (r: bool)
        ensures
            r == (self@ == other@),
    {
        str_eq(self.as_str(), *other)
    }
}

impl<'a, B: RefCountBackend> PartialEqSpecImpl<&str> for RefStrCore<'a, B> {
    open spec fn obeys_eq_spec() -> bool {
        true
    }

    open spec fn eq_spec(&self, other: &&str) -> bool {
        self@ == other@
    }
}

impl<'a, B: RefCountBackend> PartialEq<String> for RefStrCore<'a, B> {
    fn eq(&self, other: &String) -> (r: bool)
        ensures
            r == (self@ == other@),
    {
        str_eq(self.as_str(), other.as_str())
    }
}

impl<'a, B: RefCountBackend> PartialEqSpecImpl<String> for RefStrCore<'a, B> {
    open spec fn obeys_eq_spec() -> bool {
        true
    }

    open spec fn eq_spec(&self, other: &String) -> bool {
        self@ == other@
    }
}

impl<'a, B: RefCountBackend> Hash for RefStrCore<'a, B> {
    /// Hashes the string contents, as `str` hashes them.
    fn hash<H: Hasher>(&self, state: &mut H) {
        hash_str(self.as_str(), state)
    }
}

impl<'a, B: RefCountBackend> AsRef<str> for RefStrCore<'a, B> {
    fn as_ref(&self) -> (r: &str)
        ensures
            r@ == self@,
    {
        self.as_str()
    }
}

impl<'a, B: RefCountBackend> std::borrow::Borrow<str> for RefStrCore<'a, B> {
    fn borrow(&self) -> (r: &str)
        ensures
            str_view(r) == self@,
    {
        self.as_str()
    }
}

impl<'a, B: RefCountBackend> std::ops::Deref for RefStrCore<'a, B> {
    type Target = str;

    fn deref(&self) -> (r: &str)
        ensures
            r@ == self@,
    {
        self.as_str()
    }
}

/// Law: `partial_cmp` orders two values by the bytes of the left operand
/// against those of the right one.
pub proof fn law_core_partial_cmp<'a, B: RefCountBackend>(a: &RefStrCore<'a, B>, b: &RefStrCore<'a, B>)
    ensures
        PartialOrdSpec::partial_cmp_spec(a, b) == Some(lex_order_of(encode_utf8(a@), encode_utf8(b@))),
{
}

/// Law: `==` between two values holds exactly when the contents are equal.
pub proof fn law_core_eq_contents<'a, B: RefCountBackend>(a: &RefStrCore<'a, B>, b: &RefStrCore<'a, B>)
    ensures
        <RefStrCore<'a, B> as PartialEqSpec>::eq_spec(a, b) == (a@ == b@),
{
}

/// Law: `==` against a `&str` holds exactly when the contents are equal.
pub proof fn law_core_eq_str_contents<'a, B: RefCountBackend>(a: &RefStrCore<'a, B>, b: &&str)
    ensures
        <RefStrCore<'a, B> as PartialEqSpec<&str>>::eq_spec(a, b) == (a@ == (*b)@),
{
}

/// Law: `==` against a `String` holds exactly when the contents are equal.
pub proof fn law_core_eq_string_contents<'a, B: RefCountBackend>(a: &RefStrCore<'a, B>, b: &String)
    ensures
        <RefStrCore<'a, B> as PartialEqSpec<String>>::eq_spec(a, b) == (a@ == b@),
{
}

} // verus!
