//! The shared-ownership backends of the compact string type.
use vstd::prelude::*;
use std::rc::Rc;
use std::sync::Arc;

verus! {

/// `Rc::<str>::from(&str)`: a new `Rc<str>` holding a copy of `s`.
#[verifier::external_body]
fn rc_from_str(s: &str) -> (r: Rc<str>)
    ensures
        (*r)@ == s@,
{
    Rc::from(s)
}

/// `Rc::<str>::from(String)`: a new `Rc<str>` holding the string's contents.
#[verifier::external_body]
fn rc_from_string(s: String) -> (r: Rc<str>)
    ensures
        (*r)@ == s@,
{
    Rc::from(s)
}

/// `Rc::<str>::from(Box<str>)`: a new `Rc<str>` holding the boxed string's contents.
#[verifier::external_body]
fn rc_from_boxed_str(s: Box<str>) -> (r: Rc<str>)
    ensures
        (*r)@ == s@,
{
    Rc::from(s)
}

/// `Arc::<str>::from(&str)`: a new `Arc<str>` holding a copy of `s`.
#[verifier::external_body]
fn arc_from_str(s: &str) -> (r: Arc<str>)
    ensures
        (*r)@ == s@,
{
    Arc::from(s)
}

/// `Arc::<str>::from(String)`: a new `Arc<str>` holding the string's contents.
#[verifier::external_body]
fn arc_from_string(s: String) -> (r: Arc<str>)
    ensures
        (*r)@ == s@,
{
    Arc::from(s)
}

/// `Arc::<str>::from(Box<str>)`: a new `Arc<str>` holding the boxed string's contents.
#[verifier::external_body]
fn arc_from_boxed_str(s: Box<str>) -> (r: Arc<str>)
    ensures
        (*r)@ == s@,
{
    Arc::from(s)
}

/// Backend behavior for the shared ownership arm of the compact string type.
///
/// The compact representation delegates every backend-specific operation to
/// this trait, so the same string machinery works with `Rc<str>` and `Arc<str>`.
pub trait RefCountBackend {
    /// The shared string handle of this backend.
    type Shared;

    /// The string that a shared handle refers to.
    spec fn spec_shared_view(s: &Self::Shared) -> Seq<char>;

    /// Borrow the string that a shared handle refers to.
    fn shared_as_str(s: &Self::Shared) -> (r: &str)
        ensures
            r@ == Self::spec_shared_view(s),
    ;

    /// Take one more handle on the same shared string.
    fn clone_shared(s: &Self::Shared) -> (r: Self::Shared)
        ensures
            Self::spec_shared_view(&r) == Self::spec_shared_view(s),
    ;

    /// Build a shared handle from a `&str`.
    fn from_str(s: &str) -> (r: Self::Shared)
        ensures
            Self::spec_shared_view(&r) == s@,
    ;

    /// Build a shared handle from a `String`.
    fn from_string(s: String) -> (r: Self::Shared)
        ensures
            Self::spec_shared_view(&r) == s@,
    ;

    /// Build a shared handle from a `Box<str>`.
    fn from_boxed_str(s: Box<str>) -> (r: Self::Shared)
        ensures
            Self::spec_shared_view(&r) == s@,
    ;
}

/// `Rc<str>` backend.
pub struct LocalBackend;

impl RefCountBackend for LocalBackend {
    type Shared = Rc<str>;

    open spec fn spec_shared_view(s: &Rc<str>) -> Seq<char> {
        (**s)@
    }

    fn shared_as_str(s: &Rc<str>) -> (r: &str) {
        &**s
    }

    fn clone_shared(s: &Rc<str>) -> (r: Rc<str>) {
        s.clone()
    }

    fn from_str(s: &str) -> (r: Rc<str>) {
        rc_from_str(s)
    }

    fn from_string(s: String) -> (r: Rc<str>) {
        rc_from_string(s)
    }

    fn from_boxed_str(s: Box<str>) -> (r: Rc<str>) {
        rc_from_boxed_str(s)
    }
}

/// `Arc<str>` backend.
pub struct SharedBackend;

impl RefCountBackend for SharedBackend {
    type Shared = Arc<str>;

    open spec fn spec_shared_view(s: &Arc<str>) -> Seq<char> {
        (**s)@
    }

    fn shared_as_str(s: &Arc<str>) -> (r: &str) {
        &**s
    }

    fn clone_shared(s: &Arc<str>) -> (r: Arc<str>) {
        s.clone()
    }

    fn from_str(s: &str) -> (r: Arc<str>) {
        arc_from_str(s)
    }

    fn from_string(s: String) -> (r: Arc<str>) {
        arc_from_string(s)
    }

    fn from_boxed_str(s: Box<str>) -> (r: Arc<str>) {
        arc_from_boxed_str(s)
    }
}

} // verus!
