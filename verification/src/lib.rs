//! Compact borrowed-or-shared string types.
//!
//! A value stores either a borrowed `&str`, an inline short string kept in the
//! value itself, or a shared owned string backed by `Arc<str>` or `Rc<str>`.
//! `RefStr<'a>` and `StaticRefStr` share through `Arc<str>`; `LocalRefStr<'a>`
//! and `LocalStaticRefStr` through `Rc<str>`.

pub mod arch;
pub mod backend;
pub mod compact;
pub mod fmt;
pub mod local;
pub mod raw;
pub mod shared;
pub mod text;

pub use crate::backend::{LocalBackend, RefCountBackend, SharedBackend};
pub use crate::compact::RefStrCore;
pub use crate::local::{LocalRefStr, LocalStaticRefStr};
pub use crate::raw::RawParts;
pub use crate::shared::{RefStr, StaticRefStr};
