//! Lifetime tracking for non-blocking operations on opaque transport handles.
//!
//! A non-blocking operation started on the transport hands back a raw handle that must be
//! completed exactly once. The types here keep that promise checkable: every live handle is
//! owned by exactly one guard ([`WaitGuard`], [`CancelGuard`] or [`Request`]) and recorded in
//! exactly one [`Scope`]. The transport itself stays outside: the library says which action
//! the transport has to perform ([`Action`]) and takes what the transport reported back
//! ([`Completion`]) as an argument.
use vstd::prelude::*;

pub mod handle;
pub mod scope;
pub mod request;

pub use handle::{is_null, Action, Completion, RawHandle, Status, REQUEST_NULL};
pub use scope::{LocalScope, Scope, StaticScope};
pub use request::{CancelGuard, Request, WaitGuard};
