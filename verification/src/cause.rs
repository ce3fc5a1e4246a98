//! A shared, immutable handle to a caller-supplied cause object.
//!
//! A cause is an opaque error value: all this crate ever asks of it is its
//! description and its display text. Both are pure functions of the object,
//! which is never mutated once it sits behind the handle, so they are modelled
//! by the uninterpreted functions [`cause_description`] and [`cause_display`].

use crate::native::custom_description;
use crate::native::io_cause_description;
use crate::native::io_cause_display;
use crate::native::io_description;
use crate::native::io_display;
use crate::native::io_has_cause;
use crate::native::io_kind;
use crate::native::io_raw_code;
use vstd::prelude::*;

verus! {

/// A reference-counted handle to an immutable, dynamically typed error value.
///
/// Cloning the handle is O(1) and shares the underlying object; the object is
/// freed when the last handle is dropped. The handle never mutates the object,
/// so every copy observes the same description and display text forever.
#[verifier::external_body]
pub struct SharedCause {
    handle: std::sync::Arc<dyn std::error::Error + Send + Sync + 'static>,
}

/// The description of the cause object behind a handle.
pub uninterp spec fn cause_description(c: SharedCause) -> Seq<char>;

/// The display text of the cause object behind a handle.
pub uninterp spec fn cause_display(c: SharedCause) -> Seq<char>;

impl SharedCause {
    /// Relies on `Arc::clone`: the new handle refers to the very same
    /// immutable object, so the two handles are indistinguishable.
    #[verifier::external_body]
    pub fn clone_handle(&self) -> (r: SharedCause)
        ensures
            r == *self,
    {
        SharedCause { handle: std::sync::Arc::clone(&self.handle) }
    }

    /// Relies on `std::error::Error::description`, dispatched to the shared
    /// object itself: a pure read of the immutable cause.
    #[verifier::external_body]
    #[allow(deprecated)]
    pub fn description(&self) -> (r: String)
        ensures
            r@ == cause_description(*self),
    {
        std::error::Error::description(&*self.handle).to_string()
    }

    /// Relies on `std::fmt::Display` of the shared object, a pure read of the
    /// immutable cause.
    #[verifier::external_body]
    pub fn to_string(&self) -> (r: String)
        ensures
            r@ == cause_display(*self),
    {
        self.handle.to_string()
    }
}

impl Clone for SharedCause {
    fn clone(&self) -> (r: Self)
        ensures
            r == *self,
    {
        self.clone_handle()
    }
}

/// Relies on `std::io::Error::into_inner`: it returns the custom payload
/// exactly when the error was built with one. The returned box delegates its
/// display text and description to the payload, and so does the shared handle
/// built from it, so the handle's observable content equals the payload's.
#[verifier::external_body]
pub fn io_into_cause(e: std::io::Error) -> (r: Option<SharedCause>)
    ensures
        r is Some <==> io_has_cause(e),
        (r matches Some(c) ==> cause_display(c) == io_cause_display(e)
            && cause_description(c) == io_cause_description(e)),
{
    match e.into_inner() {
        None => None,
        Some(inner) => Some(SharedCause { handle: std::sync::Arc::from(inner) }),
    }
}

/// Relies on `std::io::Error::new`: the result reports the given kind, no raw
/// code, and the handed payload, to which the native error delegates its
/// display text. The payload handed over is a new handle to the same shared
/// object, and display formatting passes through the handle to it, so the
/// native error and everything later recovered from it show the cause's
/// display text. The native description does not consult the payload.
#[verifier::external_body]
pub fn io_new_with_cause(kind: std::io::ErrorKind, cause: &SharedCause) -> (r: std::io::Error)
    ensures
        io_raw_code(r) is None,
        io_kind(r) == kind,
        io_has_cause(r),
        io_cause_display(r) == cause_display(*cause),
        io_display(r) == cause_display(*cause),
        io_description(r) == custom_description(kind),
{
    std::io::Error::new(kind, std::sync::Arc::clone(&cause.handle))
}

} // verus!
