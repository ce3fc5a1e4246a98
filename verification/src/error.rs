//! The cloneable error value and its conversions to and from the native type.
//!
//! An [`IoError`] is exactly one of three shapes: a raw OS error code, a bare
//! kind, or a kind together with a shared handle to a cause object. The shape
//! is the value's view, and every operation's contract is stated over it.

use crate::cause::cause_description;
use crate::cause::cause_display;
use crate::cause::io_into_cause;
use crate::cause::io_new_with_cause;
use crate::cause::SharedCause;
use crate::native::code_description;
use crate::native::code_display;
use crate::native::code_kind;
use crate::native::custom_description;
use crate::native::io_cause_description;
use crate::native::io_cause_display;
use crate::native::io_description;
use crate::native::io_display;
use crate::native::io_error_description;
use crate::native::io_from_kind;
use crate::native::io_from_raw_os_error;
use crate::native::io_get_kind;
use crate::native::io_has_cause;
use crate::native::io_kind;
use crate::native::io_last_os_error;
use crate::native::io_raw_code;
use crate::native::io_raw_os_error;
use crate::native::io_to_string;
use crate::native::kind_description;
use crate::native::kind_display;
use vstd::prelude::*;

pub use std::io::ErrorKind as IoErrorKind;

verus! {

/// The three shapes an [`IoError`] can take. Exactly one holds at any time.
pub enum Shape {
    /// A platform-specific numeric error code, with no cause attached. The
    /// kind is derived from the code on demand, never cached.
    Os(i32),
    /// A bare kind, with no code and no cause.
    Kind(std::io::ErrorKind),
    /// A kind together with a shared handle to an immutable cause object.
    Custom(std::io::ErrorKind, SharedCause),
}

impl Shape {
    /// The kind this shape classifies to: stored for the last two shapes,
    /// derived from the code by the platform for the first.
    pub open spec fn kind_of(self) -> std::io::ErrorKind {
        match self {
            Shape::Os(code) => code_kind(code),
            Shape::Kind(kind) => kind,
            Shape::Custom(kind, _) => kind,
        }
    }

    /// The raw OS error code, exposed only by the code shape.
    pub open spec fn raw_code_of(self) -> Option<i32> {
        match self {
            Shape::Os(code) => Some(code),
            _ => None,
        }
    }

    /// The shared cause handle, present only in the custom shape.
    pub open spec fn cause_of(self) -> Option<SharedCause> {
        match self {
            Shape::Custom(_, cause) => Some(cause),
            _ => None,
        }
    }

    /// The display text of this shape: what the platform prints for an
    /// equivalent freshly constructed native error, or the cause's own text.
    pub open spec fn display_of(self) -> Seq<char> {
        match self {
            Shape::Os(code) => code_display(code),
            Shape::Kind(kind) => kind_display(kind),
            Shape::Custom(_, cause) => cause_display(cause),
        }
    }

    /// The description of this shape: what the platform reports for an
    /// equivalent freshly constructed native error, in every case.
    pub open spec fn description_of(self) -> Seq<char> {
        match self {
            Shape::Os(code) => code_description(code),
            Shape::Kind(kind) => kind_description(kind),
            Shape::Custom(kind, _) => custom_description(kind),
        }
    }
}

/// A cloneable version of `std::io::Error`, with the custom payload held
/// behind a shared handle instead of an owning box.
///
/// The value is immutable once constructed. Cloning is O(1) and shares the
/// cause object, as do native errors produced from clones by [`IoError::into_io`].
pub struct IoError {
    repr: Shape,
}

/// A result type with [`IoError`] as its error.
pub type IoResult<T> = Result<T, IoError>;

impl View for IoError {
    type V = Shape;

    closed spec fn view(&self) -> Shape {
        self.repr
    }
}

impl IoError {
    /// Constructs the custom shape from a kind and an already shared cause
    /// handle; the new value becomes one more owner of the cause.
    pub fn new(kind: std::io::ErrorKind, cause: SharedCause) -> (r: IoError)
        ensures
            r@ == Shape::Custom(kind, cause),
    {
        IoError { repr: Shape::Custom(kind, cause) }
    }

    /// Constructs the code shape from a raw OS error code. The code is not
    /// validated: any integer is accepted.
    pub fn from_raw_os_error(code: i32) -> (r: IoError)
        ensures
            r@ == Shape::Os(code),
    {
        IoError { repr: Shape::Os(code) }
    }

    /// Constructs the kind shape from a bare kind.
    pub fn from_kind(kind: std::io::ErrorKind) -> (r: IoError)
        ensures
            r@ == Shape::Kind(kind),
    {
        IoError { repr: Shape::Kind(kind) }
    }

    /// Reads the calling thread's most recent OS error code and wraps it as
    /// the code shape. The platform's error state is read, not cleared.
    pub fn last_os_error() -> (r: IoError)
        ensures
            r@ is Os,
    {
        let native = io_last_os_error();
        Self::from_io(native)
    }

    /// The raw OS error code, for the code shape alone; the other two shapes
    /// never expose a code.
    pub fn raw_os_error(&self) -> (r: Option<i32>)
        ensures
            r == self@.raw_code_of(),
    {
        match &self.repr {
            Shape::Os(code) => Some(*code),
            _ => None,
        }
    }

    /// A borrowed view of the shared cause handle, for the custom shape alone.
    pub fn get_ref(&self) -> (r: Option<&SharedCause>)
        ensures
            r is Some == self@.cause_of() is Some,
            (r matches Some(cause) ==> Some(*cause) == self@.cause_of()),
    {
        match &self.repr {
            Shape::Custom(_, cause) => Some(cause),
            _ => None,
        }
    }

    /// Consumes the value; for the custom shape the caller becomes one of the
    /// owners of the shared cause, for the other shapes nothing comes back.
    pub fn into_inner(self) -> (r: Option<SharedCause>)
        ensures
            r == self@.cause_of(),
    {
        match self.repr {
            Shape::Custom(_, cause) => Some(cause),
            _ => None,
        }
    }

    /// The kind this error classifies to. For the code shape the platform is
    /// asked to classify the code on every call; the result is a function of
    /// the code, so repeated calls agree.
    pub fn kind(&self) -> (r: std::io::ErrorKind)
        ensures
            r == self@.kind_of(),
    {
        match &self.repr {
            Shape::Os(code) => {
                let native = io_from_raw_os_error(*code);
                io_get_kind(&native)
            }
            Shape::Kind(kind) => *kind,
            Shape::Custom(kind, _) => *kind,
        }
    }

    /// The display text of this error: for the first two shapes, the text the
    /// platform gives an equivalent freshly constructed native error; for the
    /// custom shape, the cause's own display text.
    pub fn to_string(&self) -> (r: String)
        ensures
            r@ == self@.display_of(),
    {
        match &self.repr {
            Shape::Os(code) => {
                let native = io_from_raw_os_error(*code);
                io_to_string(&native)
            }
            Shape::Kind(kind) => {
                let native = io_from_kind(*kind);
                io_to_string(&native)
            }
            Shape::Custom(_, cause) => cause.to_string(),
        }
    }

    /// The description of this error: the description the platform gives an
    /// equivalent freshly constructed native error, for every shape, so that
    /// the value is indistinguishable from a native one here.
    pub fn description(&self) -> (r: String)
        ensures
            r@ == self@.description_of(),
    {
        match &self.repr {
            Shape::Os(code) => {
                let native = io_from_raw_os_error(*code);
                io_error_description(&native)
            }
            Shape::Kind(kind) => {
                let native = io_from_kind(*kind);
                io_error_description(&native)
            }
            Shape::Custom(kind, cause) => {
                let native = io_new_with_cause(*kind, cause);
                io_error_description(&native)
            }
        }
    }

    /// Converts a native error in. A native error exposing a raw code becomes
    /// the code shape, whatever else it carries; otherwise its kind is kept
    /// and its payload, if any, is moved — not copied — behind a shared
    /// handle with the same observable content.
    pub fn from_io(src: std::io::Error) -> (r: IoError)
        ensures
            (io_raw_code(src) matches Some(code) ==> r@ == Shape::Os(code)),
            io_raw_code(src) is None && !io_has_cause(src) ==> r@ == Shape::Kind(io_kind(src)),
            io_raw_code(src) is None && io_has_cause(src) ==> (r@ matches Shape::Custom(kind, cause)
                && kind == io_kind(src)
                && cause_display(cause) == io_cause_display(src)
                && cause_description(cause) == io_cause_description(src)),
    {
        match io_raw_os_error(&src) {
            Some(code) => IoError { repr: Shape::Os(code) },
            None => {
                let kind = io_get_kind(&src);
                match io_into_cause(src) {
                    None => IoError { repr: Shape::Kind(kind) },
                    Some(cause) => IoError { repr: Shape::Custom(kind, cause) },
                }
            }
        }
    }

    /// Converts out to a native error. The code shape rebuilds a fresh native
    /// error from the code alone — code and derived kind survive, any
    /// platform metadata beyond them is deliberately not reconstructed. The
    /// custom shape hands the native error a new handle to the same shared
    /// cause, so the native error and every clone of this value keep
    /// observing one object.
    pub fn into_io(self) -> (r: std::io::Error)
        ensures
            (self@ matches Shape::Os(code) ==> io_raw_code(r) == Some(code)
                && !io_has_cause(r)
                && io_kind(r) == code_kind(code)
                && io_display(r) == code_display(code)
                && io_description(r) == code_description(code)),
            (self@ matches Shape::Kind(kind) ==> io_raw_code(r) is None
                && !io_has_cause(r)
                && io_kind(r) == kind
                && io_display(r) == kind_display(kind)
                && io_description(r) == kind_description(kind)),
            (self@ matches Shape::Custom(kind, cause) ==> io_raw_code(r) is None
                && io_has_cause(r)
                && io_kind(r) == kind
                && io_cause_display(r) == cause_display(cause)
                && io_display(r) == cause_display(cause)
                && io_description(r) == custom_description(kind)),
    {
        match self.repr {
            Shape::Os(code) => io_from_raw_os_error(code),
            Shape::Kind(kind) => io_from_kind(kind),
            Shape::Custom(kind, cause) => io_new_with_cause(kind, &cause),
        }
    }
}

impl Clone for IoError {
    /// Cloning keeps the shape exactly; for the custom shape the clone holds
    /// a new handle to the same cause object, never a copy of it.
    fn clone(&self) -> (r: Self)
        ensures
            r@ == self@,
    {
        IoError {
            repr: match &self.repr {
                Shape::Os(code) => Shape::Os(*code),
                Shape::Kind(kind) => Shape::Kind(*kind),
                Shape::Custom(kind, cause) => Shape::Custom(*kind, cause.clone_handle()),
            },
        }
    }
}

} // verus!
