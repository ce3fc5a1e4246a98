//! The laws of the conversion contract, stated and proved once for all
//! values.
//!
//! Each lemma's hypotheses are exactly what the contracts of the functions it
//! chains together ensure of their results, so exec code that makes those
//! calls satisfies them directly; the conclusions are the round-trip and
//! sharing guarantees of the crate.

use crate::cause::cause_display;
use crate::cause::SharedCause;
use crate::error::IoError;
use crate::error::Shape;
use crate::native::code_description;
use crate::native::code_display;
use crate::native::code_kind;
use crate::native::custom_description;
use crate::native::io_cause_display;
use crate::native::io_description;
use crate::native::io_display;
use crate::native::io_has_cause;
use crate::native::io_kind;
use crate::native::io_raw_code;
use crate::native::kind_description;
use crate::native::kind_display;
use vstd::prelude::*;

verus! {

/// Round trip of a raw-code error: for any code, a native error freshly
/// constructed from it, converted to the shared form and back, yields a
/// native error with the same description, display text and kind as the
/// original; the shared form reports the code itself and no cause.
///
/// `src` is what the native raw-code constructor returns, `mid` what
/// `IoError::from_io(src)` returns, and `back` what `mid.into_io()` returns,
/// each characterized by that function's contract.
pub proof fn lemma_round_trip_os(code: i32, src: std::io::Error, mid: IoError, back: std::io::Error)
    requires
        io_raw_code(src) == Some(code),
        io_kind(src) == code_kind(code),
        io_display(src) == code_display(code),
        io_description(src) == code_description(code),
        mid@ == Shape::Os(code),
        io_raw_code(back) == Some(code),
        io_kind(back) == code_kind(code),
        io_display(back) == code_display(code),
        io_description(back) == code_description(code),
    ensures
        io_description(back) == io_description(src),
        io_display(back) == io_display(src),
        io_kind(back) == io_kind(src),
        io_raw_code(back) == io_raw_code(src),
        mid@.raw_code_of() == Some(code),
        mid@.cause_of() is None,
{
}

/// Round trip of a bare-kind error: for any kind, a native error freshly
/// constructed from it, converted to the shared form and back, yields a
/// native error with the same description, display text and kind as the
/// original; the shared form exposes neither a code nor a cause.
///
/// The parameters are characterized as in `lemma_round_trip_os`.
pub proof fn lemma_round_trip_kind(
    kind: std::io::ErrorKind,
    src: std::io::Error,
    mid: IoError,
    back: std::io::Error,
)
    requires
        io_raw_code(src) is None,
        !io_has_cause(src),
        io_kind(src) == kind,
        io_display(src) == kind_display(kind),
        io_description(src) == kind_description(kind),
        mid@ == Shape::Kind(io_kind(src)),
        io_raw_code(back) is None,
        io_kind(back) == kind,
        io_display(back) == kind_display(kind),
        io_description(back) == kind_description(kind),
    ensures
        io_description(back) == io_description(src),
        io_display(back) == io_display(src),
        io_kind(back) == io_kind(src),
        io_raw_code(back) == io_raw_code(src),
        mid@.raw_code_of() is None,
        mid@.cause_of() is None,
{
}

/// Round trip of a custom error: for any kind and cause, a native error built
/// from them, converted to the shared form and back, yields a native error
/// with exactly the original's description and display text and the same
/// kind; the shared form exposes no code, and the cause it surrenders has the
/// original cause's display text.
///
/// `src` is what the native constructor returns when handed the cause,
/// `(kind2, cause2)` are the components of the custom shape that
/// `IoError::from_io(src)` returns, and `back` is what converting that value
/// out returns, each characterized by that function's contract.
pub proof fn lemma_round_trip_custom(
    kind: std::io::ErrorKind,
    cause: SharedCause,
    src: std::io::Error,
    kind2: std::io::ErrorKind,
    cause2: SharedCause,
    back: std::io::Error,
)
    requires
        io_raw_code(src) is None,
        io_has_cause(src),
        io_kind(src) == kind,
        io_cause_display(src) == cause_display(cause),
        io_display(src) == cause_display(cause),
        io_description(src) == custom_description(kind),
        kind2 == io_kind(src),
        cause_display(cause2) == io_cause_display(src),
        io_raw_code(back) is None,
        io_has_cause(back),
        io_kind(back) == kind2,
        io_display(back) == cause_display(cause2),
        io_description(back) == custom_description(kind2),
        io_cause_display(back) == cause_display(cause2),
    ensures
        io_description(back) == io_description(src),
        io_display(back) == io_display(src),
        io_kind(back) == kind,
        io_raw_code(back) == io_raw_code(src),
        Shape::Custom(kind2, cause2).raw_code_of() is None,
        Shape::Custom(kind2, cause2).cause_of() == Some(cause2),
        cause_display(cause2) == cause_display(cause),
{
}

/// Sharing invariant: take a shared-form value with a cause, clone it,
/// convert the clone to native form, and wrap that native error back into the
/// shared form. The cause the original surrenders and the cause recovered
/// from the native error have identical display text — no step copies or
/// replaces the cause object the display text comes from.
///
/// `v2` is what `v.clone()` returns, `n` what `v2.into_io()` returns and `c3`
/// the cause of the custom shape `IoError::from_io(n)` returns, each
/// characterized by that function's contract.
pub proof fn lemma_sharing(
    kind: std::io::ErrorKind,
    cause: SharedCause,
    v: IoError,
    v2: IoError,
    n: std::io::Error,
    c3: SharedCause,
)
    requires
        v@ == Shape::Custom(kind, cause),
        v2@ == v@,
        io_raw_code(n) is None,
        io_has_cause(n),
        io_cause_display(n) == cause_display(cause),
        cause_display(c3) == io_cause_display(n),
    ensures
        v@.cause_of() == Some(cause),
        cause_display(c3) == cause_display(cause),
{
}

/// Shape discrimination: a value of the code shape reports exactly its code
/// and surrenders no cause, whatever kind the platform classifies the code
/// to.
pub proof fn lemma_raw_code_shape(code: i32, e: IoError)
    requires
        e@ == Shape::Os(code),
    ensures
        e@.raw_code_of() == Some(code),
        e@.cause_of() is None,
{
}

/// Idempotent classification: the kind reported by `IoError::kind` is a
/// function of the value alone, so any two calls on the same value return
/// equal kinds.
pub proof fn lemma_kind_idempotent(e: IoError, k1: std::io::ErrorKind, k2: std::io::ErrorKind)
    requires
        k1 == e@.kind_of(),
        k2 == e@.kind_of(),
    ensures
        k1 == k2,
{
}

} // verus!
