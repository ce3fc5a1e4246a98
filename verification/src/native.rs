//! The trusted view of the platform error type, `std::io::Error`.
//!
//! The native type is opaque to the verifier. What the logic reads of a native
//! error — its raw code, its kind, its display text, its description, and
//! whether it carries a custom payload — is modelled by uninterpreted
//! functions of the error value, and each function of `std::io::Error` that
//! this crate calls is wrapped once here with a contract stating what the
//! standard library documents of it.
//!
//! The platform derives the kind, the display text and the description of a
//! code-constructed error from the code alone, and those of a kind-constructed
//! error from the kind alone; the functions `code_*` and `kind_*` name those
//! derived values, which is what makes the round-trip contracts provable.

use vstd::prelude::*;

verus! {

#[verifier::external_type_specification]
#[verifier::external_body]
pub struct ExIoError(std::io::Error);

#[verifier::external_type_specification]
#[verifier::external_body]
pub struct ExIoErrorKind(std::io::ErrorKind);

/// What `std::io::Error::raw_os_error` returns for a native error.
pub uninterp spec fn io_raw_code(e: std::io::Error) -> Option<i32>;

/// What `std::io::Error::kind` returns for a native error.
pub uninterp spec fn io_kind(e: std::io::Error) -> std::io::ErrorKind;

/// The display text of a native error.
pub uninterp spec fn io_display(e: std::io::Error) -> Seq<char>;

/// The description of a native error.
pub uninterp spec fn io_description(e: std::io::Error) -> Seq<char>;

/// Whether a native error carries a custom payload, i.e. whether
/// `std::io::Error::into_inner` returns `Some`.
pub uninterp spec fn io_has_cause(e: std::io::Error) -> bool;

/// The display text of the custom payload of a native error that has one.
pub uninterp spec fn io_cause_display(e: std::io::Error) -> Seq<char>;

/// The description of the custom payload of a native error that has one.
pub uninterp spec fn io_cause_description(e: std::io::Error) -> Seq<char>;

/// The kind the platform assigns to a raw OS error code.
pub uninterp spec fn code_kind(code: i32) -> std::io::ErrorKind;

/// The display text of a native error built from a raw OS error code.
pub uninterp spec fn code_display(code: i32) -> Seq<char>;

/// The description of a native error built from a raw OS error code.
pub uninterp spec fn code_description(code: i32) -> Seq<char>;

/// The display text of a native error built from a bare kind.
pub uninterp spec fn kind_display(kind: std::io::ErrorKind) -> Seq<char>;

/// The description of a native error built from a bare kind.
pub uninterp spec fn kind_description(kind: std::io::ErrorKind) -> Seq<char>;

/// The description of a native error built from a kind and a custom payload.
/// The platform derives it from the kind at most: the deprecated description
/// accessor of the payload is not consulted.
pub uninterp spec fn custom_description(kind: std::io::ErrorKind) -> Seq<char>;

/// Relies on `std::io::Error::from_raw_os_error`: the result reports exactly
/// the given code, no payload, and a kind, display text and description that
/// the platform derives from the code alone.
#[verifier::external_body]
pub fn io_from_raw_os_error(code: i32) -> (r: std::io::Error)
    ensures
        io_raw_code(r) == Some(code),
        !io_has_cause(r),
        io_kind(r) == code_kind(code),
        io_display(r) == code_display(code),
        io_description(r) == code_description(code),
{
    std::io::Error::from_raw_os_error(code)
}

/// Relies on `<std::io::Error as From<std::io::ErrorKind>>::from`: the result
/// reports the given kind, no raw code, no payload, and a display text and
/// description derived from the kind alone.
#[verifier::external_body]
pub fn io_from_kind(kind: std::io::ErrorKind) -> (r: std::io::Error)
    ensures
        io_raw_code(r) is None,
        !io_has_cause(r),
        io_kind(r) == kind,
        io_display(r) == kind_display(kind),
        io_description(r) == kind_description(kind),
{
    std::io::Error::from(kind)
}

/// Relies on `std::io::Error::last_os_error`: the result always reports a raw
/// OS error code and no payload. Which code comes back depends on the calling
/// thread's state, so nothing more is stated of it.
#[verifier::external_body]
pub fn io_last_os_error() -> (r: std::io::Error)
    ensures
        io_raw_code(r) is Some,
        !io_has_cause(r),
{
    std::io::Error::last_os_error()
}

/// Relies on `std::io::Error::raw_os_error`: a pure read of the error value.
#[verifier::external_body]
pub fn io_raw_os_error(e: &std::io::Error) -> (r: Option<i32>)
    ensures
        r == io_raw_code(*e),
{
    e.raw_os_error()
}

/// Relies on `std::io::Error::kind`: a pure read of the error value.
#[verifier::external_body]
pub fn io_get_kind(e: &std::io::Error) -> (r: std::io::ErrorKind)
    ensures
        r == io_kind(*e),
{
    e.kind()
}

/// Relies on `std::fmt::Display` of `std::io::Error`: a pure read of the
/// error value.
#[verifier::external_body]
pub fn io_to_string(e: &std::io::Error) -> (r: String)
    ensures
        r@ == io_display(*e),
{
    e.to_string()
}

/// Relies on `std::error::Error::description` of `std::io::Error`: a pure
/// read of the error value.
#[verifier::external_body]
#[allow(deprecated)]
pub fn io_error_description(e: &std::io::Error) -> (r: String)
    ensures
        r@ == io_description(*e),
{
    std::error::Error::description(e).to_string()
}

} // verus!
