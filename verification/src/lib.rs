//! A cloneable variant of the platform I/O error type.
//!
//! `std::io::Error` owns its optional custom payload exclusively, which makes
//! it impossible to clone. This crate offers [`IoError`], the same three-shape
//! error value with the payload held behind `Arc`, so that clones are cheap
//! and share one underlying cause object. Conversion to and from the native
//! type is lossless up to the documented contract: classification, code (where
//! present) and the textual descriptions survive the round trip.

pub mod cause;
pub mod error;
pub mod laws;
pub mod native;

pub use cause::SharedCause;
pub use error::IoError;
pub use error::IoErrorKind;
pub use error::IoResult;
