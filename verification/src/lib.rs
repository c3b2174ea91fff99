//! Bindings for C-like enumerations across the JNI boundary.
//!
//! A native enumeration is described by a [`definition::ForeignEnumInfo`].
//! Its items are numbered once, in the [`ordinal`] table, and everything that
//! is emitted reads the identifiers and the numbers from there:
//!
//! * [`java_code`] renders the source file of the foreign enumeration,
//! * [`rust_code`] renders the native conversions between variants and
//!   ordinals,
//! * [`callbacks`] renders the native conversion from a variant to the
//!   foreign constant object, which callbacks need,
//! * [`generator`] puts the steps in order and enters the enumeration into
//!   the conversion graph of [`typemap`], inside a build's [`context`].
//!
//! Nothing here touches the disk: the caller writes the foreign source file
//! and tells [`generator::generate_enum`] how that went.

pub mod callbacks;
pub mod context;
pub mod definition;
pub mod error;
pub mod generator;
pub mod java_code;
pub mod ordinal;
pub mod rust_code;
pub mod search;
pub mod text;
pub mod typemap;
