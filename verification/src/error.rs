//! Diagnostics that stop the generation of one enumeration's bindings.

use vstd::prelude::*;
use crate::definition::SourceLocation;
use crate::text::{push_signed_decimal, signed_decimal};

verus! {

/// Why generation stopped.
#[derive(Clone, Copy, Debug, PartialEq, Eq, Structural)]
pub enum DiagnosticKind {
    /// The enumeration has more items than the 32-bit intermediate type can
    /// number.
    TooManyItems,
    /// The foreign source file could not be written.
    WriteFailed,
    /// A foreign type of the same name is registered already.
    ForeignTypeConflict,
}

/// A build-time diagnostic, reported at the enumeration's place in the
/// sources.
#[derive(Debug, PartialEq, Eq)]
pub struct DiagnosticError {
    pub kind: DiagnosticKind,
    pub location: SourceLocation,
    pub message: String,
}

/// The mathematical view of [`DiagnosticError`], which the contracts speak of.
pub struct DiagnosticErrorView {
    pub kind: DiagnosticKind,
    pub location: SourceLocation,
    pub message: Seq<char>,
}

impl View for DiagnosticError {
    type V = DiagnosticErrorView;

    open spec fn view(&self) -> DiagnosticErrorView {
        DiagnosticErrorView { kind: self.kind, location: self.location, message: self.message@ }
    }
}

/// The diagnostic for an enumeration with too many items.
pub open spec fn too_many_items(location: SourceLocation) -> DiagnosticErrorView {
    DiagnosticErrorView {
        kind: DiagnosticKind::TooManyItems,
        location,
        message: "Too many items in enum"@,
    }
}

/// The diagnostic for a foreign source file that could not be written: the
/// writer's own words, with the file's path before them.
pub open spec fn write_failed(
    location: SourceLocation,
    path: Seq<char>,
    reason: Seq<char>,
) -> DiagnosticErrorView {
    DiagnosticErrorView {
        kind: DiagnosticKind::WriteFailed,
        location,
        message: "write to "@ + path + " failed: "@ + reason,
    }
}

/// The diagnostic for a foreign type name that is taken.
pub open spec fn foreign_type_conflict(
    location: SourceLocation,
    name: Seq<char>,
) -> DiagnosticErrorView {
    DiagnosticErrorView {
        kind: DiagnosticKind::ForeignTypeConflict,
        location,
        message: "foreign type "@ + name + " is already defined"@,
    }
}

impl DiagnosticError {
    /// Builds [`too_many_items`].
    pub fn too_many_items(location: SourceLocation) -> (e: DiagnosticError)
        ensures
            e@ == too_many_items(location),
    {
        DiagnosticError {
            kind: DiagnosticKind::TooManyItems,
            location,
            message: "Too many items in enum".to_owned(),
        }
    }

    /// Builds [`write_failed`].
    pub fn write_failed(location: SourceLocation, path: &str, reason: &str) -> (e: DiagnosticError)
        ensures
            e@ == write_failed(location, path@, reason@),
    {
        let mut message = "write to ".to_owned();
        message.append(path);
        message.append(" failed: ");
        message.append(reason);
        DiagnosticError { kind: DiagnosticKind::WriteFailed, location, message }
    }

    /// Builds [`foreign_type_conflict`].
    pub fn foreign_type_conflict(location: SourceLocation, name: &str) -> (e: DiagnosticError)
        ensures
            e@ == foreign_type_conflict(location, name@),
    {
        let mut message = "foreign type ".to_owned();
        message.append(name);
        message.append(" is already defined");
        DiagnosticError { kind: DiagnosticKind::ForeignTypeConflict, location, message }
    }
}

/// Which of the emitted conversions met a number that is no ordinal.
#[derive(Clone, Copy, Debug, PartialEq, Eq, Structural)]
pub enum BoundaryFaultKind {
    /// The foreign `fromInt` took its default branch.
    InvalidForeignValue,
    /// The native `from_jint` took its fallback branch.
    UnexpectedNativeValue,
}

/// A fault of the emitted code when it runs: a number crossed the boundary
/// that is no ordinal of the enumeration. There is nothing to recover there,
/// so the emitted code stops with the message; it is kept apart from
/// [`DiagnosticError`], which belongs to the build.
#[derive(Debug, PartialEq, Eq)]
pub struct BoundaryFault {
    pub kind: BoundaryFaultKind,
    pub enum_name: String,
    /// The number that was received.
    pub value: i32,
    pub message: String,
}

/// The mathematical view of [`BoundaryFault`], which the contracts speak of.
pub struct BoundaryFaultView {
    pub kind: BoundaryFaultKind,
    pub enum_name: Seq<char>,
    pub value: int,
    pub message: Seq<char>,
}

impl View for BoundaryFault {
    type V = BoundaryFaultView;

    open spec fn view(&self) -> BoundaryFaultView {
        BoundaryFaultView {
            kind: self.kind,
            enum_name: self.enum_name@,
            value: self.value as int,
            message: self.message@,
        }
    }
}

/// The fault of the foreign `fromInt` on `value`, with the message of the
/// error that its default branch throws.
pub open spec fn invalid_foreign_value(enum_name: Seq<char>, value: int) -> BoundaryFaultView {
    BoundaryFaultView {
        kind: BoundaryFaultKind::InvalidForeignValue,
        enum_name,
        value,
        message: "Invalid value for enum "@ + enum_name + ": "@ + signed_decimal(value),
    }
}

/// The fault of the native `from_jint` on `value`, with the message that its
/// fallback branch panics with.
pub open spec fn unexpected_native_value(enum_name: Seq<char>, value: int) -> BoundaryFaultView {
    BoundaryFaultView {
        kind: BoundaryFaultKind::UnexpectedNativeValue,
        enum_name,
        value,
        message: signed_decimal(value) + " not expected for "@ + enum_name,
    }
}

impl BoundaryFault {
    /// Builds [`invalid_foreign_value`].
    pub fn invalid_foreign_value(enum_name: &str, value: i32) -> (fault: BoundaryFault)
        ensures
            fault@ == invalid_foreign_value(enum_name@, value as int),
    {
        let mut message = "Invalid value for enum ".to_owned();
        message.append(enum_name);
        message.append(": ");
        push_signed_decimal(&mut message, value);
        BoundaryFault {
            kind: BoundaryFaultKind::InvalidForeignValue,
            enum_name: enum_name.to_owned(),
            value,
            message,
        }
    }

    /// Builds [`unexpected_native_value`].
    pub fn unexpected_native_value(enum_name: &str, value: i32) -> (fault: BoundaryFault)
        ensures
            fault@ == unexpected_native_value(enum_name@, value as int),
    {
        let mut message = String::new();
        push_signed_decimal(&mut message, value);
        message.append(" not expected for ");
        message.append(enum_name);
        assert(message@ =~= signed_decimal(value as int) + " not expected for "@ + enum_name@);
        BoundaryFault {
            kind: BoundaryFaultKind::UnexpectedNativeValue,
            enum_name: enum_name.to_owned(),
            value,
            message,
        }
    }
}

} // verus!
