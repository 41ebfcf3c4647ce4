//! Natively owned data produced or consumed at the engine boundary, and the
//! typed failures of that boundary.

use vstd::prelude::*;

verus! {

/// Location inside the contract specification at which a violation was
/// found. Every field is independently optional, mirroring the nullable
/// fields of the engine's wire structure.
#[derive(Debug, Clone, PartialEq, Eq)]
pub struct ErrorPosition {
    pub filepath: Option<String>,
    pub index: Option<i32>,
    pub line: Option<i32>,
    pub col: Option<i32>,
}

impl ErrorPosition {
    /// True when no component of the position is present.
    pub open spec fn is_absent(&self) -> bool {
        &&& self.filepath is None
        &&& self.index is None
        &&& self.line is None
        &&& self.col is None
    }

    /// A position with every component missing.
    pub fn absent() -> (r: ErrorPosition)
        ensures
            r.is_absent(),
    {
        ErrorPosition { filepath: None, index: None, line: None, col: None }
    }
}

/// A contract violation reported by the validation engine, deep-copied into
/// natively owned memory before the engine's own allocation is released.
#[derive(Debug, Clone, PartialEq, Eq)]
pub struct ValidationError {
    pub reported_by: String,
    pub kind: String,
    pub code: i32,
    pub title: String,
    pub detail: String,
    pub position: ErrorPosition,
    pub trace: Vec<String>,
}

/// Failure to carry text across the native/foreign boundary: a string with
/// an embedded NUL byte cannot become a C string, and bytes coming back from
/// the engine may not be valid UTF-8.
#[derive(Debug, Clone, Copy, PartialEq, Eq)]
pub enum EncodingError {
    EmbeddedNul,
    InvalidUtf8,
}

/// Failure to bring up the engine binding: the shared object could not be
/// loaded, or one of its required entry points is missing (the payload names
/// the missing symbol).
#[derive(Debug, Clone, PartialEq, Eq)]
pub enum InitError {
    LibraryLoad,
    SymbolResolution(String),
}

} // verus!
