//! The error taxonomy of a compilation.
//!
//! A parse error aborts before any syntax tree exists; a transform error
//! aborts the whole pipeline.  Either way no partial output is returned, and
//! the error carries the specifier and a precise source position so a
//! failure is attributable to a line in the original module.  Specifier
//! resolution itself never fails: unmatched specifiers pass through.

use vstd::prelude::*;

verus! {

/// Which phase a compilation failed in.
#[derive(Clone, Copy, PartialEq, Eq, Structural, Debug)]
pub enum ErrorKind {
    /// A lexical or syntax violation; no syntax tree exists.
    Parse,
    /// A pipeline stage could not apply to the module's shape.
    Transform,
}

/// A fatal compilation error: the failing phase, the module's specifier,
/// and the source position and message of the failure.
#[derive(Debug)]
pub struct CompileError {
    pub kind: ErrorKind,
    pub specifier: String,
    pub line: usize,
    pub column: usize,
    pub message: String,
}

impl CompileError {
    /// Build an error attributed to a position in the named module.
    pub fn new(kind: ErrorKind, specifier: &str, line: usize, column: usize, message: &str) -> (r:
        CompileError)
        ensures
            r.kind == kind,
            r.specifier@ == specifier@,
            r.line == line,
            r.column == column,
            r.message@ == message@,
    {
        CompileError {
            kind,
            specifier: String::from_str(specifier),
            line,
            column,
            message: String::from_str(message),
        }
    }
}

} // verus!
