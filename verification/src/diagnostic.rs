//! Diagnostics of any kind, errors or warnings, as a renderer sees them.
use crate::error::internal_error_report;
use std::ops::Range;
use vstd::prelude::*;

verus! {

/// How serious a diagnostic is.
#[derive(Debug, Clone, Copy, PartialEq, Eq, Structural)]
pub enum Severity {
    Error,
    Warning,
}

/// What a renderer reads of a diagnostic.
pub trait Diagnostic {
    fn message(&self) -> String;

    fn primary_location(&self) -> Range<usize>;

    fn labels(&self) -> Vec<(Range<usize>, String)>;

    fn note(&self) -> Option<String>;

    fn severity(&self) -> Severity;
}

/// An error of the assembler that carries a diagnostic of any kind.
pub enum JasmError {
    Diagnostic(Box<dyn Diagnostic>),
    Internal(String),
}

impl JasmError {
    /// The text shown for an internal error whose details are `message`.
    pub fn format_internal_error(message: &str) -> (report: String)
        ensures
            report@ == internal_error_report(message@),
    {
        crate::error::JasmError::format_internal_error(message)
    }
}

} // verus!
