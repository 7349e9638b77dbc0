//! A warning of the assembler: a message, and optionally where in the source
//! it applies, a note and a label.
use crate::text::{opt_str_view, opt_string_view};
use std::ops::Range;
use vstd::prelude::*;

verus! {

/// What a warning holds, as plain values.
pub struct WarningView {
    pub message: Seq<char>,
    pub range: Option<Range<usize>>,
    pub note: Option<Seq<char>>,
    pub label: Option<Seq<char>>,
}

#[derive(Debug, PartialEq, Eq)]
pub struct JasmWarning {
    message: String,
    range: Option<Range<usize>>,
    note: Option<String>,
    label: Option<String>,
}

impl View for JasmWarning {
    type V = WarningView;

    closed spec fn view(&self) -> WarningView {
        WarningView {
            message: self.message@,
            range: self.range,
            note: opt_string_view(self.note),
            label: opt_string_view(self.label),
        }
    }
}

impl JasmWarning {
    pub fn new(
        message: String,
        range: Option<Range<usize>>,
        note: Option<String>,
        label: Option<String>,
    ) -> (warning: Self)
        ensures
            warning@ == (WarningView {
                message: message@,
                range,
                note: opt_string_view(note),
                label: opt_string_view(label),
            }),
    {
        JasmWarning { message, range, note, label }
    }

    pub fn message(&self) -> (message: &str)
        ensures
            message@ == self@.message,
    {
        self.message.as_str()
    }

    pub fn range(&self) -> (range: Option<&Range<usize>>)
        ensures
            match range {
                Some(r) => self@.range == Some(*r),
                None => self@.range is None,
            },
    {
        match &self.range {
            Some(r) => Some(r),
            None => None,
        }
    }

    pub fn note(&self) -> (note: Option<&str>)
        ensures
            opt_str_view(note) == self@.note,
    {
        match &self.note {
            Some(n) => Some(n.as_str()),
            None => None,
        }
    }

    pub fn label(&self) -> (label: Option<&str>)
        ensures
            opt_str_view(label) == self@.label,
    {
        match &self.label {
            Some(l) => Some(l.as_str()),
            None => None,
        }
    }
}

impl Clone for JasmWarning {
    fn clone(&self) -> (copy: Self)
        ensures
            copy@ == self@,
    {
        let range = match &self.range {
            Some(r) => Some(Range { start: r.start, end: r.end }),
            None => None,
        };
        let note = match &self.note {
            Some(n) => Some(n.clone()),
            None => None,
        };
        let label = match &self.label {
            Some(l) => Some(l.clone()),
            None => None,
        };
        JasmWarning { message: self.message.clone(), range, note, label }
    }
}

/// What the accessors of a warning give back is what it was built from.
pub proof fn law_warning_keeps_its_parts(
    message: Seq<char>,
    range: Option<Range<usize>>,
    note: Option<Seq<char>>,
    label: Option<Seq<char>>,
    warning: JasmWarning,
)
    requires
        warning@ == (WarningView { message, range, note, label }),
    ensures
        warning@.message == message,
        warning@.range == range,
        warning@.note == note,
        warning@.label == label,
{
}

} // verus!
