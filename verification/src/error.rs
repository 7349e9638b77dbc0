//! Errors of the assembler: a diagnostic that points into the source, or an
//! internal error, which is a bug of the assembler itself.
use crate::text::{join, opt_str_view, opt_string_view, seq_join, str_views};
use std::ops::Range;
use vstd::prelude::*;

verus! {

/// What a diagnostic holds, as plain values.
pub struct DiagnosticView {
    pub message: Seq<char>,
    pub primary_location: Range<usize>,
    pub labels: Seq<(Range<usize>, Seq<char>)>,
    pub note: Option<Seq<char>>,
}

/// The labels of a diagnostic, their texts taken by view.
pub open spec fn labels_view(labels: Seq<(Range<usize>, String)>) -> Seq<(Range<usize>, Seq<char>)> {
    labels.map_values(|l: (Range<usize>, String)| (l.0, l.1@))
}

/// An error that points into the source: a message, the primary location,
/// labelled ranges and an optional note.
#[derive(Debug, PartialEq, Eq)]
pub struct JasmDiagnostic {
    message: String,
    primary_location: Range<usize>,
    label: Vec<(Range<usize>, String)>,
    note: Option<String>,
}

impl View for JasmDiagnostic {
    type V = DiagnosticView;

    closed spec fn view(&self) -> DiagnosticView {
        DiagnosticView {
            message: self.message@,
            primary_location: self.primary_location,
            labels: labels_view(self.label@),
            note: opt_string_view(self.note),
        }
    }
}

impl JasmDiagnostic {
    pub fn new(
        message: String,
        primary_location: Range<usize>,
        label: Vec<(Range<usize>, String)>,
        note: Option<String>,
    ) -> (diagnostic: Self)
        ensures
            diagnostic@ == (DiagnosticView {
                message: message@,
                primary_location,
                labels: labels_view(label@),
                note: opt_string_view(note),
            }),
    {
        JasmDiagnostic { message, primary_location, note, label }
    }

    pub fn message(&self) -> (message: &str)
        ensures
            message@ == self@.message,
    {
        self.message.as_str()
    }

    pub fn primary_location(&self) -> (location: &Range<usize>)
        ensures
            *location == self@.primary_location,
    {
        &self.primary_location
    }

    pub fn note(&self) -> (note: Option<&str>)
        ensures
            opt_str_view(note) == self@.note,
    {
        match &self.note {
            Some(n) => Some(n.as_str()),
            None => None,
        }
    }

    pub fn labels(&self) -> (labels: &Vec<(Range<usize>, String)>)
        ensures
            labels_view(labels@) == self@.labels,
    {
        &self.label
    }
}

/// A copy of a labelled range.
fn clone_label(label: &(Range<usize>, String)) -> (copy: (Range<usize>, String))
    ensures
        copy.0 == label.0,
        copy.1@ == label.1@,
{
    (Range { start: label.0.start, end: label.0.end }, label.1.clone())
}

impl Clone for JasmDiagnostic {
    fn clone(&self) -> (copy: Self)
        ensures
            copy@ == self@,
    {
        let mut label: Vec<(Range<usize>, String)> = Vec::new();
        let n: usize = self.label.len();
        let mut i: usize = 0;
        while i < n
            invariant
                n == self.label@.len(),
                0 <= i <= n,
                label@.len() == i,
                forall|j: int|
                    0 <= j < i ==> #[trigger] label@[j].0 == self.label@[j].0 && label@[j].1@
                        == self.label@[j].1@,
            decreases n - i,
        {
            label.push(clone_label(&self.label[i]));
            i = i + 1;
        }
        proof {
            assert(labels_view(label@) =~= labels_view(self.label@));
        }
        let note = match &self.note {
            Some(n) => Some(n.clone()),
            None => None,
        };
        JasmDiagnostic {
            message: self.message.clone(),
            primary_location: Range { start: self.primary_location.start, end: self.primary_location.end },
            label,
            note,
        }
    }
}

/// An error of the assembler.
#[derive(Debug)]
pub enum JasmError {
    /// An error in the assembled source, reported with its location.
    Diagnostic(JasmDiagnostic),
    /// A bug of the assembler, with a description of what went wrong.
    Internal(String),
}

/// What an error holds, as plain values.
pub enum JasmErrorView {
    Diagnostic(DiagnosticView),
    Internal(Seq<char>),
}

impl View for JasmError {
    type V = JasmErrorView;

    open spec fn view(&self) -> JasmErrorView {
        match self {
            JasmError::Diagnostic(d) => JasmErrorView::Diagnostic(d@),
            JasmError::Internal(m) => JasmErrorView::Internal(m@),
        }
    }
}

/// The lines of the report of an internal error whose details are `message`.
pub open spec fn internal_error_lines(message: Seq<char>) -> Seq<Seq<char>> {
    seq![
        ""@,
        "!!!!!!!!!!!!!!!!!!!!!!!!!!!!!!!!!!!!!!!!!!!!!!!!!!!"@,
        "!            INTERNAL ASSEMBLER ERROR             !"@,
        "!!!!!!!!!!!!!!!!!!!!!!!!!!!!!!!!!!!!!!!!!!!!!!!!!!!"@,
        ""@,
        "This is a bug in the jasm assembler."@,
        "Please report it at: https://github.com/Obito-git/lagertha-vm/issues"@,
        ""@,
        "Details: "@ + message,
    ]
}

/// The report of an internal error: its lines, one after another.
pub open spec fn internal_error_report(message: Seq<char>) -> Seq<char> {
    seq_join(internal_error_lines(message), "\n"@)
}

impl JasmError {
    /// The text shown for an internal error whose details are `message`.
    pub fn format_internal_error(message: &str) -> (report: String)
        ensures
            report@ == internal_error_report(message@),
    {
        let mut details = String::from_str("Details: ");
        details.append(message);
        let lines: [&str; 9] = [
            "",
            "!!!!!!!!!!!!!!!!!!!!!!!!!!!!!!!!!!!!!!!!!!!!!!!!!!!",
            "!            INTERNAL ASSEMBLER ERROR             !",
            "!!!!!!!!!!!!!!!!!!!!!!!!!!!!!!!!!!!!!!!!!!!!!!!!!!!",
            "",
            "This is a bug in the jasm assembler.",
            "Please report it at: https://github.com/Obito-git/lagertha-vm/issues",
            "",
            details.as_str(),
        ];
        let report = join(lines.as_slice(), "\n");
        proof {
            assert(str_views(lines@) =~= internal_error_lines(message@));
        }
        report
    }
}

/// The report of an internal error ends with its details, verbatim, after
/// "Details: ".
pub proof fn law_internal_error_report_ends_with_details(message: Seq<char>)
    ensures
        ({
            let report = internal_error_report(message);
            let details = "Details: "@ + message;
            &&& details.len() <= report.len()
            &&& report.subrange(report.len() - details.len(), report.len() as int) == details
        }),
{
    let lines = internal_error_lines(message);
    let report = internal_error_report(message);
    let details = "Details: "@ + message;
    assert(lines.len() == 9);
    assert(lines.last() == details);
    assert(report == seq_join(lines.drop_last(), "\n"@) + "\n"@ + details);
    assert(report.subrange(report.len() - details.len(), report.len() as int) =~= details);
}

/// What the accessors of a diagnostic give back is what it was built from.
pub proof fn law_diagnostic_keeps_its_parts(
    message: Seq<char>,
    primary_location: Range<usize>,
    labels: Seq<(Range<usize>, Seq<char>)>,
    note: Option<Seq<char>>,
    diagnostic: JasmDiagnostic,
)
    requires
        diagnostic@ == (DiagnosticView { message, primary_location, labels, note }),
    ensures
        diagnostic@.message == message,
        diagnostic@.primary_location == primary_location,
        diagnostic@.labels == labels,
        diagnostic@.note == note,
{
}

/// The report of an internal error, written out whole: a banner between
/// empty lines, where to report the bug, and the details last.
pub proof fn law_internal_error_report_text(message: Seq<char>)
    ensures
        internal_error_report(message) == "\n!!!!!!!!!!!!!!!!!!!!!!!!!!!!!!!!!!!!!!!!!!!!!!!!!!!\n!            INTERNAL ASSEMBLER ERROR             !\n!!!!!!!!!!!!!!!!!!!!!!!!!!!!!!!!!!!!!!!!!!!!!!!!!!!\n\nThis is a bug in the jasm assembler.\nPlease report it at: https://github.com/Obito-git/lagertha-vm/issues\n\nDetails: "@
            + message,
{
    reveal_with_fuel(seq_join, 10);
    reveal_strlit("");
    reveal_strlit("\n");
    reveal_strlit("!!!!!!!!!!!!!!!!!!!!!!!!!!!!!!!!!!!!!!!!!!!!!!!!!!!");
    reveal_strlit("!            INTERNAL ASSEMBLER ERROR             !");
    reveal_strlit("This is a bug in the jasm assembler.");
    reveal_strlit("Please report it at: https://github.com/Obito-git/lagertha-vm/issues");
    reveal_strlit("Details: ");
    reveal_strlit("\n!!!!!!!!!!!!!!!!!!!!!!!!!!!!!!!!!!!!!!!!!!!!!!!!!!!\n!            INTERNAL ASSEMBLER ERROR             !\n!!!!!!!!!!!!!!!!!!!!!!!!!!!!!!!!!!!!!!!!!!!!!!!!!!!\n\nThis is a bug in the jasm assembler.\nPlease report it at: https://github.com/Obito-git/lagertha-vm/issues\n\nDetails: ");
    let lines = internal_error_lines(message);
    let sep = "\n"@;
    assert(lines.drop_last().drop_last().drop_last().drop_last().drop_last().drop_last().drop_last().drop_last() =~= seq![""@]);
    assert(internal_error_report(message) =~= ""@ + sep + lines[1] + sep + lines[2] + sep + lines[3] + sep + lines[4]
        + sep + lines[5] + sep + lines[6] + sep + lines[7] + sep + lines[8]);
    assert(internal_error_report(message) =~= "\n!!!!!!!!!!!!!!!!!!!!!!!!!!!!!!!!!!!!!!!!!!!!!!!!!!!\n!            INTERNAL ASSEMBLER ERROR             !\n!!!!!!!!!!!!!!!!!!!!!!!!!!!!!!!!!!!!!!!!!!!!!!!!!!!\n\nThis is a bug in the jasm assembler.\nPlease report it at: https://github.com/Obito-git/lagertha-vm/issues\n\nDetails: "@
        + message);
}

} // verus!
