//! The warnings that the parser reports, and the texts and locations that a
//! diagnostic shows for them.
use crate::error::labels_view;
use crate::token::Span;
use crate::warning::{JasmWarning, WarningView};
use std::ops::Range;
use vstd::prelude::*;

verus! {

pub enum ParserWarning {
    /// A class declares no superclass; `default` is the one it gets.
    MissingSuperClass { class_name: String, class_directive_pos: Span, default: &'static str },
}

impl ParserWarning {
    pub open spec fn spec_message(&self) -> Seq<char> {
        match self {
            ParserWarning::MissingSuperClass { .. } => "missing super directive"@,
        }
    }

    pub open spec fn spec_labels(&self) -> Seq<(Range<usize>, Seq<char>)> {
        match self {
            ParserWarning::MissingSuperClass { class_directive_pos, class_name, .. } => seq![
                (
                    class_directive_pos.spec_range(),
                    "Class "@ + class_name@ + " is missing a superclass directive"@,
                ),
            ],
        }
    }

    pub open spec fn spec_note(&self) -> Seq<char> {
        match self {
            ParserWarning::MissingSuperClass { default, .. } =>
                "The .super directive is required to specify the superclass. Defaulting to "@
                    + default@ + "."@,
        }
    }

    pub open spec fn spec_primary_location(&self) -> Range<usize> {
        match self {
            ParserWarning::MissingSuperClass { class_directive_pos, .. } => class_directive_pos.spec_range(),
        }
    }

    /// What the warning becomes as a warning of the assembler: its message,
    /// its location, its note, and the text of its label.
    pub open spec fn spec_jasm_warning(&self) -> WarningView {
        WarningView {
            message: self.spec_message(),
            range: Some(self.spec_primary_location()),
            note: Some(self.spec_note()),
            label: Some(self.spec_labels()[0].1),
        }
    }

    pub fn message(&self) -> (message: String)
        ensures
            message@ == self.spec_message(),
    {
        match self {
            ParserWarning::MissingSuperClass { .. } => String::from_str("missing super directive"),
        }
    }

    pub fn labels(&self) -> (labels: Vec<(Range<usize>, String)>)
        ensures
            labels_view(labels@) == self.spec_labels(),
    {
        match self {
            ParserWarning::MissingSuperClass { class_directive_pos, class_name, .. } => {
                let mut text = String::from_str("Class ");
                text.append(class_name.as_str());
                text.append(" is missing a superclass directive");
                let labels = vec![(class_directive_pos.as_range(), text)];
                proof {
                    assert(labels_view(labels@) =~= self.spec_labels());
                }
                labels
            },
        }
    }

    pub fn note(&self) -> (note: String)
        ensures
            note@ == self.spec_note(),
    {
        match self {
            ParserWarning::MissingSuperClass { default, .. } => {
                let mut text = String::from_str(
                    "The .super directive is required to specify the superclass. Defaulting to ",
                );
                text.append(default);
                text.append(".");
                text
            },
        }
    }

    pub fn primary_location(&self) -> (location: Range<usize>)
        ensures
            location == self.spec_primary_location(),
    {
        match self {
            ParserWarning::MissingSuperClass { class_directive_pos, .. } => class_directive_pos.as_range(),
        }
    }
}

impl vstd::std_specs::convert::FromSpecImpl<ParserWarning> for JasmWarning {
    open spec fn obeys_from_spec() -> bool {
        false
    }

    open spec fn from_spec(warn: ParserWarning) -> JasmWarning {
        arbitrary()
    }
}

impl From<ParserWarning> for JasmWarning {
    fn from(warn: ParserWarning) -> (warning: JasmWarning)
        ensures
            warning@ == warn.spec_jasm_warning(),
    {
        let mut labels = warn.labels();
        proof {
            assert(labels_view(labels@).len() == labels@.len());
            assert(labels@.len() == 1);
            assert(labels_view(labels@)[0] == (labels@[0].0, labels@[0].1@));
        }
        let label = match labels.pop() {
            Some((_, text)) => Some(text),
            None => None,
        };
        JasmWarning::new(warn.message(), Some(warn.primary_location()), Some(warn.note()), label)
    }
}

/// A parser warning's one label stands at its primary location, so the
/// warning of the assembler made from it, which keeps the location and the
/// label's text, keeps everything the parser warning says.
pub proof fn law_converted_warning_keeps_location_and_label(warn: ParserWarning)
    ensures
        warn.spec_labels().len() == 1,
        warn.spec_labels()[0].0 == warn.spec_primary_location(),
        warn.spec_jasm_warning().range == Some(warn.spec_labels()[0].0),
        warn.spec_jasm_warning().label == Some(warn.spec_labels()[0].1),
        warn.spec_jasm_warning().message == warn.spec_message(),
        warn.spec_jasm_warning().note == Some(warn.spec_note()),
{
}

/// A missing superclass is reported at the `.class` directive: the label,
/// at that directive, names the class verbatim; the note names the default
/// superclass verbatim; and the warning of the assembler made from it says
/// the same, at the same place.
pub proof fn law_missing_super_class_texts(class_name: String, class_directive_pos: Span, default: &'static str)
    ensures
        ({
            let warn = ParserWarning::MissingSuperClass { class_name, class_directive_pos, default };
            let location = Range { start: class_directive_pos.start, end: class_directive_pos.end };
            let label = "Class "@ + class_name@ + " is missing a superclass directive"@;
            let note = "The .super directive is required to specify the superclass. Defaulting to "@
                + default@ + "."@;
            &&& warn.spec_message() == "missing super directive"@
            &&& warn.spec_primary_location() == location
            &&& warn.spec_labels() == seq![(location, label)]
            &&& warn.spec_note() == note
            &&& label.subrange(6, 6 + class_name@.len() as int) == class_name@
            &&& note.subrange(note.len() - default@.len() - 1, note.len() - 1) == default@
            &&& warn.spec_jasm_warning() == (WarningView {
                message: "missing super directive"@,
                range: Some(location),
                note: Some(note),
                label: Some(label),
            })
        }),
{
    reveal_strlit("Class ");
    reveal_strlit(".");
    let label = "Class "@ + class_name@ + " is missing a superclass directive"@;
    let note = "The .super directive is required to specify the superclass. Defaulting to "@
        + default@ + "."@;
    assert(label.subrange(6, 6 + class_name@.len() as int) =~= class_name@);
    assert(note.subrange(note.len() - default@.len() - 1, note.len() - 1) =~= default@);
}

} // verus!
