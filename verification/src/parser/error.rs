//! The errors that the parser reports, and the texts and locations that a
//! diagnostic shows for them.
use crate::error::{labels_view, DiagnosticView, JasmDiagnostic, JasmError, JasmErrorView};
use crate::text::opt_string_view;
use crate::token::{JasmToken, JasmTokenKind, Span};
use std::ops::Range;
use vstd::prelude::*;

verus! {

#[derive(Debug, Eq, PartialEq, Clone)]
pub enum ParserError {
    ClassDirectiveExpected(Span, JasmTokenKind),
    TrailingTokens(Vec<JasmToken>, TrailingTokensContext),
    IdentifierExpected(Span, JasmTokenKind, IdentifierContext),
    MethodDescriptorExpected(Span, JasmTokenKind, MethodDescriptorContext),
    UnexpectedCodeDirectiveArg(Span, JasmTokenKind),
    NonNegativeIntegerExpected(Span, JasmTokenKind, NonNegativeIntegerContext),
    UnknownInstruction(Span, String),
    EmptyFile(Span),
    Internal(String),
}

#[derive(Debug, Eq, PartialEq, Clone)]
pub enum NonNegativeIntegerContext {
    CodeLocals,
    CodeStack,
}

#[derive(Debug, Eq, PartialEq, Clone)]
pub enum TrailingTokensContext {
    Class,
    Super,
    Method,
    Code,
}

#[derive(Debug, Eq, PartialEq, Clone)]
pub enum IdentifierContext {
    ClassDirective,
    SuperDirective,
    MethodDirectiveName,
    InstructionName,
    ClassNameInstructionArg,
    MethodNameInstructionArg,
    FieldNameInstructionArg,
    FieldDescriptorInstructionArg,
}

#[derive(Debug, Eq, PartialEq, Clone)]
pub enum MethodDescriptorContext {
    MethodDirective,
    Instruction,
}

impl IdentifierContext {
    /// The contexts of a directive's own name, for which a message and a
    /// label are written.
    pub open spec fn names_directive(&self) -> bool {
        ||| self is ClassDirective
        ||| self is SuperDirective
        ||| self is MethodDirectiveName
    }
}

/// The label of a token met before any class definition.
pub open spec fn class_directive_label(token: JasmTokenKind) -> Seq<char> {
    match token {
        JasmTokenKind::DotMethod => "The '"@ + token.spec_display()
            + "' directive is only allowed inside a class definition."@,
        JasmTokenKind::DotSuper => "The '"@ + token.spec_display()
            + "' directive is only allowed inside a class definition."@,
        JasmTokenKind::DotCode => "The '"@ + token.spec_display()
            + "' directive is only allowed inside a method definition."@,
        JasmTokenKind::DotEnd => "The '"@ + token.spec_display()
            + "' directive has no matching start directive."@,
        _ => "The '"@ + token.spec_display() + "' "@ + token.spec_token_type()
            + " must appear inside a class definition."@,
    }
}

/// The note of a token met before any class definition.
pub open spec fn class_directive_note(token: JasmTokenKind) -> Seq<char> {
    match token {
        JasmTokenKind::DotMethod => "Define a class first using '.class [access_flags] <name>'."@,
        JasmTokenKind::DotSuper => "Define a class first using '.class [access_flags] <name>'."@,
        JasmTokenKind::DotCode => "Define a method first using '.method [access_flags] <name> <descriptor>'."@,
        JasmTokenKind::DotEnd => "The '.end' directive must match a previous '.method', '.code', or '.class' directive."@,
        JasmTokenKind::Public => "Keywords like 'public' and 'static' are access modifiers that must appear within '.class' or '.method' directives."@,
        JasmTokenKind::Static => "Keywords like 'public' and 'static' are access modifiers that must appear within '.class' or '.method' directives."@,
        JasmTokenKind::Identifier(_) => "Identifiers (class, method, or field names) must be used within appropriate directives like '.class', '.method', or field references."@,
        JasmTokenKind::Integer(_) => "Integer literals are typically used as instruction arguments inside '.code' blocks."@,
        JasmTokenKind::StringLiteral(_) => "String literals are constant values that must appear inside '.code' blocks as instruction arguments."@,
        JasmTokenKind::MethodDescriptor(_) => "Method descriptors specify method signatures and must appear after method names in '.method' directives or as instruction arguments."@,
        _ => "All assembly code must be placed inside a class definition starting with '.class'."@,
    }
}

/// The advice that follows the first line of the note on trailing tokens,
/// chosen by the first trailing token and where the tokens trail.
pub open spec fn trailing_tokens_advice(first: JasmTokenKind, context: TrailingTokensContext) -> Seq<char> {
    match (first, context) {
        (JasmTokenKind::DotSuper, TrailingTokensContext::Class) => "Consider starting a new line for the '.super' directive."@,
        (JasmTokenKind::DotMethod, TrailingTokensContext::Class) => "Consider starting a new line for the '.method' directive."@,
        (JasmTokenKind::Public, TrailingTokensContext::Class) => "Access flags must appear before the class name:\n.class [access_flags] <name>"@,
        (JasmTokenKind::Static, TrailingTokensContext::Class) => "Access flags must appear before the class name:\n.class [access_flags] <name>"@,
        _ => "Unexpected tokens after class name. Consider starting a new line for the next directive."@,
    }
}

/// The note on a missing identifier, chosen by the token found in its place
/// and the context.
pub open spec fn identifier_note(found: JasmTokenKind, context: IdentifierContext) -> Seq<char> {
    match (found, context) {
        (JasmTokenKind::StringLiteral(_), IdentifierContext::ClassDirective) => "Consider removing the quotes around the class name"@,
        (JasmTokenKind::StringLiteral(_), IdentifierContext::SuperDirective) => "Consider removing the quotes around the class name"@,
        (JasmTokenKind::StringLiteral(_), IdentifierContext::MethodDirectiveName) => "Consider removing the quotes around the method name"@,
        _ => "The .class directive requires a name:\n.class [access_flags] <name>"@,
    }
}

impl ParserError {
    /// The errors for which a message and a label are written.
    pub open spec fn has_message(&self) -> bool {
        match self {
            ParserError::ClassDirectiveExpected(_, _) => true,
            ParserError::TrailingTokens(_, _) => true,
            ParserError::IdentifierExpected(_, _, context) => context.names_directive(),
            ParserError::EmptyFile(_) => true,
            ParserError::Internal(_) => true,
            _ => false,
        }
    }

    /// The errors for which a note is written: trailing tokens are only
    /// described when there is at least one of them.
    pub open spec fn has_note(&self) -> bool {
        match self {
            ParserError::ClassDirectiveExpected(_, _) => true,
            ParserError::TrailingTokens(tokens, _) => tokens@.len() > 0,
            ParserError::IdentifierExpected(_, _, _) => true,
            ParserError::EmptyFile(_) => true,
            ParserError::Internal(_) => true,
            _ => false,
        }
    }

    /// The errors whose location is known: trailing tokens only when there is
    /// at least one of them.
    pub open spec fn has_span(&self) -> bool {
        match self {
            ParserError::ClassDirectiveExpected(_, _) => true,
            ParserError::TrailingTokens(tokens, _) => tokens@.len() > 0,
            ParserError::IdentifierExpected(_, _, _) => true,
            ParserError::EmptyFile(_) => true,
            ParserError::Internal(_) => true,
            _ => false,
        }
    }

    /// The errors that can be turned into a diagnostic: those with a message,
    /// a label, a note and a location.
    pub open spec fn is_reportable(&self) -> bool {
        self.has_message() && self.has_note() && self.has_span()
    }

    pub open spec fn spec_message(&self) -> Option<Seq<char>> {
        match self {
            ParserError::ClassDirectiveExpected(_, token) => Some(
                "Unexpected "@ + token.spec_token_type() + " before class definition"@,
            ),
            ParserError::TrailingTokens(_, _) => Some("trailing characters"@),
            ParserError::IdentifierExpected(_, _, context) => match context {
                IdentifierContext::ClassDirective => Some("incomplete class definition"@),
                IdentifierContext::SuperDirective => Some("incomplete .super directive"@),
                IdentifierContext::MethodDirectiveName => Some("incomplete .method directive"@),
                _ => None,
            },
            ParserError::EmptyFile(_) => Some("File contains no class definition"@),
            ParserError::Internal(msg) => Some("Internal parser error: "@ + msg@),
            _ => None,
        }
    }

    pub open spec fn spec_label(&self) -> Option<Seq<char>> {
        match self {
            ParserError::TrailingTokens(_, _) => Some("Class headers must end after the name."@),
            ParserError::ClassDirectiveExpected(_, token) => Some(class_directive_label(*token)),
            ParserError::IdentifierExpected(_, _, context) => match context {
                IdentifierContext::ClassDirective => Some(
                    "The .class directive requires a class name after the access flags."@,
                ),
                IdentifierContext::SuperDirective => Some(
                    "The .super directive requires a superclass name."@,
                ),
                IdentifierContext::MethodDirectiveName => Some(
                    "The .method directive requires a method name followed by parentheses and a method descriptor."@,
                ),
                _ => None,
            },
            ParserError::Internal(_) => None,
            ParserError::EmptyFile(_) => Some("The file is empty or contains only comments."@),
            _ => None,
        }
    }

    pub open spec fn spec_note(&self) -> Option<Seq<char>> {
        match self {
            ParserError::ClassDirectiveExpected(_, token) => Some(class_directive_note(*token)),
            ParserError::TrailingTokens(tokens, context) => Some(
                "The class definition should end after the class name.\n"@
                    + trailing_tokens_advice(tokens@[0].kind, *context),
            ),
            ParserError::IdentifierExpected(_, found, context) => Some(
                identifier_note(*found, *context),
            ),
            ParserError::EmptyFile(_) => Some(
                "A Java assembly file must start with a '.class' directive."@,
            ),
            ParserError::Internal(_) => None,
            _ => None,
        }
    }

    pub open spec fn spec_span(&self) -> Option<Span> {
        match self {
            ParserError::ClassDirectiveExpected(span, _) => Some(*span),
            ParserError::EmptyFile(span) => Some(*span),
            ParserError::IdentifierExpected(span, _, _) => Some(*span),
            ParserError::TrailingTokens(tokens, _) => Some(
                Span { start: tokens@[0].span.start, end: tokens@.last().span.end },
            ),
            _ => None,
        }
    }

    pub open spec fn spec_as_range(&self) -> Option<Range<usize>> {
        match self.spec_span() {
            Some(span) => Some(span.spec_range()),
            None => None,
        }
    }

    /// What the error becomes as an error of the assembler: an internal error
    /// stays internal; any other becomes a diagnostic with the error's message
    /// (or "parsing error" where it has none), its location, its label at that
    /// location, and its note.
    pub open spec fn spec_jasm_error(&self) -> JasmErrorView {
        match self {
            ParserError::Internal(msg) => JasmErrorView::Internal(msg@),
            _ => JasmErrorView::Diagnostic(
                DiagnosticView {
                    message: match self.spec_message() {
                        Some(m) => m,
                        None => "parsing error"@,
                    },
                    primary_location: self.spec_as_range().unwrap(),
                    labels: seq![(self.spec_as_range().unwrap(), self.spec_label().unwrap())],
                    note: self.spec_note(),
                },
            ),
        }
    }

    pub fn message(&self) -> (message: Option<String>)
        requires
            self.has_message(),
        ensures
            opt_string_view(message) == self.spec_message(),
    {
        match self {
            ParserError::ClassDirectiveExpected(_, token) => {
                let mut m = String::from_str("Unexpected ");
                m.append(token.as_string_token_type());
                m.append(" before class definition");
                Some(m)
            },
            ParserError::TrailingTokens(_, _) => Some(String::from_str("trailing characters")),
            ParserError::IdentifierExpected(_, _, context) => Some(
                match context {
                    IdentifierContext::ClassDirective => String::from_str(
                        "incomplete class definition",
                    ),
                    IdentifierContext::SuperDirective => String::from_str(
                        "incomplete .super directive",
                    ),
                    _ => String::from_str("incomplete .method directive"),
                },
            ),
            ParserError::EmptyFile(_) => Some(
                String::from_str("File contains no class definition"),
            ),
            ParserError::Internal(msg) => {
                let mut m = String::from_str("Internal parser error: ");
                m.append(msg.as_str());
                Some(m)
            },
            _ => None,
        }
    }

    pub fn label(&self) -> (label: Option<String>)
        requires
            self.has_message(),
        ensures
            opt_string_view(label) == self.spec_label(),
    {
        match self {
            ParserError::TrailingTokens(_, _) => Some(
                String::from_str("Class headers must end after the name."),
            ),
            ParserError::ClassDirectiveExpected(_, token) => Some(class_directive_label_text(token)),
            ParserError::IdentifierExpected(_, _, context) => Some(
                match context {
                    IdentifierContext::ClassDirective => String::from_str(
                        "The .class directive requires a class name after the access flags.",
                    ),
                    IdentifierContext::SuperDirective => String::from_str(
                        "The .super directive requires a superclass name.",
                    ),
                    _ => String::from_str(
                        "The .method directive requires a method name followed by parentheses and a method descriptor.",
                    ),
                },
            ),
            ParserError::Internal(_) => None,
            ParserError::EmptyFile(_) => Some(
                String::from_str("The file is empty or contains only comments."),
            ),
            _ => None,
        }
    }

    pub fn note(&self) -> (note: Option<String>)
        requires
            self.has_note(),
        ensures
            opt_string_view(note) == self.spec_note(),
    {
        match self {
            ParserError::ClassDirectiveExpected(_, token) => Some(class_directive_note_text(token)),
            ParserError::TrailingTokens(tokens, context) => {
                let mut n = String::from_str(
                    "The class definition should end after the class name.\n",
                );
                n.append(trailing_tokens_advice_text(&tokens[0].kind, context));
                Some(n)
            },
            ParserError::IdentifierExpected(_, found, context) => Some(
                String::from_str(identifier_note_text(found, context)),
            ),
            ParserError::EmptyFile(_) => Some(
                String::from_str("A Java assembly file must start with a '.class' directive."),
            ),
            _ => None,
        }
    }

    pub fn as_range(&self) -> (range: Option<Range<usize>>)
        requires
            self.has_span(),
        ensures
            range == self.spec_as_range(),
    {
        match self.span() {
            Some(span) => Some(span.as_range()),
            None => None,
        }
    }

    pub fn span(&self) -> (span: Option<Span>)
        requires
            self.has_span(),
        ensures
            span == self.spec_span(),
    {
        match self {
            ParserError::ClassDirectiveExpected(span, _) => Some(*span),
            ParserError::EmptyFile(span) => Some(*span),
            ParserError::IdentifierExpected(span, _, _) => Some(*span),
            ParserError::TrailingTokens(tokens, _) => {
                let last: usize = tokens.len() - 1;
                Some(Span::new(tokens[0].span.start, tokens[last].span.end))
            },
            _ => None,
        }
    }

    /// Turns the error into an error of the assembler: see `spec_jasm_error`.
    pub fn into_jasm_error(self) -> (error: JasmError)
        requires
            self.is_reportable(),
        ensures
            error@ == self.spec_jasm_error(),
    {
        match self {
            ParserError::Internal(msg) => JasmError::Internal(msg),
            _ => {
                let message = match self.message() {
                    Some(m) => m,
                    None => String::from_str("parsing error"),
                };
                let range = self.as_range().unwrap();
                let label = self.label().unwrap();
                let note = self.note();
                let label_range = Range { start: range.start, end: range.end };
                let labels = vec![(label_range, label)];
                proof {
                    assert(labels_view(labels@) =~= seq![(self.spec_as_range().unwrap(), self.spec_label().unwrap())]);
                }
                JasmError::Diagnostic(JasmDiagnostic::new(message, range, labels, note))
            },
        }
    }
}

fn class_directive_label_text(token: &JasmTokenKind) -> (label: String)
    ensures
        label@ == class_directive_label(*token),
{
    let mut label = String::from_str("The '");
    let shown = token.display_text();
    label.append(shown.as_str());
    match token {
        JasmTokenKind::DotMethod => {
            label.append("' directive is only allowed inside a class definition.");
        },
        JasmTokenKind::DotSuper => {
            label.append("' directive is only allowed inside a class definition.");
        },
        JasmTokenKind::DotCode => {
            label.append("' directive is only allowed inside a method definition.");
        },
        JasmTokenKind::DotEnd => {
            label.append("' directive has no matching start directive.");
        },
        _ => {
            label.append("' ");
            label.append(token.as_string_token_type());
            label.append(" must appear inside a class definition.");
        },
    }
    label
}

fn class_directive_note_text(token: &JasmTokenKind) -> (note: String)
    ensures
        note@ == class_directive_note(*token),
{
    match token {
        JasmTokenKind::DotMethod => String::from_str("Define a class first using '.class [access_flags] <name>'."),
        JasmTokenKind::DotSuper => String::from_str("Define a class first using '.class [access_flags] <name>'."),
        JasmTokenKind::DotCode => String::from_str("Define a method first using '.method [access_flags] <name> <descriptor>'."),
        JasmTokenKind::DotEnd => String::from_str("The '.end' directive must match a previous '.method', '.code', or '.class' directive."),
        JasmTokenKind::Public => String::from_str("Keywords like 'public' and 'static' are access modifiers that must appear within '.class' or '.method' directives."),
        JasmTokenKind::Static => String::from_str("Keywords like 'public' and 'static' are access modifiers that must appear within '.class' or '.method' directives."),
        JasmTokenKind::Identifier(_) => String::from_str("Identifiers (class, method, or field names) must be used within appropriate directives like '.class', '.method', or field references."),
        JasmTokenKind::Integer(_) => String::from_str("Integer literals are typically used as instruction arguments inside '.code' blocks."),
        JasmTokenKind::StringLiteral(_) => String::from_str("String literals are constant values that must appear inside '.code' blocks as instruction arguments."),
        JasmTokenKind::MethodDescriptor(_) => String::from_str("Method descriptors specify method signatures and must appear after method names in '.method' directives or as instruction arguments."),
        _ => String::from_str("All assembly code must be placed inside a class definition starting with '.class'."),
    }
}

fn trailing_tokens_advice_text(first: &JasmTokenKind, context: &TrailingTokensContext) -> (advice: &'static str)
    ensures
        advice@ == trailing_tokens_advice(*first, *context),
{
    match (first, context) {
        (JasmTokenKind::DotSuper, TrailingTokensContext::Class) => "Consider starting a new line for the '.super' directive.",
        (JasmTokenKind::DotMethod, TrailingTokensContext::Class) => "Consider starting a new line for the '.method' directive.",
        (JasmTokenKind::Public, TrailingTokensContext::Class) => "Access flags must appear before the class name:\n.class [access_flags] <name>",
        (JasmTokenKind::Static, TrailingTokensContext::Class) => "Access flags must appear before the class name:\n.class [access_flags] <name>",
        _ => "Unexpected tokens after class name. Consider starting a new line for the next directive.",
    }
}

fn identifier_note_text(found: &JasmTokenKind, context: &IdentifierContext) -> (note: &'static str)
    ensures
        note@ == identifier_note(*found, *context),
{
    match (found, context) {
        (JasmTokenKind::StringLiteral(_), IdentifierContext::ClassDirective) => "Consider removing the quotes around the class name",
        (JasmTokenKind::StringLiteral(_), IdentifierContext::SuperDirective) => "Consider removing the quotes around the class name",
        (JasmTokenKind::StringLiteral(_), IdentifierContext::MethodDirectiveName) => "Consider removing the quotes around the method name",
        _ => "The .class directive requires a name:\n.class [access_flags] <name>",
    }
}

/// Every error that can be reported says all a diagnostic needs: an internal
/// error has a message and nothing else (no label, note or location); any
/// other has a message, a label, a note and a location.
pub proof fn law_reportable_errors_are_complete(error: ParserError)
    requires
        error.is_reportable(),
    ensures
        error.spec_message() is Some,
        error is Internal ==> {
            &&& error.spec_label() is None
            &&& error.spec_note() is None
            &&& error.spec_as_range() is None
        },
        !(error is Internal) ==> {
            &&& error.spec_label() is Some
            &&& error.spec_note() is Some
            &&& error.spec_as_range() is Some
        },
{
}

/// Turning a reportable error into an error of the assembler loses nothing of
/// what it says: an internal error keeps its description; any other becomes a
/// diagnostic at the error's location, with the error's message and note, and
/// its label at that same location.
pub proof fn law_conversion_keeps_what_the_error_says(error: ParserError)
    requires
        error.is_reportable(),
    ensures
        error matches ParserError::Internal(msg) ==> error.spec_jasm_error() == JasmErrorView::Internal(msg@),
        !(error is Internal) ==> (error.spec_jasm_error() matches JasmErrorView::Diagnostic(d) && {
            &&& Some(d.message) == error.spec_message()
            &&& Some(d.primary_location) == error.spec_as_range()
            &&& d.note == error.spec_note()
            &&& d.labels.len() == 1
            &&& Some(d.labels[0].0) == error.spec_as_range()
            &&& Some(d.labels[0].1) == error.spec_label()
        }),
{
    law_reportable_errors_are_complete(error);
}

/// An error that carries a span is located exactly there: its span is the
/// span it carries, and its range runs from that span's start to its end.
pub proof fn law_located_errors_point_at_their_span(
    span: Span,
    token: JasmTokenKind,
    context: IdentifierContext,
)
    ensures
        ParserError::ClassDirectiveExpected(span, token).spec_span() == Some(span),
        ParserError::IdentifierExpected(span, token, context).spec_span() == Some(span),
        ParserError::EmptyFile(span).spec_span() == Some(span),
        ParserError::ClassDirectiveExpected(span, token).spec_as_range() == Some(
            Range { start: span.start, end: span.end },
        ),
        ParserError::IdentifierExpected(span, token, context).spec_as_range() == Some(
            Range { start: span.start, end: span.end },
        ),
        ParserError::EmptyFile(span).spec_as_range() == Some(
            Range { start: span.start, end: span.end },
        ),
{
}

/// Trailing tokens are located from the start of the first of them to the
/// end of the last.
pub proof fn law_trailing_tokens_span_covers_the_tokens(
    tokens: Vec<JasmToken>,
    context: TrailingTokensContext,
)
    requires
        tokens@.len() > 0,
    ensures
        ParserError::TrailingTokens(tokens, context).spec_as_range() == Some(
            Range {
                start: tokens@[0].span.start,
                end: tokens@[tokens@.len() - 1].span.end,
            },
        ),
{
}

/// A token met before any class definition: the message names the token's
/// category; the label quotes the token as written and says where such a
/// token belongs; the note tells how to fix it.
pub proof fn law_class_directive_expected_texts(span: Span, token: JasmTokenKind)
    ensures
        ParserError::ClassDirectiveExpected(span, token).spec_message() == Some(
            "Unexpected "@ + token.spec_token_type() + " before class definition"@,
        ),
        ParserError::ClassDirectiveExpected(span, token).spec_label() == Some(
            "The '"@ + token.spec_display() + "' "@ + match token {
                JasmTokenKind::DotMethod => "directive is only allowed inside a class definition."@,
                JasmTokenKind::DotSuper => "directive is only allowed inside a class definition."@,
                JasmTokenKind::DotCode => "directive is only allowed inside a method definition."@,
                JasmTokenKind::DotEnd => "directive has no matching start directive."@,
                _ => token.spec_token_type() + " must appear inside a class definition."@,
            },
        ),
        ParserError::ClassDirectiveExpected(span, token).spec_note() == Some(
            match token {
                JasmTokenKind::DotMethod => "Define a class first using '.class [access_flags] <name>'."@,
                JasmTokenKind::DotSuper => "Define a class first using '.class [access_flags] <name>'."@,
                JasmTokenKind::DotCode => "Define a method first using '.method [access_flags] <name> <descriptor>'."@,
                JasmTokenKind::DotEnd => "The '.end' directive must match a previous '.method', '.code', or '.class' directive."@,
                JasmTokenKind::Public => "Keywords like 'public' and 'static' are access modifiers that must appear within '.class' or '.method' directives."@,
                JasmTokenKind::Static => "Keywords like 'public' and 'static' are access modifiers that must appear within '.class' or '.method' directives."@,
                JasmTokenKind::Identifier(_) => "Identifiers (class, method, or field names) must be used within appropriate directives like '.class', '.method', or field references."@,
                JasmTokenKind::Integer(_) => "Integer literals are typically used as instruction arguments inside '.code' blocks."@,
                JasmTokenKind::StringLiteral(_) => "String literals are constant values that must appear inside '.code' blocks as instruction arguments."@,
                JasmTokenKind::MethodDescriptor(_) => "Method descriptors specify method signatures and must appear after method names in '.method' directives or as instruction arguments."@,
                JasmTokenKind::DotClass => "All assembly code must be placed inside a class definition starting with '.class'."@,
            },
        ),
{
    reveal_strlit("The '");
    reveal_strlit("' ");
    reveal_strlit("' directive is only allowed inside a class definition.");
    reveal_strlit("directive is only allowed inside a class definition.");
    reveal_strlit("' directive is only allowed inside a method definition.");
    reveal_strlit("directive is only allowed inside a method definition.");
    reveal_strlit("' directive has no matching start directive.");
    reveal_strlit("directive has no matching start directive.");
    let t = token.spec_display();
    match token {
        JasmTokenKind::DotMethod => {
            assert("The '"@ + t + "' directive is only allowed inside a class definition."@ =~= "The '"@ + t + "' "@ + "directive is only allowed inside a class definition."@);
        },
        JasmTokenKind::DotSuper => {
            assert("The '"@ + t + "' directive is only allowed inside a class definition."@ =~= "The '"@ + t + "' "@ + "directive is only allowed inside a class definition."@);
        },
        JasmTokenKind::DotCode => {
            assert("The '"@ + t + "' directive is only allowed inside a method definition."@ =~= "The '"@ + t + "' "@ + "directive is only allowed inside a method definition."@);
        },
        JasmTokenKind::DotEnd => {
            assert("The '"@ + t + "' directive has no matching start directive."@ =~= "The '"@ + t + "' "@ + "directive has no matching start directive."@);
        },
        _ => {
            assert("The '"@ + t + "' "@ + token.spec_token_type() + " must appear inside a class definition."@ =~= "The '"@ + t + "' "@ + (token.spec_token_type() + " must appear inside a class definition."@));
        },
    }
}

/// A missing name names the directive whose name is missing: `.class`,
/// `.super` or `.method`, in the message and in the label alike.
pub proof fn law_identifier_expected_names_the_directive(span: Span, found: JasmTokenKind)
    ensures
        ParserError::IdentifierExpected(span, found, IdentifierContext::ClassDirective).spec_message()
            == Some("incomplete class definition"@),
        ParserError::IdentifierExpected(span, found, IdentifierContext::SuperDirective).spec_message()
            == Some("incomplete "@ + JasmTokenKind::DotSuper.spec_display() + " directive"@),
        ParserError::IdentifierExpected(span, found, IdentifierContext::MethodDirectiveName).spec_message()
            == Some("incomplete "@ + JasmTokenKind::DotMethod.spec_display() + " directive"@),
        ParserError::IdentifierExpected(span, found, IdentifierContext::ClassDirective).spec_label()
            == Some("The "@ + JasmTokenKind::DotClass.spec_display()
            + " directive requires a class name after the access flags."@),
        ParserError::IdentifierExpected(span, found, IdentifierContext::SuperDirective).spec_label()
            == Some("The "@ + JasmTokenKind::DotSuper.spec_display()
            + " directive requires a superclass name."@),
        ParserError::IdentifierExpected(span, found, IdentifierContext::MethodDirectiveName).spec_label()
            == Some("The "@ + JasmTokenKind::DotMethod.spec_display()
            + " directive requires a method name followed by parentheses and a method descriptor."@),
{
    reveal_strlit("incomplete ");
    reveal_strlit(" directive");
    reveal_strlit("incomplete .super directive");
    reveal_strlit("incomplete .method directive");
    reveal_strlit(".super");
    reveal_strlit(".method");
    reveal_strlit(".class");
    reveal_strlit("The ");
    reveal_strlit(" directive requires a class name after the access flags.");
    reveal_strlit(" directive requires a superclass name.");
    reveal_strlit(" directive requires a method name followed by parentheses and a method descriptor.");
    reveal_strlit("The .class directive requires a class name after the access flags.");
    reveal_strlit("The .super directive requires a superclass name.");
    reveal_strlit("The .method directive requires a method name followed by parentheses and a method descriptor.");
    assert("incomplete .super directive"@ =~= "incomplete "@ + ".super"@ + " directive"@);
    assert("incomplete .method directive"@ =~= "incomplete "@ + ".method"@ + " directive"@);
    assert("The .class directive requires a class name after the access flags."@ =~= "The "@
        + ".class"@ + " directive requires a class name after the access flags."@);
    assert("The .super directive requires a superclass name."@ =~= "The "@ + ".super"@
        + " directive requires a superclass name."@);
    assert("The .method directive requires a method name followed by parentheses and a method descriptor."@
        =~= "The "@ + ".method"@
        + " directive requires a method name followed by parentheses and a method descriptor."@);
}

/// The note on a missing name: a quoted name is pointed out as such (a class
/// name for `.class` and `.super`, a method name for `.method`); anything
/// else gets the general form of a class header.
pub proof fn law_identifier_expected_note(span: Span, found: JasmTokenKind, context: IdentifierContext)
    ensures
        ParserError::IdentifierExpected(span, found, context).spec_note() == Some(
            if found is StringLiteral && (context is ClassDirective || context is SuperDirective) {
                "Consider removing the quotes around the class name"@
            } else if found is StringLiteral && context is MethodDirectiveName {
                "Consider removing the quotes around the method name"@
            } else {
                "The .class directive requires a name:\n.class [access_flags] <name>"@
            },
        ),
{
}

/// Tokens after a class header: the message and label are fixed; the note
/// says that the class definition should end there, then gives advice that,
/// for a trailing `.super` or `.method`, names that very directive as it is
/// written.
pub proof fn law_trailing_tokens_texts(tokens: Vec<JasmToken>, context: TrailingTokensContext)
    ensures
        ParserError::TrailingTokens(tokens, context).spec_message() == Some("trailing characters"@),
        ParserError::TrailingTokens(tokens, context).spec_label() == Some(
            "Class headers must end after the name."@,
        ),
        tokens@.len() > 0 ==> ParserError::TrailingTokens(tokens, context).spec_note() == Some(
            "The class definition should end after the class name.\n"@ + {
                let first = tokens@[0].kind;
                if (first is DotSuper || first is DotMethod) && context is Class {
                    "Consider starting a new line for the '"@ + first.spec_display() + "' directive."@
                } else if (first is Public || first is Static) && context is Class {
                    "Access flags must appear before the class name:\n.class [access_flags] <name>"@
                } else {
                    "Unexpected tokens after class name. Consider starting a new line for the next directive."@
                }
            },
        ),
{
    reveal_strlit("Consider starting a new line for the '");
    reveal_strlit("' directive.");
    reveal_strlit(".super");
    reveal_strlit(".method");
    reveal_strlit("Consider starting a new line for the '.super' directive.");
    reveal_strlit("Consider starting a new line for the '.method' directive.");
    assert("Consider starting a new line for the '.super' directive."@ =~= "Consider starting a new line for the '"@
        + ".super"@ + "' directive."@);
    assert("Consider starting a new line for the '.method' directive."@ =~= "Consider starting a new line for the '"@
        + ".method"@ + "' directive."@);
}

/// An empty file: fixed message, label and note, located at its span.
pub proof fn law_empty_file_texts(span: Span)
    ensures
        ParserError::EmptyFile(span).spec_message() == Some("File contains no class definition"@),
        ParserError::EmptyFile(span).spec_label() == Some("The file is empty or contains only comments."@),
        ParserError::EmptyFile(span).spec_note() == Some(
            "A Java assembly file must start with a '.class' directive."@,
        ),
{
}

/// An internal error reports its description after a fixed prefix, and has
/// no label, note or location.
pub proof fn law_internal_error_texts(description: String)
    ensures
        ParserError::Internal(description).spec_message() == Some(
            "Internal parser error: "@ + description@,
        ),
        ParserError::Internal(description).spec_label() is None,
        ParserError::Internal(description).spec_note() is None,
        ParserError::Internal(description).spec_as_range() is None,
{
}

/// Which errors have their texts and location written: a token before any
/// class, an empty file and an internal error have all of them; tokens after
/// a class header have a message and label, and a note and location as soon
/// as there is one such token; a missing name has a note and location, and a
/// message and label when it is the name of a `.class`, `.super` or `.method`
/// directive.
pub proof fn law_errors_with_written_texts(
    span: Span,
    token: JasmTokenKind,
    context: IdentifierContext,
    tokens: Vec<JasmToken>,
    trailing: TrailingTokensContext,
    description: String,
)
    ensures
        ParserError::ClassDirectiveExpected(span, token).is_reportable(),
        ParserError::EmptyFile(span).is_reportable(),
        ParserError::Internal(description).is_reportable(),
        ParserError::TrailingTokens(tokens, trailing).has_message(),
        tokens@.len() > 0 ==> ParserError::TrailingTokens(tokens, trailing).is_reportable(),
        ParserError::IdentifierExpected(span, token, context).has_note(),
        ParserError::IdentifierExpected(span, token, context).has_span(),
        (context is ClassDirective || context is SuperDirective || context is MethodDirectiveName)
            ==> ParserError::IdentifierExpected(span, token, context).is_reportable(),
{
}

} // verus!
