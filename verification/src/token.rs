//! Tokens of jasm source text, as far as the diagnostics read them: a span of
//! byte offsets, the kind of a token, and how a token is shown to the user.
use crate::text::{signed_decimal, signed_decimal_text};
use std::ops::Range;
use vstd::prelude::*;

verus! {

/// A region of the source, from byte offset `start` up to (not including) `end`.
#[derive(Debug, Clone, Copy, PartialEq, Eq, Structural)]
pub struct Span {
    pub start: usize,
    pub end: usize,
}

impl Span {
    pub fn new(start: usize, end: usize) -> (span: Span)
        ensures
            span.start == start,
            span.end == end,
    {
        Span { start, end }
    }

    /// The span as a range of byte offsets.
    pub open spec fn spec_range(self) -> Range<usize> {
        Range { start: self.start, end: self.end }
    }

    pub fn as_range(&self) -> (range: Range<usize>)
        ensures
            range == self.spec_range(),
    {
        Range { start: self.start, end: self.end }
    }
}

/// The kinds of tokens of the jasm language that diagnostics tell apart.
#[derive(Debug, Clone, PartialEq, Eq)]
pub enum JasmTokenKind {
    DotClass,
    DotSuper,
    DotMethod,
    DotCode,
    DotEnd,
    Public,
    Static,
    Identifier(String),
    Integer(i32),
    StringLiteral(String),
    MethodDescriptor(String),
}

/// A token of the source and where it stands.
#[derive(Debug, Clone, PartialEq, Eq)]
pub struct JasmToken {
    pub kind: JasmTokenKind,
    pub span: Span,
}

impl JasmTokenKind {
    /// How the token is written in the source.
    pub open spec fn spec_display(&self) -> Seq<char> {
        match self {
            JasmTokenKind::DotClass => ".class"@,
            JasmTokenKind::DotSuper => ".super"@,
            JasmTokenKind::DotMethod => ".method"@,
            JasmTokenKind::DotCode => ".code"@,
            JasmTokenKind::DotEnd => ".end"@,
            JasmTokenKind::Public => "public"@,
            JasmTokenKind::Static => "static"@,
            JasmTokenKind::Identifier(name) => name@,
            JasmTokenKind::Integer(value) => signed_decimal_text(*value as int),
            JasmTokenKind::StringLiteral(value) => "\""@ + value@ + "\""@,
            JasmTokenKind::MethodDescriptor(descriptor) => descriptor@,
        }
    }

    /// The name of the token's category, as a diagnostic calls it.
    pub open spec fn spec_token_type(&self) -> Seq<char> {
        match self {
            JasmTokenKind::DotClass => "directive"@,
            JasmTokenKind::DotSuper => "directive"@,
            JasmTokenKind::DotMethod => "directive"@,
            JasmTokenKind::DotCode => "directive"@,
            JasmTokenKind::DotEnd => "directive"@,
            JasmTokenKind::Public => "keyword"@,
            JasmTokenKind::Static => "keyword"@,
            JasmTokenKind::Identifier(_) => "identifier"@,
            JasmTokenKind::Integer(_) => "integer"@,
            JasmTokenKind::StringLiteral(_) => "string literal"@,
            JasmTokenKind::MethodDescriptor(_) => "method descriptor"@,
        }
    }

    /// The token as it is written in the source.
    pub fn display_text(&self) -> (text: String)
        ensures
            text@ == self.spec_display(),
    {
        match self {
            JasmTokenKind::DotClass => String::from_str(".class"),
            JasmTokenKind::DotSuper => String::from_str(".super"),
            JasmTokenKind::DotMethod => String::from_str(".method"),
            JasmTokenKind::DotCode => String::from_str(".code"),
            JasmTokenKind::DotEnd => String::from_str(".end"),
            JasmTokenKind::Public => String::from_str("public"),
            JasmTokenKind::Static => String::from_str("static"),
            JasmTokenKind::Identifier(name) => String::from_str(name.as_str()),
            JasmTokenKind::Integer(value) => signed_decimal(*value),
            JasmTokenKind::StringLiteral(value) => {
                let mut text = String::from_str("\"");
                text.append(value.as_str());
                text.append("\"");
                text
            },
            JasmTokenKind::MethodDescriptor(descriptor) => String::from_str(descriptor.as_str()),
        }
    }

    /// The name of the token's category.
    pub fn as_string_token_type(&self) -> (name: &'static str)
        ensures
            name@ == self.spec_token_type(),
    {
        match self {
            JasmTokenKind::DotClass => "directive",
            JasmTokenKind::DotSuper => "directive",
            JasmTokenKind::DotMethod => "directive",
            JasmTokenKind::DotCode => "directive",
            JasmTokenKind::DotEnd => "directive",
            JasmTokenKind::Public => "keyword",
            JasmTokenKind::Static => "keyword",
            JasmTokenKind::Identifier(_) => "identifier",
            JasmTokenKind::Integer(_) => "integer",
            JasmTokenKind::StringLiteral(_) => "string literal",
            JasmTokenKind::MethodDescriptor(_) => "method descriptor",
        }
    }
}

/// Each kind of token belongs to one category: the dot-directives are
/// directives, `public` and `static` keywords, and every name, number, quoted
/// text or descriptor is an identifier, integer, string literal or method
/// descriptor whatever it holds.
pub proof fn law_token_categories(text: String, value: i32)
    ensures
        JasmTokenKind::DotClass.spec_token_type() == "directive"@,
        JasmTokenKind::DotSuper.spec_token_type() == "directive"@,
        JasmTokenKind::DotMethod.spec_token_type() == "directive"@,
        JasmTokenKind::DotCode.spec_token_type() == "directive"@,
        JasmTokenKind::DotEnd.spec_token_type() == "directive"@,
        JasmTokenKind::Public.spec_token_type() == "keyword"@,
        JasmTokenKind::Static.spec_token_type() == "keyword"@,
        JasmTokenKind::Identifier(text).spec_token_type() == "identifier"@,
        JasmTokenKind::Integer(value).spec_token_type() == "integer"@,
        JasmTokenKind::StringLiteral(text).spec_token_type() == "string literal"@,
        JasmTokenKind::MethodDescriptor(text).spec_token_type() == "method descriptor"@,
{
}

/// A token is shown as it is written: a directive with its dot, a keyword
/// as is, a name or descriptor verbatim, a string literal between double
/// quotes, and an integer as its signed decimal numeral.
pub proof fn law_token_display(text: String, value: i32)
    ensures
        JasmTokenKind::DotClass.spec_display() == ".class"@,
        JasmTokenKind::DotSuper.spec_display() == ".super"@,
        JasmTokenKind::DotMethod.spec_display() == ".method"@,
        JasmTokenKind::DotCode.spec_display() == ".code"@,
        JasmTokenKind::DotEnd.spec_display() == ".end"@,
        JasmTokenKind::Public.spec_display() == "public"@,
        JasmTokenKind::Static.spec_display() == "static"@,
        JasmTokenKind::Identifier(text).spec_display() == text@,
        JasmTokenKind::MethodDescriptor(text).spec_display() == text@,
        JasmTokenKind::StringLiteral(text).spec_display() == seq!['"'] + text@ + seq!['"'],
        JasmTokenKind::Integer(value).spec_display() == signed_decimal_text(value as int),
{
    reveal_strlit("\"");
}

/// A span's range starts and ends where the span does.
pub proof fn law_span_range(start: usize, end: usize)
    ensures
        (Span { start, end }).spec_range().start == start,
        (Span { start, end }).spec_range().end == end,
{
}

} // verus!
