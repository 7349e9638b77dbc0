use jasm::error::{JasmDiagnostic, JasmError};
use jasm::parser::error::{IdentifierContext, ParserError, TrailingTokensContext};
use jasm::parser::warning::ParserWarning;
use jasm::text::{decimal, join, signed_decimal};
use jasm::token::{JasmToken, JasmTokenKind, Span};
use jasm::warning::JasmWarning;

fn tok(kind: JasmTokenKind, start: usize, end: usize) -> JasmToken {
    JasmToken { kind, span: Span::new(start, end) }
}

#[test]
fn diagnostic_getters_return_what_new_was_given() {
    let d = JasmDiagnostic::new(
        "msg".to_string(),
        3..7,
        vec![(4..5, "here".to_string())],
        Some("a note".to_string()),
    );
    assert_eq!(d.message(), "msg");
    assert_eq!(*d.primary_location(), 3..7);
    assert_eq!(d.note(), Some("a note"));
    assert_eq!(d.labels(), &vec![(4..5, "here".to_string())]);
    let copy = d.clone();
    assert_eq!(copy, d);
    let none = JasmDiagnostic::new(String::new(), 0..0, vec![], None);
    assert_eq!(none.note(), None);
    assert!(none.labels().is_empty());
}

#[test]
fn warning_getters_return_what_new_was_given() {
    let w = JasmWarning::new("w".to_string(), Some(1..2), Some("n".to_string()), Some("l".to_string()));
    assert_eq!(w.message(), "w");
    assert_eq!(w.range(), Some(&(1..2)));
    assert_eq!(w.note(), Some("n"));
    assert_eq!(w.label(), Some("l"));
    assert_eq!(w.clone(), w);
    let bare = JasmWarning::new("x".to_string(), None, None, None);
    assert_eq!(bare.range(), None);
    assert_eq!(bare.note(), None);
    assert_eq!(bare.label(), None);
}

#[test]
fn class_directive_expected_texts() {
    let e = ParserError::ClassDirectiveExpected(Span::new(0, 7), JasmTokenKind::DotMethod);
    assert_eq!(e.message().unwrap(), "Unexpected directive before class definition");
    assert_eq!(
        e.label().unwrap(),
        "The '.method' directive is only allowed inside a class definition."
    );
    assert_eq!(e.note().unwrap(), "Define a class first using '.class [access_flags] <name>'.");
    assert_eq!(e.as_range(), Some(0..7));

    let e = ParserError::ClassDirectiveExpected(Span::new(2, 4), JasmTokenKind::DotCode);
    assert_eq!(
        e.label().unwrap(),
        "The '.code' directive is only allowed inside a method definition."
    );
    assert_eq!(
        e.note().unwrap(),
        "Define a method first using '.method [access_flags] <name> <descriptor>'."
    );

    let e = ParserError::ClassDirectiveExpected(Span::new(2, 4), JasmTokenKind::DotEnd);
    assert_eq!(e.label().unwrap(), "The '.end' directive has no matching start directive.");

    let e = ParserError::ClassDirectiveExpected(Span::new(5, 8), JasmTokenKind::Integer(-42));
    assert_eq!(e.message().unwrap(), "Unexpected integer before class definition");
    assert_eq!(e.label().unwrap(), "The '-42' integer must appear inside a class definition.");
    assert_eq!(
        e.note().unwrap(),
        "Integer literals are typically used as instruction arguments inside '.code' blocks."
    );

    let e = ParserError::ClassDirectiveExpected(
        Span::new(0, 5),
        JasmTokenKind::StringLiteral("hi".to_string()),
    );
    assert_eq!(e.label().unwrap(), "The '\"hi\"' string literal must appear inside a class definition.");

    let e = ParserError::ClassDirectiveExpected(Span::new(0, 6), JasmTokenKind::Public);
    assert_eq!(e.message().unwrap(), "Unexpected keyword before class definition");
    assert_eq!(
        e.note().unwrap(),
        "Keywords like 'public' and 'static' are access modifiers that must appear within '.class' or '.method' directives."
    );

    let e = ParserError::ClassDirectiveExpected(Span::new(0, 6), JasmTokenKind::DotClass);
    assert_eq!(
        e.note().unwrap(),
        "All assembly code must be placed inside a class definition starting with '.class'."
    );
}

#[test]
fn trailing_tokens_texts_and_span() {
    let tokens = vec![tok(JasmTokenKind::DotSuper, 10, 16), tok(JasmTokenKind::Identifier("Foo".to_string()), 17, 20)];
    let e = ParserError::TrailingTokens(tokens, TrailingTokensContext::Class);
    assert_eq!(e.message().unwrap(), "trailing characters");
    assert_eq!(e.label().unwrap(), "Class headers must end after the name.");
    assert_eq!(
        e.note().unwrap(),
        "The class definition should end after the class name.\nConsider starting a new line for the '.super' directive."
    );
    assert_eq!(e.span(), Some(Span::new(10, 20)));
    assert_eq!(e.as_range(), Some(10..20));

    let e = ParserError::TrailingTokens(vec![tok(JasmTokenKind::Static, 1, 2)], TrailingTokensContext::Class);
    assert_eq!(
        e.note().unwrap(),
        "The class definition should end after the class name.\nAccess flags must appear before the class name:\n.class [access_flags] <name>"
    );
    let e = ParserError::TrailingTokens(vec![tok(JasmTokenKind::DotSuper, 1, 2)], TrailingTokensContext::Method);
    assert_eq!(
        e.note().unwrap(),
        "The class definition should end after the class name.\nUnexpected tokens after class name. Consider starting a new line for the next directive."
    );
}

#[test]
fn identifier_expected_texts() {
    let e = ParserError::IdentifierExpected(
        Span::new(7, 12),
        JasmTokenKind::StringLiteral("Foo".to_string()),
        IdentifierContext::ClassDirective,
    );
    assert_eq!(e.message().unwrap(), "incomplete class definition");
    assert_eq!(
        e.label().unwrap(),
        "The .class directive requires a class name after the access flags."
    );
    assert_eq!(e.note().unwrap(), "Consider removing the quotes around the class name");

    let e = ParserError::IdentifierExpected(
        Span::new(7, 12),
        JasmTokenKind::StringLiteral("m".to_string()),
        IdentifierContext::MethodDirectiveName,
    );
    assert_eq!(e.message().unwrap(), "incomplete .method directive");
    assert_eq!(e.note().unwrap(), "Consider removing the quotes around the method name");

    let e = ParserError::IdentifierExpected(Span::new(1, 2), JasmTokenKind::DotEnd, IdentifierContext::SuperDirective);
    assert_eq!(e.message().unwrap(), "incomplete .super directive");
    assert_eq!(e.label().unwrap(), "The .super directive requires a superclass name.");
    assert_eq!(e.note().unwrap(), "The .class directive requires a name:\n.class [access_flags] <name>");
}

#[test]
fn empty_file_and_internal_texts() {
    let e = ParserError::EmptyFile(Span::new(0, 0));
    assert_eq!(e.message().unwrap(), "File contains no class definition");
    assert_eq!(e.label().unwrap(), "The file is empty or contains only comments.");
    assert_eq!(e.note().unwrap(), "A Java assembly file must start with a '.class' directive.");
    assert_eq!(e.as_range(), Some(0..0));

    let e = ParserError::Internal("boom".to_string());
    assert_eq!(e.message().unwrap(), "Internal parser error: boom");
    assert_eq!(e.label(), None);
    assert_eq!(e.note(), None);
    assert_eq!(e.as_range(), None);
}

#[test]
fn parser_error_becomes_diagnostic() {
    let e = ParserError::ClassDirectiveExpected(Span::new(3, 9), JasmTokenKind::DotSuper);
    match e.into_jasm_error() {
        JasmError::Diagnostic(d) => {
            assert_eq!(d.message(), "Unexpected directive before class definition");
            assert_eq!(*d.primary_location(), 3..9);
            assert_eq!(
                d.labels(),
                &vec![(3..9, "The '.super' directive is only allowed inside a class definition.".to_string())]
            );
            assert_eq!(d.note(), Some("Define a class first using '.class [access_flags] <name>'."));
        }
        JasmError::Internal(_) => panic!("expected a diagnostic"),
    }
}

#[test]
fn internal_parser_error_stays_internal() {
    match ParserError::Internal("bad state".to_string()).into_jasm_error() {
        JasmError::Internal(msg) => assert_eq!(msg, "bad state"),
        JasmError::Diagnostic(_) => panic!("expected an internal error"),
    }
}

#[test]
fn parser_warning_texts_and_conversion() {
    let w = ParserWarning::MissingSuperClass {
        class_name: "Foo".to_string(),
        class_directive_pos: Span::new(0, 10),
        default: "java/lang/Object",
    };
    assert_eq!(w.message(), "missing super directive");
    assert_eq!(w.labels(), vec![(0..10, "Class Foo is missing a superclass directive".to_string())]);
    assert_eq!(
        w.note(),
        "The .super directive is required to specify the superclass. Defaulting to java/lang/Object."
    );
    assert_eq!(w.primary_location(), 0..10);

    let warning = JasmWarning::from(w);
    assert_eq!(warning.message(), "missing super directive");
    assert_eq!(warning.range(), Some(&(0..10)));
    assert_eq!(warning.label(), Some("Class Foo is missing a superclass directive"));
    assert_eq!(
        warning.note(),
        Some("The .super directive is required to specify the superclass. Defaulting to java/lang/Object.")
    );
}

#[test]
fn token_texts() {
    assert_eq!(JasmTokenKind::DotClass.display_text(), ".class");
    assert_eq!(JasmTokenKind::Identifier("abc".to_string()).display_text(), "abc");
    assert_eq!(JasmTokenKind::MethodDescriptor("()V".to_string()).display_text(), "()V");
    assert_eq!(JasmTokenKind::Integer(0).display_text(), "0");
    assert_eq!(JasmTokenKind::Integer(i32::MIN).display_text(), "-2147483648");
    assert_eq!(JasmTokenKind::Integer(i32::MAX).display_text(), "2147483647");
    assert_eq!(JasmTokenKind::DotEnd.as_string_token_type(), "directive");
    assert_eq!(JasmTokenKind::Static.as_string_token_type(), "keyword");
    assert_eq!(JasmTokenKind::Identifier(String::new()).as_string_token_type(), "identifier");
    assert_eq!(JasmTokenKind::MethodDescriptor(String::new()).as_string_token_type(), "method descriptor");
    assert_eq!(Span::new(4, 9).as_range(), 4..9);
}

#[test]
fn numerals_and_joining() {
    assert_eq!(decimal(0), "0");
    assert_eq!(decimal(10), "10");
    assert_eq!(decimal(u32::MAX), "4294967295");
    assert_eq!(signed_decimal(-7), "-7");
    assert_eq!(join(&[], ","), "");
    assert_eq!(join(&["a"], ","), "a");
    assert_eq!(join(&["a", "", "b"], ", "), "a, , b");
}
