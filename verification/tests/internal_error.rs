use jasm::error::JasmError;

const EXPECTED: &str = "\n!!!!!!!!!!!!!!!!!!!!!!!!!!!!!!!!!!!!!!!!!!!!!!!!!!!\n!            INTERNAL ASSEMBLER ERROR             !\n!!!!!!!!!!!!!!!!!!!!!!!!!!!!!!!!!!!!!!!!!!!!!!!!!!!\n\nThis is a bug in the jasm assembler.\nPlease report it at: https://github.com/Obito-git/lagertha-vm/issues\n\nDetails: unexpected state in parser";

#[test]
fn diagnostic_test_format_internal_error() {
    let output = jasm::diagnostic::JasmError::format_internal_error("unexpected state in parser");
    assert_eq!(output, EXPECTED);
}

#[test]
fn error_test_format_internal_error() {
    let output = JasmError::format_internal_error("unexpected state in parser");
    assert_eq!(output, EXPECTED);
}

#[test]
fn internal_error_report_ends_with_details() {
    let output = JasmError::format_internal_error("");
    assert!(output.ends_with("\nDetails: "));
    assert!(output.starts_with("\n!!!"));
    assert_eq!(output.lines().count(), 9);
}

#[test]
fn internal_error_report_keeps_multiline_details() {
    let output = JasmError::format_internal_error("a\nb");
    assert!(output.ends_with("Details: a\nb"));
}
