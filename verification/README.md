# jasm diagnostics

The errors and warnings of the jasm assembler, with the texts (message,
label, note) and source ranges that a renderer shows for them, verified
with Verus.

- `src/token.rs`: spans and token kinds, and how a token is shown.
- `src/text.rs`: joining lines, decimal numerals, views of optional strings.
- `src/error.rs`: `JasmDiagnostic`, `JasmError`, the internal-error report.
- `src/warning.rs`: `JasmWarning`.
- `src/diagnostic.rs`: `Severity`, the `Diagnostic` trait, and an error type
  that carries any diagnostic.
- `src/parser/`: the parser's errors and warnings, their texts, and their
  conversion into the assembler's errors and warnings.
- `app/`: printing of diagnostics on standard error with `ariadne`.
