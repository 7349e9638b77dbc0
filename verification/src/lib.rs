//! Diagnostics of the jasm assembler: the errors and warnings that the
//! parser reports, and the texts (message, label, note) and source ranges
//! that a renderer shows for them.

pub mod diagnostic;
pub mod error;
pub mod parser;
pub mod text;
pub mod token;
pub mod warning;
