pub mod error;
pub mod warning;
