//! Validated domain types for user data.
//!
//! A [`parser::user_name::UserName`] can only be obtained by parsing, and
//! parsing only succeeds on text that satisfies every naming rule. The rules
//! are stated once, as specification functions, and the executable code is
//! proved to follow them.

pub mod errors;
pub mod graphemes;
pub mod parser;
pub mod whitespace;
