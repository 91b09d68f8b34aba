//! Parsers that turn raw input into validated domain types.

pub mod user_name;
