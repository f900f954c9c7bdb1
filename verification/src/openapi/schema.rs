//! Schemas as values, and the words of the schema language.

pub mod types;
pub mod value;
