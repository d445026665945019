//! Classifies text as truey, falsey or neither, against built-in or
//! caller-supplied term tables.

pub mod capability;
pub mod comparison;
pub mod laws;
pub mod lookup;
pub mod matcher;
pub mod terms;
pub mod text;
pub mod trimming;

pub use capability::Truthy;
pub use matcher::{string_is_falsey, string_is_truey, string_is_truthy, string_is_truthy_with};
pub use terms::{stock_term_strings, Terms};
