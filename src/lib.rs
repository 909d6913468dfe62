//! A directory listing library: decides which entries are shown, turns their
//! metadata into display text, and lays the results out as a grid, a bordered
//! table or an indented tree.
pub mod branches;
pub mod entry;
pub mod formatter;
pub mod options;
pub mod print;
pub mod table;
pub mod text;
pub mod traversal;

pub use text::{decimal, decimal_string, digit_char};
