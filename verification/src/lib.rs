//! Extraction of one capture group from every value of a text column, as a
//! scalar function for DataFusion.
//!
//! A null value stays null. A present value gives the text that the chosen
//! group captured in the first match of the pattern, or the empty text where
//! the pattern does not match, the group does not exist, or the group took no
//! part in the match.
//!
//! The rule for one value is in [`engine`], the pass over a column in
//! [`column`], the check of the three arguments in [`adapter`], and the
//! registration with the engine in [`host`]. What is taken on trust from the
//! `regex` crate is in [`matcher`], from Arrow in [`batch`], from DataFusion
//! in [`host`]. [`laws`] proves what holds of every call.
pub mod adapter;
pub mod batch;
pub mod column;
pub mod engine;
pub mod error;
pub mod host;
pub mod laws;
pub mod matcher;
pub mod text;

pub use adapter::{apply, declaration, Argument, ScalarFunction, ValueKind, Volatility};
pub use batch::TextColumn;
pub use column::{compile, extract_column, extract_each, pattern_error, regexp_extract};
pub use engine::{extract, extracted};
pub use error::{Expected, ExtractError};
pub use host::{create_regexp_extract, invoke};
