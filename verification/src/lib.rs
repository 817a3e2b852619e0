//! Import of tabular score-event files into a relational store.
//!
//! The crate holds the rules of the import: how a file's name yields its
//! date, which header row a file must carry, how the header and detail
//! entities pass from draft to persisted, and which step of a file's import
//! follows which. Talking to the store and reading files is left to the
//! program built on top of it.

pub mod error;
pub mod time;
pub mod card;
pub mod codec;
pub mod schema;
pub mod detail;
pub mod cfg;
pub mod db;
pub mod pipeline;
pub mod store;
pub mod replay;
