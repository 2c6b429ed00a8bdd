//! A small command-line task tracker backed by a local SQLite store.
//!
//! The library owns the task table's SQL text, the validation of numeric
//! arguments, and the formatting of every line the program prints; all of
//! that is verified. The SQLite calls themselves go through thin trusted
//! wrappers around `rusqlite`.

pub mod db;
pub mod format;
pub mod num;
pub mod query;
pub mod store;
