//! Schema inference and statistics inference for Parquet files.
//!
//! Given the decoded footers of a set of files that share a logical table,
//! this crate merges their schemas in file order and aggregates the
//! statistics embedded in each file (row counts, byte volume, per-column
//! null counts and minimum / maximum bounds) against the table's schema.
//! No column data is ever read.
//!
//! - `format`: the Parquet format, with the inference of a table's schema
//!   and of a file's statistics;
//! - `schema`: Arrow schemas, their fields and their merge;
//! - `statistics`: the statistics of a table and how a footer yields them;
//! - `metadata`: what a footer says of row groups and column chunks;
//! - `datatypes`: column types, fields, and the mapping of table columns
//!   to file columns;
//! - `scalar`: scalar values and the min and max accumulators;
//! - `reader`: the bookkeeping of the reader that feeds the footer decoder;
//! - `laws`: what holds of the results, whatever the files;
//! - `error`: the errors.

pub mod datatypes;
pub mod error;
pub mod format;
pub mod laws;
mod lookup;
pub mod metadata;
pub mod reader;
pub mod scalar;
pub mod schema;
pub mod statistics;
