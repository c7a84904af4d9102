//! Inspects the catalog of a SQLite database and renders its structure —
//! tables, columns, and foreign-key relationships — as a Graphviz DOT graph.
//!
//! The crate has two halves, run strictly in sequence: a loader that reads
//! the catalog through a live connection into an in-memory [`Schema`], and a
//! renderer that is a pure function from a [`Schema`] to DOT text.

pub mod catalog;
pub mod error;
pub mod load;
pub mod model;
pub mod render;

pub use error::LoadError;
pub use model::{Column, ForeignKey, Schema, Table};
