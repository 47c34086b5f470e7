//! Recursive search of a directory tree for entries whose name or textual
//! content matches a query, with every decision of the pipeline stated as a
//! contract over plain mathematical values.
//!
//! The library never touches the file system itself. A caller walks the tree,
//! describes each node as an [`utils::Entry`], and hands the entries in; the
//! library selects, classifies, scans and aggregates.

pub mod cli;
pub mod display;
pub mod pattern;
pub mod search;
pub mod text;
pub mod utils;
