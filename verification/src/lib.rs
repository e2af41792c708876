//! A connector that exposes a remote, semi-structured tabular source as a
//! relational table through a pull-based scan protocol: a stateful cursor
//! over a row store populated by one fetch, a cell type-mapping engine, and
//! a decoder for the source's proprietary date-literal encoding.

pub mod cells;
pub mod dates;
pub mod error;
pub mod jsonsrc;
pub mod laws;
pub mod mapper;
pub mod options;
pub mod scan;
