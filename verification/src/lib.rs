//! Small utilities: a cell that holds a shared `Arc` value, the pure
//! formatting logic of a colored log line, and the decoding of `statx` results.

pub mod arc_cell;
pub mod logflex;
pub mod statx;
pub mod text;

pub use arc_cell::ArcCell;
