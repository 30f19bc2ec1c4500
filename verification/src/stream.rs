//! Content-stream analysis and rewriting.

pub mod color_ops;
