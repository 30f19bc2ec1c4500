//! Page geometry.

pub mod boxes;

pub use boxes::PageBoxes;
