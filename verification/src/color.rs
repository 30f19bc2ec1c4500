//! Colour management.

pub mod icc;
