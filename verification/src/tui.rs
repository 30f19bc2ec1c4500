//! The terminal front end: its state machine and the text it shows.

pub mod app;
pub mod laws;
pub mod ui;

pub use app::{App, Screen};
