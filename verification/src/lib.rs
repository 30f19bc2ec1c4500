//! Prepress PDF toolkit: the verified core of a PDF trimming, bleed-resizing,
//! image-export and colour-inspection tool, together with the state machine of
//! its terminal front end.

pub mod color;
pub mod encode;
pub mod error;
pub mod pages;
pub mod pdf;
pub mod pipeline;
pub mod process;
pub mod stream;
pub mod text;
pub mod tui;

pub use error::{Error, Result};
