//! The image formats pages are exported to.

use vstd::prelude::*;

use crate::text::str_eq;

verus! {

/// An image file format for exported pages.
#[derive(Debug, Clone, Copy, PartialEq, Eq, Structural)]
pub enum OutputFormat {
    Png,
    Jpg,
    WebP,
    Tiff,
}

/// The format a format name selects: `png`, `jpg`, `webp` and `tiff` select
/// their format; any other name, or none, selects JPEG.
pub open spec fn format_named(name: Option<Seq<char>>) -> OutputFormat {
    match name {
        Some(n) => if n == "png"@ {
            OutputFormat::Png
        } else if n == "jpg"@ {
            OutputFormat::Jpg
        } else if n == "webp"@ {
            OutputFormat::WebP
        } else if n == "tiff"@ {
            OutputFormat::Tiff
        } else {
            OutputFormat::Jpg
        },
        None => OutputFormat::Jpg,
    }
}

/// The file extension of a format.
pub open spec fn format_extension(f: OutputFormat) -> Seq<char> {
    match f {
        OutputFormat::Png => "png"@,
        OutputFormat::Jpg => "jpg"@,
        OutputFormat::WebP => "webp"@,
        OutputFormat::Tiff => "tiff"@,
    }
}

impl OutputFormat {
    /// The format selected by `name` (see [`format_named`]).
    pub fn from_name(name: Option<&str>) -> (f: OutputFormat)
        ensures
            f == format_named(match name { Some(n) => Some(n@), None => None }),
    {
        match name {
            Some(n) => if str_eq(n, "png") {
                OutputFormat::Png
            } else if str_eq(n, "jpg") {
                OutputFormat::Jpg
            } else if str_eq(n, "webp") {
                OutputFormat::WebP
            } else if str_eq(n, "tiff") {
                OutputFormat::Tiff
            } else {
                OutputFormat::Jpg
            },
            None => OutputFormat::Jpg,
        }
    }

    /// The file extension of the format.
    pub fn extension(&self) -> (e: &'static str)
        ensures
            e@ == format_extension(*self),
    {
        match self {
            OutputFormat::Png => "png",
            OutputFormat::Jpg => "jpg",
            OutputFormat::WebP => "webp",
            OutputFormat::Tiff => "tiff",
        }
    }
}

} // verus!
