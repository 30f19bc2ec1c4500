use std::io;

use rustybara::error::{friendly_error, ErrorKind, IoFailure};
use rustybara::Error;

#[test]
fn io_errors_are_described_and_explained() {
    let e = Error::Io(io::Error::new(io::ErrorKind::NotFound, "gone"));
    assert_eq!(e.kind(), ErrorKind::Io);
    assert_eq!(e.io_failure(), IoFailure::NotFound);
    assert_eq!(e.describe(), "I/O error: gone");
    assert_eq!(friendly_error(e), "File not found: I/O error: gone");

    let denied = Error::Io(io::Error::new(io::ErrorKind::PermissionDenied, "locked"));
    assert_eq!(friendly_error(denied), "Permission denied: I/O error: locked");

    let other = Error::Io(io::Error::new(io::ErrorKind::Other, "boom"));
    assert_eq!(friendly_error(other), "I/O error: I/O error: boom");
}

#[test]
fn pdf_errors_are_explained() {
    let e = Error::Pdf(lopdf::Error::CharacterEncoding);
    assert_eq!(e.kind(), ErrorKind::Pdf);
    assert_eq!(e.io_failure(), IoFailure::Other);
    assert_eq!(e.describe(), "PDF error: invalid character encoding");
    assert_eq!(
        friendly_error(e),
        "Failed to parse PDF \u{2014} the file may be corrupted or password-protected.\n\nDetails: PDF error: invalid character encoding"
    );
}

#[test]
fn color_errors_are_explained() {
    let e = Error::Color(lcms2::Error::MissingData);
    assert_eq!(e.describe(), "Color error: Requested data is empty or does not exist.");
    assert_eq!(
        friendly_error(e),
        "Color conversion failed: Color error: Requested data is empty or does not exist."
    );
}

#[test]
fn render_errors_are_explained() {
    let e = Error::Render(pdfium_render::prelude::PdfiumError::PageIndexOutOfBounds);
    assert_eq!(e.kind(), ErrorKind::Render);
    let text = friendly_error(e);
    assert!(text.starts_with(
        "Render failed - Pdfium library not found or failed to initialize.\nPlace pdfium.dll (or MAC OS: libpdfium.dylib) in the executable directory.\nDetails: Render error: "
    ));
}

#[test]
fn conversions_pick_the_variant() {
    let e: Error = io::Error::new(io::ErrorKind::NotFound, "x").into();
    assert_eq!(e.kind(), ErrorKind::Io);
    let e: Error = lopdf::Error::CharacterEncoding.into();
    assert_eq!(e.kind(), ErrorKind::Pdf);
    let e: Error = lcms2::Error::InvalidString.into();
    assert_eq!(e.kind(), ErrorKind::Color);
}
