//! The library's error type, its one-line description, and the friendlier
//! message that the terminal front end shows for it.

use vstd::prelude::*;

use image::ImageError;
use lcms2::Error as LcmsError;
use lopdf::Error as LopdfError;
use pdfium_render::prelude::PdfiumError;
use vstd::std_specs::convert::FromSpecImpl;



verus! {

/// `ImageError`, carried through unchanged.
#[verifier::external_type_specification]
#[verifier::external_body]
pub struct ExImageError(ImageError);

/// `std::io::Error`, carried through unchanged.
#[verifier::external_type_specification]
#[verifier::external_body]
pub struct ExIoError(std::io::Error);

/// `LopdfError`, carried through unchanged.
#[verifier::external_type_specification]
#[verifier::external_body]
pub struct ExLopdfError(LopdfError);

/// `PdfiumError`, carried through unchanged.
#[verifier::external_type_specification]
#[verifier::external_body]
pub struct ExPdfiumError(PdfiumError);

/// `LcmsError`, carried through unchanged.
#[verifier::external_type_specification]
#[verifier::external_body]
pub struct ExLcmsError(LcmsError);

/// Errors that can occur while processing PDF files.
#[derive(Debug)]
pub enum Error {
    /// Image encoding failed.
    Image(ImageError),
    /// Reading or writing a file failed.
    Io(std::io::Error),
    /// The PDF could not be parsed or manipulated.
    Pdf(LopdfError),
    /// Pdfium could not be loaded or failed to render.
    Render(PdfiumError),
    /// Colour management (Little CMS) failed.
    Color(LcmsError),
}

/// Which variant an [`Error`] is, without its payload.
#[derive(Clone, Copy, PartialEq, Eq, Debug)]
pub enum ErrorKind {
    Image,
    Io,
    Pdf,
    Render,
    Color,
}

/// The kind of an I/O failure, as far as the front end distinguishes it.
#[derive(Clone, Copy, PartialEq, Eq, Debug)]
pub enum IoFailure {
    NotFound,
    PermissionDenied,
    Other,
}

pub type Result<T> = core::result::Result<T, Error>;

/// The variant of `e`.
pub open spec fn kind_of(e: &Error) -> ErrorKind {
    match e {
        Error::Image(_) => ErrorKind::Image,
        Error::Io(_) => ErrorKind::Io,
        Error::Pdf(_) => ErrorKind::Pdf,
        Error::Render(_) => ErrorKind::Render,
        Error::Color(_) => ErrorKind::Color,
    }
}

/// The I/O failure class of `e`: that of the wrapped I/O error, `Other` for the
/// other variants.
pub open spec fn io_class_of(e: &Error) -> IoFailure {
    match e {
        Error::Io(ioe) => io_class(*ioe),
        _ => IoFailure::Other,
    }
}

/// The prefix with which an error of the given kind is described.
pub open spec fn description_prefix(kind: ErrorKind) -> Seq<char> {
    match kind {
        ErrorKind::Image => "image error: "@,
        ErrorKind::Io => "I/O error: "@,
        ErrorKind::Pdf => "PDF error: "@,
        ErrorKind::Render => "Render error: "@,
        ErrorKind::Color => "Color error: "@,
    }
}

/// The one-line description of an error of the given kind whose cause reads `detail`.
pub open spec fn description(kind: ErrorKind, detail: Seq<char>) -> Seq<char> {
    description_prefix(kind) + detail
}

/// The lead-in of the front end's message for an error of the given kind.
pub open spec fn friendly_prefix(kind: ErrorKind, io: IoFailure) -> Seq<char> {
    match kind {
        ErrorKind::Io => match io {
            IoFailure::NotFound => "File not found: "@,
            IoFailure::PermissionDenied => "Permission denied: "@,
            IoFailure::Other => "I/O error: "@,
        },
        ErrorKind::Render => "Render failed - Pdfium library not found or failed to initialize.\nPlace pdfium.dll (or MAC OS: libpdfium.dylib) in the executable directory.\nDetails: "@,
        ErrorKind::Pdf => "Failed to parse PDF \u{2014} the file may be corrupted or password-protected.\n\nDetails: "@,
        ErrorKind::Image => "Image encoding failed: "@,
        ErrorKind::Color => "Color conversion failed: "@,
    }
}

/// The front end's message for an error of the given kind and description.
pub open spec fn friendly_text(kind: ErrorKind, io: IoFailure, described: Seq<char>) -> Seq<char> {
    friendly_prefix(kind, io) + described
}

/// The class of an I/O error, by what `std::io::Error::kind` reports of it:
/// `NotFound`, `PermissionDenied`, or `Other` for every other kind.
pub uninterp spec fn io_class(e: std::io::Error) -> IoFailure;

/// How `std::io::Error::kind` classifies the error, reduced to the three cases the
/// front end tells apart. The kind depends on the error value alone, so the class
/// is named (`io_class`); which kind a given error has is not stated.
#[verifier::external_body]
fn io_failure(e: &std::io::Error) -> (f: IoFailure)
    ensures
        f == io_class(*e),
{
    match e.kind() {
        std::io::ErrorKind::NotFound => IoFailure::NotFound,
        std::io::ErrorKind::PermissionDenied => IoFailure::PermissionDenied,
        _ => IoFailure::Other,
    }
}

/// The `Display` text of an `ImageError`. Its content is not stated.
#[verifier::external_body]
fn image_error_text(e: &ImageError) -> String {
    format!("{}", e)
}

/// The `Display` text of a `std::io::Error`. Its content is not stated.
#[verifier::external_body]
fn io_error_text(e: &std::io::Error) -> String {
    format!("{}", e)
}

/// The `Display` text of a `LopdfError`. Its content is not stated.
#[verifier::external_body]
fn lopdf_error_text(e: &LopdfError) -> String {
    format!("{}", e)
}

/// The `Display` text of a `PdfiumError`. Its content is not stated.
#[verifier::external_body]
fn pdfium_error_text(e: &PdfiumError) -> String {
    format!("{}", e)
}

/// The `Display` text of an `LcmsError`. Its content is not stated.
#[verifier::external_body]
fn lcms_error_text(e: &LcmsError) -> String {
    format!("{}", e)
}

/// Appends the characters of `t` to `s`.
pub fn append_str(s: &mut String, t: &str)
    ensures
        final(s)@ == old(s)@ + t@,
{
    s.append(t);
}

/// The one-line description of an error of kind `kind` whose cause reads `detail`.
pub fn describe_kind(kind: ErrorKind, detail: &str) -> (r: String)
    ensures
        r@ == description(kind, detail@),
{
    let mut r = match kind {
        ErrorKind::Image => String::from_str("image error: "),
        ErrorKind::Io => String::from_str("I/O error: "),
        ErrorKind::Pdf => String::from_str("PDF error: "),
        ErrorKind::Render => String::from_str("Render error: "),
        ErrorKind::Color => String::from_str("Color error: "),
    };
    append_str(&mut r, detail);
    r
}

/// The front end's message for an error of kind `kind` (and, for I/O errors,
/// of failure `io`) whose description is `described`.
pub fn friendly_message(kind: ErrorKind, io: IoFailure, described: &str) -> (r: String)
    ensures
        r@ == friendly_text(kind, io, described@),
{
    let mut r = match kind {
        ErrorKind::Io => match io {
            IoFailure::NotFound => String::from_str("File not found: "),
            IoFailure::PermissionDenied => String::from_str("Permission denied: "),
            IoFailure::Other => String::from_str("I/O error: "),
        },
        ErrorKind::Render => String::from_str(
            "Render failed - Pdfium library not found or failed to initialize.\nPlace pdfium.dll (or MAC OS: libpdfium.dylib) in the executable directory.\nDetails: ",
        ),
        ErrorKind::Pdf => String::from_str(
            "Failed to parse PDF \u{2014} the file may be corrupted or password-protected.\n\nDetails: ",
        ),
        ErrorKind::Image => String::from_str("Image encoding failed: "),
        ErrorKind::Color => String::from_str("Color conversion failed: "),
    };
    append_str(&mut r, described);
    r
}

impl Error {
    /// The variant of this error.
    pub fn kind(&self) -> (k: ErrorKind)
        ensures
            k == kind_of(self),
    {
        match self {
            Error::Image(_) => ErrorKind::Image,
            Error::Io(_) => ErrorKind::Io,
            Error::Pdf(_) => ErrorKind::Pdf,
            Error::Render(_) => ErrorKind::Render,
            Error::Color(_) => ErrorKind::Color,
        }
    }

    /// The one-line description of this error: a prefix naming its variant,
    /// followed by the description of its cause.
    pub fn describe(&self) -> (r: String)
        ensures
            exists|detail: Seq<char>| r@ == description(kind_of(self), detail),
    {
        let detail = match self {
            Error::Image(e) => image_error_text(e),
            Error::Io(e) => io_error_text(e),
            Error::Pdf(e) => lopdf_error_text(e),
            Error::Render(e) => pdfium_error_text(e),
            Error::Color(e) => lcms_error_text(e),
        };
        let r = describe_kind(self.kind(), detail.as_str());
        assert(r@ == description(kind_of(self), detail@));
        r
    }

    /// The I/O failure class of an I/O error; `Other` for the other variants.
    pub fn io_failure(&self) -> (f: IoFailure)
        ensures
            f == io_class_of(self),
    {
        match self {
            Error::Io(e) => io_failure(e),
            _ => IoFailure::Other,
        }
    }
}

/// The message the front end shows for `e`: a lead-in chosen by the error's
/// variant (and, for I/O errors, by its failure class), then its description.
pub fn friendly_error(e: Error) -> (r: String)
    ensures
        exists|described: Seq<char>|
            r@ == friendly_text(kind_of(&e), io_class_of(&e), described)
                && exists|detail: Seq<char>| described == description(kind_of(&e), detail),
{
    let kind = e.kind();
    let io = e.io_failure();
    let described = e.describe();
    friendly_message(kind, io, described.as_str())
}

impl From<ImageError> for Error {
    fn from(err: ImageError) -> (e: Error)
        ensures
            e == Error::Image(err),
    {
        Error::Image(err)
    }
}

impl FromSpecImpl<ImageError> for Error {
    open spec fn obeys_from_spec() -> bool {
        true
    }

    open spec fn from_spec(v: ImageError) -> Error {
        Error::Image(v)
    }
}

impl From<std::io::Error> for Error {
    fn from(err: std::io::Error) -> (e: Error)
        ensures
            e == Error::Io(err),
    {
        Error::Io(err)
    }
}

impl FromSpecImpl<std::io::Error> for Error {
    open spec fn obeys_from_spec() -> bool {
        true
    }

    open spec fn from_spec(v: std::io::Error) -> Error {
        Error::Io(v)
    }
}

impl From<LopdfError> for Error {
    fn from(err: LopdfError) -> (e: Error)
        ensures
            e == Error::Pdf(err),
    {
        Error::Pdf(err)
    }
}

impl FromSpecImpl<LopdfError> for Error {
    open spec fn obeys_from_spec() -> bool {
        true
    }

    open spec fn from_spec(v: LopdfError) -> Error {
        Error::Pdf(v)
    }
}

impl From<PdfiumError> for Error {
    fn from(err: PdfiumError) -> (e: Error)
        ensures
            e == Error::Render(err),
    {
        Error::Render(err)
    }
}

impl FromSpecImpl<PdfiumError> for Error {
    open spec fn obeys_from_spec() -> bool {
        true
    }

    open spec fn from_spec(v: PdfiumError) -> Error {
        Error::Render(v)
    }
}

impl From<LcmsError> for Error {
    fn from(err: LcmsError) -> (e: Error)
        ensures
            e == Error::Color(err),
    {
        Error::Color(err)
    }
}

impl FromSpecImpl<LcmsError> for Error {
    open spec fn obeys_from_spec() -> bool {
        true
    }

    open spec fn from_spec(v: LcmsError) -> Error {
        Error::Color(v)
    }
}

} // verus!
