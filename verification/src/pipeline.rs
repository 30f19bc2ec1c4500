//! A PDF document being processed step by step.

use vstd::prelude::*;

use lopdf::Document;

use crate::error::{Error, Result};
use crate::pdf::{document_pages, page_ids, parse_document, parses, serialization, serialize_document};

verus! {

/// A pipeline for processing one PDF document.
pub struct PdfPipeline {
    doc: Document,
}

impl PdfPipeline {
    /// The document the pipeline holds.
    pub closed spec fn doc(&self) -> Document {
        self.doc
    }

    /// The number of pages of the held document.
    pub open spec fn pages(&self) -> nat {
        document_pages(self.doc()).len()
    }

    /// A pipeline over an already loaded document.
    pub fn from_document(doc: Document) -> (p: PdfPipeline)
        ensures
            p.doc() == doc,
    {
        PdfPipeline { doc }
    }

    /// Parses the PDF held in `data`; a parse failure is a PDF error.
    pub fn from_bytes(data: &[u8]) -> (r: Result<PdfPipeline>)
        ensures
            r is Ok <==> parses(data@),
            r matches Err(e) ==> e is Pdf,
    {
        match parse_document(data) {
            Ok(doc) => Ok(PdfPipeline { doc }),
            Err(e) => Err(Error::Pdf(e)),
        }
    }

    /// The number of pages in the document.
    pub fn page_count(&self) -> (n: usize)
        ensures
            n == self.pages(),
    {
        page_ids(&self.doc).len()
    }

    /// The document serialised as a PDF file; a write failure is an I/O error.
    /// The pipeline itself is left as it is.
    pub fn to_bytes(&self) -> (r: Result<Vec<u8>>)
        ensures
            r matches Ok(bytes) ==> serialization(self.doc()) == Some(bytes@),
            r matches Err(e) ==> e is Io && serialization(self.doc()) is None,
    {
        match serialize_document(&self.doc) {
            Ok(bytes) => Ok(bytes),
            Err(e) => Err(Error::Io(e)),
        }
    }

    /// The held document.
    pub fn document(&self) -> (d: &Document)
        ensures
            *d == self.doc(),
    {
        &self.doc
    }

    /// Gives up the pipeline and returns its document.
    pub fn into_document(self) -> (d: Document)
        ensures
            d == self.doc(),
    {
        self.doc
    }
}

} // verus!
