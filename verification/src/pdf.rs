//! The trusted bridge to `lopdf`: its document type, what the library reads
//! of a document, and the calls that read, parse and serialise one.

use vstd::prelude::*;

use lopdf::Document;
use lopdf::Error as LopdfError;

verus! {

/// `lopdf::Document`, an in-memory PDF object graph.
#[verifier::external_type_specification]
#[verifier::external_body]
pub struct ExDocument(Document);

/// The object ids of the document's pages, in page-number order: the values
/// of `Document::get_pages`, which numbers the pages of the page tree from 1.
pub uninterp spec fn document_pages(doc: Document) -> Seq<(u32, u16)>;

/// The operator names of the decoded content of one page
/// (`Document::get_and_decode_page_content`), or `None` where decoding fails.
pub uninterp spec fn page_operators(doc: Document, page: (u32, u16)) -> Option<Seq<Seq<char>>>;

/// `Document::get_pages`: the page object ids in page-number order.
#[verifier::external_body]
pub(crate) fn page_ids(doc: &Document) -> (ids: Vec<(u32, u16)>)
    ensures
        ids@ == document_pages(*doc),
{
    doc.get_pages().into_values().collect()
}

/// `Document::get_and_decode_page_content` for one page, reduced to the names
/// of its operators; `None` where decoding fails.
#[verifier::external_body]
pub(crate) fn decoded_operators(doc: &Document, page: (u32, u16)) -> (r: Option<Vec<String>>)
    ensures
        match r {
            Some(ops) => page_operators(*doc, page) == Some(ops@.map_values(|s: String| s@)),
            None => page_operators(*doc, page) is None,
        },
{
    match doc.get_and_decode_page_content(page) {
        Ok(content) => Some(content.operations.into_iter().map(|op| op.operator).collect()),
        Err(_) => None,
    }
}

/// Whether `Document::load_mem` accepts the bytes as a PDF.
pub uninterp spec fn parses(data: Seq<u8>) -> bool;

/// What `Document::save_to` writes for a document, or `None` where it fails.
pub uninterp spec fn serialization(doc: Document) -> Option<Seq<u8>>;

/// `Document::load_mem`: parses a PDF held in memory. Which inputs it accepts
/// is named, not stated; what document it builds is not stated.
#[verifier::external_body]
pub(crate) fn parse_document(data: &[u8]) -> (r: core::result::Result<Document, LopdfError>)
    ensures
        r is Ok <==> parses(data@),
{
    Document::load_mem(data)
}

/// `Document::save_to` into a fresh buffer, applied to a copy of the document
/// (saving updates the saved document's cross-reference bookkeeping). What it
/// writes is named, not stated.
#[verifier::external_body]
pub(crate) fn serialize_document(doc: &Document) -> (r: core::result::Result<Vec<u8>, std::io::Error>)
    ensures
        match r {
            Ok(bytes) => serialization(*doc) == Some(bytes@),
            Err(_) => serialization(*doc) is None,
        },
{
    let mut copy = doc.clone();
    let mut buffer: Vec<u8> = Vec::new();
    match copy.save_to(&mut buffer) {
        Ok(()) => Ok(buffer),
        Err(e) => Err(e),
    }
}

} // verus!
