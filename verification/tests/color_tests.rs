use lopdf::{Dictionary, Document, Object, Stream};
use rustybara::color::icc::{detect_color_space, ColorSpace, IccProfile};
use rustybara::pages::PageBoxes;
use rustybara::pipeline::PdfPipeline;
use rustybara::stream::color_ops::{
    classify_operator_lists, detect_color_space as detect_document_colors, is_remappable_operation,
    remap_choice, ColorSpaceKind,
};
use rustybara::Error;

fn header_with(signature: &[u8; 4]) -> Vec<u8> {
    let mut bytes = vec![0u8; 32];
    bytes[16..20].copy_from_slice(signature);
    bytes
}

fn build_pdf(page_contents: &[&str]) -> Vec<u8> {
    let mut doc = Document::with_version("1.5");
    let pages_id = doc.new_object_id();
    let mut kids = Vec::new();
    for content in page_contents {
        let content_id = doc.add_object(Stream::new(Dictionary::new(), content.as_bytes().to_vec()));
        let mut page = Dictionary::new();
        page.set("Type", Object::Name(b"Page".to_vec()));
        page.set("Parent", Object::Reference(pages_id));
        page.set(
            "MediaBox",
            Object::Array(vec![Object::Integer(0), Object::Integer(0), Object::Integer(612), Object::Integer(792)]),
        );
        page.set("Contents", Object::Reference(content_id));
        kids.push(Object::Reference(doc.add_object(page)));
    }
    let mut pages = Dictionary::new();
    pages.set("Type", Object::Name(b"Pages".to_vec()));
    pages.set("Count", Object::Integer(kids.len() as i64));
    pages.set("Kids", Object::Array(kids));
    doc.objects.insert(pages_id, Object::Dictionary(pages));
    let mut catalog = Dictionary::new();
    catalog.set("Type", Object::Name(b"Catalog".to_vec()));
    catalog.set("Pages", Object::Reference(pages_id));
    let catalog_id = doc.add_object(catalog);
    doc.trailer.set("Root", Object::Reference(catalog_id));
    let mut buffer = Vec::new();
    doc.save_to(&mut buffer).unwrap();
    buffer
}

#[test]
fn icc_header_signature_decides_color_space() {
    assert_eq!(detect_color_space(&[0u8; 32]), ColorSpace::Rgb);
    assert_eq!(detect_color_space(&header_with(b"CMYK")), ColorSpace::Cmyk);
    assert_eq!(detect_color_space(&header_with(b"GRAY")), ColorSpace::Gray);
    assert_eq!(detect_color_space(&header_with(b"RGB ")), ColorSpace::Rgb);
    assert_eq!(detect_color_space(&header_with(b"Lab ")), ColorSpace::Rgb);
    let mut short = header_with(b"CMYK");
    short.truncate(19);
    assert_eq!(detect_color_space(&short), ColorSpace::Rgb);
}

#[test]
fn icc_profile_keeps_its_bytes() {
    let bytes = header_with(b"CMYK");
    let profile = IccProfile::from_bytes(bytes.clone()).unwrap();
    assert_eq!(profile.color_space(), ColorSpace::Cmyk);
    assert_eq!(profile.as_bytes(), bytes.as_slice());
    assert_eq!(profile.into_bytes(), bytes);
}

#[test]
fn icc_srgb_profile_is_tagged_srgb() {
    let profile = IccProfile::srgb().unwrap();
    assert_eq!(profile.color_space(), ColorSpace::Srgb);
    let bytes = profile.as_bytes();
    assert!(bytes.len() >= 128);
    assert_eq!(&bytes[16..20], b"RGB ");
    assert_eq!(detect_color_space(bytes), ColorSpace::Rgb);
}

#[test]
fn classify_operator_lists_cases() {
    let ops = |names: &[&str]| Some(names.iter().map(|s| s.to_string()).collect::<Vec<_>>());
    assert!(matches!(classify_operator_lists(&vec![ops(&["q", "k", "Q"])]), ColorSpaceKind::PureCMYK));
    assert!(matches!(classify_operator_lists(&vec![ops(&["RG"])]), ColorSpaceKind::PureRGB));
    assert!(matches!(classify_operator_lists(&vec![ops(&["rg"]), None, ops(&["K"])]), ColorSpaceKind::Mixed));
    assert!(matches!(classify_operator_lists(&vec![None, ops(&["q", "Q", "kk"])]), ColorSpaceKind::Unknown));
    assert!(matches!(classify_operator_lists(&vec![]), ColorSpaceKind::Unknown));
}

#[test]
fn remap_choice_takes_first_match_of_cmyk_operations() {
    assert!(is_remappable_operation("k", 4));
    assert!(is_remappable_operation("K", 4));
    assert!(!is_remappable_operation("k", 3));
    assert!(!is_remappable_operation("rg", 4));
    assert_eq!(remap_choice("k", 4, &vec![false, true, true]), Some(1));
    assert_eq!(remap_choice("K", 4, &vec![true]), Some(0));
    assert_eq!(remap_choice("k", 4, &vec![false, false]), None);
    assert_eq!(remap_choice("rg", 3, &vec![true]), None);
    assert_eq!(remap_choice("K", 3, &vec![true]), None);
}

#[test]
fn page_boxes_prefer_trim_box() {
    let with_trim = PageBoxes {
        media_box: [0.0, 0.0, 612.0, 792.0],
        trim_box: Some([36.0, 36.0, 576.0, 756.0]),
        bleed_box: None,
        crop_box: None,
    };
    assert_eq!(*with_trim.trim_or_media(), [36.0, 36.0, 576.0, 756.0]);
    let without = PageBoxes { media_box: [0.0, 0.0, 100.0, 50.0], trim_box: None, bleed_box: None, crop_box: None };
    assert_eq!(*without.trim_or_media(), [0.0, 0.0, 100.0, 50.0]);
}

#[test]
fn pipeline_counts_pages_and_round_trips() {
    let bytes = build_pdf(&["0 0 0 1 k 0 0 10 10 re f", "1 0 0 rg 0 0 10 10 re f", "q Q"]);
    let pipeline = PdfPipeline::from_bytes(&bytes).unwrap();
    assert_eq!(pipeline.page_count(), 3);
    assert_eq!(pipeline.document().get_pages().len(), 3);
    let saved = pipeline.to_bytes().unwrap();
    let reopened = PdfPipeline::from_bytes(&saved).unwrap();
    assert_eq!(reopened.page_count(), 3);
}

#[test]
fn pipeline_rejects_non_pdf() {
    match PdfPipeline::from_bytes(b"this is not a pdf") {
        Err(Error::Pdf(_)) => {}
        Err(_) => panic!("wrong error kind"),
        Ok(_) => panic!("parsed garbage"),
    }
}

#[test]
fn document_color_detection() {
    let mixed = PdfPipeline::from_bytes(&build_pdf(&["0 0 0 1 k", "1 0 0 rg"])).unwrap();
    assert!(matches!(detect_document_colors(mixed.document()), ColorSpaceKind::Mixed));
    let cmyk = PdfPipeline::from_bytes(&build_pdf(&["0 0 0 1 K", "q Q"])).unwrap();
    assert!(matches!(detect_document_colors(cmyk.document()), ColorSpaceKind::PureCMYK));
    let rgb = PdfPipeline::from_bytes(&build_pdf(&["0 1 0 RG"])).unwrap();
    assert!(matches!(detect_document_colors(rgb.document()), ColorSpaceKind::PureRGB));
    let neither = PdfPipeline::from_bytes(&build_pdf(&["q Q"])).unwrap();
    assert!(matches!(detect_document_colors(neither.document()), ColorSpaceKind::Unknown));
}

#[test]
fn color_make_up_ignores_page_order_and_undecodable_pages() {
    let ops = |names: &[&str]| Some(names.iter().map(|s| s.to_string()).collect::<Vec<_>>());
    let forward = vec![ops(&["k"]), ops(&["q"])];
    let backward = vec![ops(&["q"]), ops(&["k"])];
    assert!(matches!(classify_operator_lists(&forward), ColorSpaceKind::PureCMYK));
    assert!(matches!(classify_operator_lists(&backward), ColorSpaceKind::PureCMYK));
    let mut with_none = forward.clone();
    with_none.push(None);
    assert!(matches!(classify_operator_lists(&with_none), ColorSpaceKind::PureCMYK));
}

#[test]
fn color_make_up_ignores_operator_order_and_other_operators() {
    let ops = |names: &[&str]| Some(names.iter().map(|s| s.to_string()).collect::<Vec<_>>());
    let base = vec![ops(&["rg", "q", "K"]), ops(&["Q"])];
    assert!(matches!(classify_operator_lists(&base), ColorSpaceKind::Mixed));
    let reordered = vec![ops(&["Q"]), ops(&["K", "q", "rg"])];
    assert!(matches!(classify_operator_lists(&reordered), ColorSpaceKind::Mixed));
    let cmyk_only = vec![ops(&["k", "Q"])];
    let with_others = vec![None, ops(&["g", "k", "cs", "scn", "G", "Q"])];
    assert!(matches!(classify_operator_lists(&cmyk_only), ColorSpaceKind::PureCMYK));
    assert!(matches!(classify_operator_lists(&with_others), ColorSpaceKind::PureCMYK));
}

#[test]
fn mixed_make_up_survives_added_pages() {
    let ops = |names: &[&str]| Some(names.iter().map(|s| s.to_string()).collect::<Vec<_>>());
    let mixed = vec![ops(&["k"]), ops(&["RG"])];
    let more = vec![ops(&["q"]), ops(&["RG"]), None, ops(&["k"]), ops(&["rg"])];
    assert!(matches!(classify_operator_lists(&mixed), ColorSpaceKind::Mixed));
    assert!(matches!(classify_operator_lists(&more), ColorSpaceKind::Mixed));
}

#[test]
fn srgb_profile_from_little_cms_answer() {
    let p = IccProfile::srgb_from_icc(Ok(vec![1u8, 2, 3])).unwrap();
    assert_eq!(p.as_bytes(), &[1u8, 2, 3][..]);
    assert_eq!(p.color_space(), ColorSpace::Srgb);
    let e = IccProfile::srgb_from_icc(Err(lcms2::Error::ObjectCreationError)).err().unwrap();
    assert!(matches!(e, Error::Color(lcms2::Error::ObjectCreationError)));
}

#[test]
fn open_and_page_count() {
    let p = PdfPipeline::from_bytes(&build_pdf(&["q Q", "q Q"])).unwrap();
    assert!(p.page_count() > 0);
}

#[test]
fn save_roundtrip() {
    let p = PdfPipeline::from_bytes(&build_pdf(&["0 0 0 1 k", "q Q", "1 0 0 rg"])).unwrap();
    let original_count = p.page_count();
    let saved = p.to_bytes().unwrap();
    let reopened = PdfPipeline::from_bytes(&saved).unwrap();
    assert_eq!(reopened.page_count(), original_count);
}
