use rustybara::encode::OutputFormat;
use rustybara::process::{
    export_message, has_pdf_extension, output_file_name, output_path, page_image_path,
    plan_tui_action, resize_message, trim_message, ActionPlan,
};
use rustybara::tui::app::MenuAction;

#[test]
fn output_path_beside_input() {
    assert_eq!(output_path("dir/file.pdf", &None, None), "dir/file_out.pdf");
    assert_eq!(output_path("file.pdf", &None, None), "file_out.pdf");
    assert_eq!(output_path("noext", &None, None), "noext_out.pdf");
    assert_eq!(output_path("/", &None, None), "./_out.pdf");
}

#[test]
fn output_path_in_chosen_directory_with_new_extension() {
    assert_eq!(output_path("/a/b/doc.PDF", &Some("/out".to_string()), None), "/out/doc_out.PDF");
    assert_eq!(output_path("dir/doc.pdf", &None, Some("png")), "dir/doc_out.png");
    assert_eq!(output_path("dir/doc.pdf", &Some("o".to_string()), Some("jpg")), "o/doc_out.jpg");
}

#[test]
fn output_file_name_parts() {
    assert_eq!(output_file_name(Some("doc"), Some("pdf"), None), "doc_out.pdf");
    assert_eq!(output_file_name(Some("doc"), None, None), "doc_out.pdf");
    assert_eq!(output_file_name(None, Some("x"), Some("tiff")), "_out.tiff");
}

#[test]
fn page_image_paths_number_pages_of_multi_page_documents() {
    assert_eq!(page_image_path("dir/doc.pdf", &None, OutputFormat::Png, 0, 1), "dir/doc_out.png");
    assert_eq!(page_image_path("dir/doc.pdf", &None, OutputFormat::Png, 2, 5), "dir/doc_out_3.png");
    assert_eq!(
        page_image_path("dir/doc.pdf", &Some("out".to_string()), OutputFormat::Tiff, 0, 2),
        "out/doc_out_1.tiff"
    );
}

#[test]
fn pdf_extension_ignores_ascii_case() {
    assert!(has_pdf_extension("a.PdF"));
    assert!(has_pdf_extension("dir/x.pdf"));
    assert!(!has_pdf_extension("a.pdf.txt"));
    assert!(!has_pdf_extension("pdf"));
}

#[test]
fn output_formats_by_name() {
    assert_eq!(OutputFormat::from_name(Some("webp")), OutputFormat::WebP);
    assert_eq!(OutputFormat::from_name(Some("png")), OutputFormat::Png);
    assert_eq!(OutputFormat::from_name(Some("tiff")), OutputFormat::Tiff);
    assert_eq!(OutputFormat::from_name(Some("jpg")), OutputFormat::Jpg);
    assert_eq!(OutputFormat::from_name(Some("gif")), OutputFormat::Jpg);
    assert_eq!(OutputFormat::from_name(None), OutputFormat::Jpg);
    assert_eq!(OutputFormat::WebP.extension(), "webp");
    assert_eq!(OutputFormat::Jpg.extension(), "jpg");
}

#[test]
fn plans_for_front_end_actions() {
    let files = vec!["d/a.pdf".to_string(), "b.pdf".to_string()];
    match plan_tui_action(MenuAction::TrimMarks, &files, false, "jpg", 150) {
        ActionPlan::Trim(pairs) => assert_eq!(
            pairs,
            vec![
                ("d/a.pdf".to_string(), "d/a_out.pdf".to_string()),
                ("b.pdf".to_string(), "b_out.pdf".to_string())
            ]
        ),
        _ => panic!("expected a trim plan"),
    }
    match plan_tui_action(MenuAction::ResizeToBleed, &files, true, "jpg", 150) {
        ActionPlan::Resize(pairs) => assert_eq!(
            pairs,
            vec![
                ("d/a.pdf".to_string(), "d/a.pdf".to_string()),
                ("b.pdf".to_string(), "b.pdf".to_string())
            ]
        ),
        _ => panic!("expected a resize plan"),
    }
    match plan_tui_action(MenuAction::ExportImages, &files, false, "png", 300) {
        ActionPlan::Export { format, dpi } => {
            assert_eq!(format, OutputFormat::Png);
            assert_eq!(dpi, 300);
        }
        _ => panic!("expected an export plan"),
    }
    match plan_tui_action(MenuAction::RemapColors, &files, false, "png", 300) {
        ActionPlan::Report(m) => assert_eq!(m, "Preview not yet implemented"),
        _ => panic!("expected a report"),
    }
    match plan_tui_action(MenuAction::Quit, &files, false, "png", 300) {
        ActionPlan::Report(m) => assert_eq!(m, "Unknown action"),
        _ => panic!("expected a report"),
    }
}

#[test]
fn run_reports() {
    assert_eq!(trim_message(2), "Trimmed 2 file(s)");
    assert_eq!(resize_message(1, "9"), "Resized 1 file(s) (bleed: 9pt)");
    assert_eq!(export_message(4, "jpg", 150), "Exported 4 image(s) (jpg, 150dpi)");
}
