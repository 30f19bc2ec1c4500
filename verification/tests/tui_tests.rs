use rustybara::tui::app::{
    hotkey_index, ColorSpaceInfo, Effect, KeyCode, KeyEvent, MenuAction, OutputChoice, PathProbe,
    PdfInfo, Screen, SingleAsciiIconState, MENU_LEN,
};
use rustybara::tui::ui::{
    action_log_text, centered_rect, color_label, current_output_text, display_icon_state,
    file_select_hint, footer_text, help_lines, icon_subtitle, param_hint, param_prompt,
    status_text, Area, AppColor,
};
use rustybara::tui::App;
use rustybara::Error;

fn press(code: KeyCode) -> KeyEvent {
    KeyEvent { code, is_press: true }
}

fn fresh() -> App {
    App::new(vec!["a.pdf".to_string(), "b.pdf".to_string()], "Nothing yet.".to_string())
}

fn on_main(files: &[&str]) -> App {
    let mut app = fresh();
    app.file_paths = files.iter().map(|s| s.to_string()).collect();
    app.screen = Screen::Main;
    app
}

fn type_text(app: &mut App, text: &str) {
    for c in text.chars() {
        assert!(matches!(app.step_key(press(KeyCode::Char(c)), "t"), Effect::Nothing));
    }
}

#[test]
fn menu_entries_labels_and_hotkeys() {
    let all = MenuAction::all();
    assert_eq!(all.len(), MENU_LEN);
    assert_eq!(all[0], MenuAction::TrimMarks);
    assert_eq!(all[8], MenuAction::Quit);
    assert_eq!(MenuAction::ResizeToBleed.label(), "Resize to Bleed");
    assert_eq!(MenuAction::OutputPath.hotkey(), Some('/'));
    assert!(MenuAction::RemapColors.needs_params());
    assert!(!MenuAction::TrimMarks.needs_params());
    for (i, action) in all.iter().enumerate() {
        assert_eq!(hotkey_index(action.hotkey().unwrap()), Some(i));
    }
    assert_eq!(hotkey_index('z'), None);
}

#[test]
fn new_app_starts_on_file_screen() {
    let app = fresh();
    assert_eq!(app.screen, Screen::FileSelect);
    assert!(app.running);
    assert_eq!(app.menu_index, 0);
    assert_eq!(app.selected_action, MenuAction::ChangeFiles);
    assert_eq!(app.export_format, "jpg");
    assert_eq!(app.export_dpi, 150);
    assert_eq!(app.local_files.len(), 2);
    assert_eq!(app.ascii_icon_state(), SingleAsciiIconState::NoTrimBox);
}

#[test]
fn file_screen_typing_and_probing() {
    let mut app = fresh();
    type_text(&mut app, "x");
    assert_eq!(app.input_buffer, "x");
    app.step_key(press(KeyCode::Backspace), "t");
    assert_eq!(app.input_buffer, "");
    assert!(matches!(app.step_key(press(KeyCode::Enter), "t"), Effect::Nothing));
    type_text(&mut app, "  \"my\\ dir\"  ");
    match app.step_key(press(KeyCode::Enter), "t") {
        Effect::ProbeInputPath(p) => assert_eq!(p, "my dir"),
        _ => panic!("expected a probe"),
    }
    let first = app.input_path_probed(
        "my dir".to_string(),
        PathProbe::Directory(vec!["d/a.pdf".to_string(), "d/b.txt".to_string(), "d/C.PDF".to_string()]),
    );
    assert_eq!(first, Some("d/a.pdf".to_string()));
    assert_eq!(app.file_paths, vec!["d/a.pdf".to_string(), "d/C.PDF".to_string()]);
    assert_eq!(app.status_message, Some("2 file(s) loaded".to_string()));
    assert_eq!(app.screen, Screen::Main);
    assert_eq!(app.input_buffer, "");
}

#[test]
fn probe_outcomes_without_pdfs() {
    let mut app = fresh();
    assert_eq!(app.input_path_probed("d".to_string(), PathProbe::Directory(vec!["x.txt".to_string()])), None);
    assert_eq!(app.status_message, Some("No PDF files found in directory".to_string()));
    assert!(app.file_paths.is_empty());
    assert_eq!(app.input_path_probed("nope".to_string(), PathProbe::Missing), None);
    assert_eq!(app.status_message, Some("Path not found: nope".to_string()));
    assert_eq!(app.input_path_probed("notes.txt".to_string(), PathProbe::File), None);
    assert_eq!(app.status_message, Some("Not a PDF file".to_string()));
    assert_eq!(app.input_path_probed("one.pdf".to_string(), PathProbe::File), Some("one.pdf".to_string()));
    assert_eq!(app.status_message, Some("1 file(s) loaded".to_string()));
    assert_eq!(app.screen, Screen::Main);
}

#[test]
fn escape_on_empty_file_screen_quits() {
    let mut app = fresh();
    app.step_key(press(KeyCode::Esc), "t");
    assert!(!app.running);
    let mut loaded = on_main(&["a.pdf"]);
    loaded.screen = Screen::FileSelect;
    loaded.step_key(press(KeyCode::Esc), "t");
    assert!(loaded.running);
    assert_eq!(loaded.screen, Screen::Main);
}

#[test]
fn releases_are_ignored_and_help_toggles() {
    let mut app = on_main(&["a.pdf"]);
    app.step_key(KeyEvent { code: KeyCode::Down, is_press: false }, "t");
    assert_eq!(app.menu_index, 0);
    app.step_key(press(KeyCode::Char('?')), "t");
    assert!(app.show_help);
    app.step_key(press(KeyCode::Down), "t");
    assert!(!app.show_help);
    assert_eq!(app.menu_index, 0);
    app.step_key(press(KeyCode::Char('?')), "t");
    app.step_key(press(KeyCode::Char('?')), "t");
    assert!(!app.show_help);
}

#[test]
fn menu_cursor_stays_in_range() {
    let mut app = on_main(&["a.pdf"]);
    app.step_key(press(KeyCode::Up), "t");
    assert_eq!(app.menu_index, 0);
    for _ in 0..20 {
        app.step_key(press(KeyCode::Down), "t");
    }
    assert_eq!(app.menu_index, MENU_LEN - 1);
    app.menu_up();
    assert_eq!(app.menu_index, MENU_LEN - 2);
}

#[test]
fn overwrite_hotkey_toggles_and_logs() {
    let mut app = on_main(&["a.pdf"]);
    assert!(matches!(app.step_key(press(KeyCode::Char('o')), "12:00"), Effect::Nothing));
    assert!(app.overwrite);
    assert_eq!(app.selected_action, MenuAction::ToggleOverwrite);
    assert_eq!(app.action_log.len(), 1);
    assert_eq!(app.action_log[0].action, "ToggleOverwrite (TRUE)");
    assert_eq!(app.action_log[0].timestamp, "12:00");
    app.step_key(press(KeyCode::Char('o')), "12:01");
    assert!(!app.overwrite);
    assert_eq!(app.action_log[1].action, "ToggleOverwrite (FALSE)");
    assert_eq!(action_log_text(&app), " [12:01] OK    ToggleOverwrite (FALSE)\n [12:00] OK    ToggleOverwrite (TRUE)");
}

#[test]
fn export_parameters_are_offered_and_read_back() {
    let mut app = on_main(&["a.pdf"]);
    match app.step_key(press(KeyCode::Char('x')), "t") {
        Effect::EditParams(a) => assert_eq!(a, MenuAction::ExportImages),
        _ => panic!("expected the parameter screen"),
    }
    assert_eq!(app.screen, Screen::ParamInput);
    assert_eq!(app.input_buffer, "jpg,150");
    for _ in 0..7 {
        app.step_key(press(KeyCode::Backspace), "t");
    }
    type_text(&mut app, " PNG , 300 ");
    match app.step_key(press(KeyCode::Enter), "t") {
        Effect::ParamsEntered(t) => assert_eq!(t, "PNG , 300"),
        _ => panic!("expected entered parameters"),
    }
    assert_eq!(app.export_format, "png");
    assert_eq!(app.export_dpi, 300);
}

#[test]
fn bad_export_parameters_are_ignored() {
    let mut app = on_main(&["a.pdf"]);
    app.step_key(press(KeyCode::Char('x')), "t");
    for _ in 0..7 {
        app.step_key(press(KeyCode::Backspace), "t");
    }
    type_text(&mut app, "gif,-5");
    app.step_key(press(KeyCode::Enter), "t");
    assert_eq!(app.export_format, "jpg");
    assert_eq!(app.export_dpi, 150);
}

#[test]
fn selecting_trim_asks_to_execute_and_quit_stops() {
    let mut app = on_main(&["a.pdf"]);
    assert!(matches!(app.step_key(press(KeyCode::Char('t')), "t"), Effect::Execute));
    assert_eq!(app.selected_action, MenuAction::TrimMarks);
    app.step_key(press(KeyCode::Char('q')), "t");
    assert!(!app.running);
}

#[test]
fn output_location_screen() {
    let mut app = on_main(&["a.pdf"]);
    app.step_key(press(KeyCode::Char('/')), "t");
    assert_eq!(app.screen, Screen::OutputSelect);
    type_text(&mut app, "ignored");
    assert_eq!(app.input_buffer, "");
    app.step_key(press(KeyCode::Down), "t");
    assert_eq!(app.output_choice, OutputChoice::New);
    type_text(&mut app, " \"out\" ");
    match app.step_key(press(KeyCode::Enter), "t") {
        Effect::ProbeOutputDir(p) => assert_eq!(p, "out"),
        _ => panic!("expected a directory check"),
    }
    app.output_dir_probed("out".to_string(), false);
    assert_eq!(app.status_message, Some("out is not a directory".to_string()));
    assert_eq!(app.screen, Screen::OutputSelect);
    app.output_dir_probed("out".to_string(), true);
    assert_eq!(app.status_message, Some("Output: out".to_string()));
    assert_eq!(app.output_dir, Some("out".to_string()));
    assert_eq!(app.screen, Screen::Main);
    assert_eq!(current_output_text(&app), " (current: out)");
    app.step_key(press(KeyCode::Char('/')), "t");
    assert_eq!(app.input_buffer, "out");
    app.step_key(press(KeyCode::Up), "t");
    app.step_key(press(KeyCode::Enter), "t");
    assert_eq!(app.output_dir, None);
    assert_eq!(app.status_message, Some("Output: same location".to_string()));
}

#[test]
fn execution_checks() {
    let mut app = on_main(&[]);
    assert!(!app.check_before_execute(&vec![]));
    assert_eq!(app.result_message, "No files loaded. Press [c] to select files.");
    assert_eq!(app.screen, Screen::FileSelect);
    let mut app = on_main(&["a.pdf", "b.pdf", "c.pdf"]);
    assert!(!app.check_before_execute(&vec![true, false, false]));
    assert_eq!(app.result_message, "File not found:\nb.pdf\nc.pdf");
    let mut app = on_main(&["a.pdf"]);
    assert!(app.check_before_execute(&vec![true]));
    assert_eq!(app.screen, Screen::Main);
}

#[test]
fn finishing_a_run() {
    let mut app = on_main(&["x.pdf"]);
    app.step_key(press(KeyCode::Char('t')), "t");
    let reload = app.finish_execute(Ok(("Trimmed 1 file(s)".to_string(), vec!["x_out.pdf".to_string()])));
    assert_eq!(reload, Some("x_out.pdf".to_string()));
    assert_eq!(app.result_message, "Trimmed 1 file(s)");
    assert!(app.last_result_ok);
    assert_eq!(app.file_paths, vec!["x_out.pdf".to_string()]);
    assert_eq!(app.action_log.len(), 1);
    assert_eq!(app.action_log[0].action, "Trim Marks");
    assert_eq!(app.screen, Screen::Result);
    app.step_key(press(KeyCode::Enter), "t");
    assert_eq!(app.screen, Screen::Main);

    let err = Error::Io(std::io::Error::new(std::io::ErrorKind::NotFound, "gone"));
    assert_eq!(app.finish_execute(Err(err)), None);
    assert_eq!(app.result_message, "File not found: I/O error: gone");
    assert!(!app.last_result_ok);
    assert_eq!(display_icon_state(&app), SingleAsciiIconState::FailedToLoad);
}

#[test]
fn icon_states() {
    let mut app = on_main(&["a.pdf"]);
    app.pdf_info = Some(PdfInfo { has_trimbox: true, color_space: ColorSpaceInfo::PureRGB });
    assert_eq!(app.ascii_icon_state(), SingleAsciiIconState::PureRGB);
    app.pdf_info = Some(PdfInfo { has_trimbox: true, color_space: ColorSpaceInfo::PureCMYK });
    assert_eq!(app.ascii_icon_state(), SingleAsciiIconState::PureCMYK);
    app.pdf_info = Some(PdfInfo { has_trimbox: true, color_space: ColorSpaceInfo::Mixed });
    assert_eq!(app.ascii_icon_state(), SingleAsciiIconState::TrimBoxPresent);
    app.pdf_info = None;
    assert_eq!(app.ascii_icon_state(), SingleAsciiIconState::NoTrimBox);
    app.screen = Screen::Processing;
    assert_eq!(app.ascii_icon_state(), SingleAsciiIconState::Loading);
}

#[test]
fn local_file_picker() {
    let mut app = fresh();
    app.local_file_up();
    assert_eq!(app.local_file_index, 0);
    app.local_file_down();
    app.local_file_down();
    assert_eq!(app.local_file_index, 1);
    match app.select_local_file() {
        Effect::LoadMetadata(p) => assert_eq!(p, "b.pdf"),
        _ => panic!("expected a metadata load"),
    }
    assert_eq!(app.file_paths, vec!["b.pdf".to_string()]);
    assert_eq!(app.screen, Screen::Main);
}

#[test]
fn screen_texts() {
    let mut app = on_main(&[]);
    assert_eq!(status_text(&app), "No files loaded");
    assert_eq!(icon_subtitle(&app), " 0 files ");
    assert_eq!(action_log_text(&app), "Nothing yet.");
    assert_eq!(file_select_hint(&app), " Enter to confirm \u{2022} Esc to quit");
    app.file_paths = vec!["a.pdf".to_string()];
    app.overwrite = true;
    assert_eq!(status_text(&app), " a.pdf [OVERWRITE] ");
    assert_eq!(icon_subtitle(&app), " 1 file ");
    app.file_paths.push("b.pdf".to_string());
    app.overwrite = false;
    assert_eq!(status_text(&app), " 2 files loaded");
    assert_eq!(file_select_hint(&app), " Enter to confirm \u{2022} Esc to go back");
    assert_eq!(
        footer_text(),
        " [t]rim Marks [r]esize to Bleed [x]xport Images [m]emap Colors [p]review Page [o]oggle Overwrite [/]utput Path [f]hange Files [q]uit [?]help"
    );
    let help = help_lines();
    assert_eq!(help.len(), 13);
    assert_eq!(help[0], "\u{2191}/\u{2193}    Navigate menu");
    assert_eq!(help[3], "t      Trim Marks");
    assert_eq!(help[12], "?      Toggle this help");
    assert_eq!(param_prompt(MenuAction::ExportImages), " Export settings (format,dpi)");
    assert_eq!(param_hint(MenuAction::ResizeToBleed), " e.g. 9.0");
    assert_eq!(param_prompt(MenuAction::Quit), " Parameters");
    assert_eq!(color_label(ColorSpaceInfo::PureCMYK), "Pure CMYK");
    assert_eq!(AppColor::PrimaryOrange.app_colors(), (232, 104, 7));
    assert_eq!(AppColor::TertiaryOrange.app_colors(), (160, 60, 3));
}

#[test]
fn centered_rect_fits_in_area() {
    let area = Area { x: 0, y: 0, width: 100, height: 50 };
    assert_eq!(centered_rect(36, 16, area), Area { x: 32, y: 17, width: 36, height: 16 });
    let small = Area { x: 5, y: 5, width: 20, height: 4 };
    assert_eq!(centered_rect(36, 16, small), Area { x: 5, y: 5, width: 20, height: 4 });
}

#[test]
fn quitting_is_final() {
    let mut app = on_main(&["a.pdf"]);
    app.step_key(press(KeyCode::Esc), "t");
    assert!(!app.running);
    for code in [KeyCode::Enter, KeyCode::Char('t'), KeyCode::Down, KeyCode::Char('?'), KeyCode::Esc] {
        app.step_key(press(code), "t");
        assert!(!app.running);
    }
}

#[test]
fn output_choice_round_trip() {
    let mut app = on_main(&["a.pdf"]);
    app.screen = Screen::OutputSelect;
    app.step_key(press(KeyCode::Down), "t");
    assert_eq!(app.output_choice, OutputChoice::New);
    app.step_key(press(KeyCode::Up), "t");
    assert_eq!(app.output_choice, OutputChoice::Same);
}

#[test]
fn confirming_offered_export_parameters_keeps_them() {
    let mut app = on_main(&["a.pdf"]);
    app.export_format = "webp".to_string();
    app.export_dpi = 72;
    app.menu_index = 2;
    app.step_key(press(KeyCode::Enter), "t");
    assert_eq!(app.input_buffer, "webp,72");
    match app.step_key(press(KeyCode::Enter), "t") {
        Effect::ParamsEntered(t) => assert_eq!(t, "webp,72"),
        _ => panic!("expected entered parameters"),
    }
    assert_eq!(app.export_format, "webp");
    assert_eq!(app.export_dpi, 72);
}

#[test]
fn down_then_up_returns_to_entry() {
    let mut app = on_main(&["a.pdf"]);
    app.menu_index = 4;
    app.menu_down();
    app.menu_up();
    assert_eq!(app.menu_index, 4);
}
