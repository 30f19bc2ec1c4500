//! Properties of the front end's state machine that hold across its steps.

use vstd::prelude::*;

use crate::text::{
    ascii_lower, decimal, is_white_space, law_parse_decimal_round_trip, parse_u32_spec, split_once,
    lemma_decimal_digits, lemma_split_once_at, lemma_split_once_none, lemma_strip_both_unchanged,
    strip_pred, trimmed,
};
use crate::tui::app::{
    action_hotkey, apply_export_spec, backspace_spec, execute_check_spec, export_params_text,
    finish_err_spec, finish_ok_spec, hotkey_position, hotkey_position_from, input_probe_spec,
    is_export_format, key_step, lemma_hotkey_position_in_menu, menu_at, menu_down_spec,
    menu_up_spec, output_probe_spec, select_menu_spec, type_char_spec, wf, AppView, EffectView,
    KeyCode, KeyEvent, MenuAction, ProbeView, Screen, MENU_LEN,
};

verus! {

/// A pressed key.
pub open spec fn press(code: KeyCode) -> KeyEvent {
    KeyEvent { code, is_press: true }
}

/// Every key event keeps the state invariant: the menu cursor stays on an
/// entry and the local-file cursor on a listed file.
pub proof fn law_key_step_keeps_invariant(v: AppView, key: KeyEvent, stamp: Seq<char>)
    requires
        wf(v),
    ensures
        wf(key_step(v, key, stamp).0),
{
    if let KeyCode::Char(ch) = key.code {
        lemma_hotkey_position_in_menu(ch, 0);
    }
}

/// Reporting back from outside work keeps the state invariant.
pub proof fn law_reports_keep_invariant(
    v: AppView,
    path: Seq<char>,
    probe: ProbeView,
    is_dir: bool,
    exists: Seq<bool>,
    message: Seq<char>,
    new_paths: Seq<Seq<char>>,
    stamp: Seq<char>,
    text: Seq<char>,
)
    requires
        wf(v),
    ensures
        wf(input_probe_spec(v, path, probe).0),
        wf(output_probe_spec(v, path, is_dir)),
        wf(execute_check_spec(v, exists).0),
        wf(finish_ok_spec(v, message, new_paths, stamp).0),
        wf(finish_err_spec(v, text)),
{
}

/// Once the front end has quit, no key event restarts it.
pub proof fn law_quit_is_final(v: AppView, key: KeyEvent, stamp: Seq<char>)
    requires
        !v.running,
    ensures
        !key_step(v, key, stamp).0.running,
{
}

/// Key releases change nothing and ask for nothing.
pub proof fn law_releases_ignored(v: AppView, code: KeyCode, stamp: Seq<char>)
    ensures
        key_step(v, KeyEvent { code, is_press: false }, stamp) == (v, EffectView::Nothing),
{
}

/// Pressing `?` twice, on any screen, gives back the state one started from.
pub proof fn law_help_toggle_round_trip(v: AppView, s1: Seq<char>, s2: Seq<char>)
    ensures
        key_step(key_step(v, press(KeyCode::Char('?')), s1).0, press(KeyCode::Char('?')), s2)
            == (v, EffectView::Nothing),
{
    assert(key_step(key_step(v, press(KeyCode::Char('?')), s1).0, press(KeyCode::Char('?')), s2).0 =~= v);
}

/// While the keyboard reference is shown, any other pressed key only hides it.
pub proof fn law_help_swallows_keys(v: AppView, code: KeyCode, stamp: Seq<char>)
    requires
        v.show_help,
        code != KeyCode::Char('?'),
    ensures
        key_step(v, press(code), stamp) == (AppView { show_help: false, ..v }, EffectView::Nothing),
{
}

/// Moving the menu cursor down and back up returns to the same entry.
pub proof fn law_menu_down_then_up(v: AppView)
    requires
        v.menu_index + 1 < MENU_LEN,
    ensures
        menu_up_spec(menu_down_spec(v)) == v,
{
    assert(menu_up_spec(menu_down_spec(v)) =~= v);
}

/// Each menu entry's hotkey selects that entry: the hotkeys are distinct.
pub proof fn law_hotkeys_select_their_entry(i: int)
    requires
        0 <= i < MENU_LEN,
    ensures
        hotkey_position(action_hotkey(menu_at(i))->0) == Some(i),
{
    reveal_with_fuel(hotkey_position_from, 10);
}

/// On the file screen, typing a character and deleting it gives back the state.
pub proof fn law_type_then_backspace(v: AppView, c: char, s1: Seq<char>, s2: Seq<char>)
    requires
        v.screen == Screen::FileSelect || v.screen == Screen::ParamInput,
        !v.show_help,
        c != '?',
    ensures
        key_step(key_step(v, press(KeyCode::Char(c)), s1).0, press(KeyCode::Backspace), s2)
            == (v, EffectView::Nothing),
{
    let typed = key_step(v, press(KeyCode::Char(c)), s1).0;
    assert(typed == type_char_spec(v, c));
    assert(typed.input_buffer.drop_last() =~= v.input_buffer);
    assert(backspace_spec(typed) =~= v);
}

/// On the output screen, moving the choice twice gives back the state.
pub proof fn law_output_choice_round_trip(v: AppView, s1: Seq<char>, s2: Seq<char>)
    requires
        v.screen == Screen::OutputSelect,
        !v.show_help,
    ensures
        key_step(key_step(v, press(KeyCode::Down), s1).0, press(KeyCode::Up), s2)
            == (v, EffectView::Nothing),
{
    assert(key_step(key_step(v, press(KeyCode::Down), s1).0, press(KeyCode::Up), s2).0 =~= v);
}

proof fn lemma_export_format_text(f: Seq<char>)
    requires
        f == "jpg"@ || f == "png"@ || f == "webp"@ || f == "tiff"@,
    ensures
        f.len() > 0,
        !is_white_space(f[0]),
        !is_white_space(f.last()),
        forall|i: int| 0 <= i < f.len() ==> #[trigger] f[i] != ',',
        ascii_lower(f) == f,
{
    reveal_strlit("jpg");
    reveal_strlit("png");
    reveal_strlit("webp");
    reveal_strlit("tiff");
    assert(ascii_lower(f) =~= f);
}

/// The parameter line that the export screen offers reads back as the
/// parameters it was made from.
pub proof fn law_export_params_round_trip(v: AppView)
    requires
        is_export_format(v.export_format),
    ensures
        trimmed(export_params_text(v)) == export_params_text(v),
        apply_export_spec(v, export_params_text(v)) == v,
{
    let text = export_params_text(v);
    lemma_export_text_parts(v.export_format, v.export_dpi);
    assert(apply_export_spec(v, text) =~= v);
}

/// How a parameter line `<format>,<dpi>` splits, for a known format.
proof fn lemma_export_text_parts(f: Seq<char>, dpi: u32)
    requires
        f == "jpg"@ || f == "png"@ || f == "webp"@ || f == "tiff"@,
    ensures
        ({
            let d = decimal(dpi as nat);
            let text = f + ","@ + d;
            &&& trimmed(text) == text
            &&& split_once(text, ',') == (f, Some(d))
            &&& ascii_lower(trimmed(f)) == f
            &&& trimmed(split_once(d, ',').0) == d
            &&& parse_u32_spec(d) == Some(dpi)
        }),
{
    let d = decimal(dpi as nat);
    let text = f + ","@ + d;
    lemma_export_format_text(f);
    lemma_decimal_digits(dpi as nat);
    assert(text =~= f + seq![','] + d) by {
        reveal_strlit(",");
    }
    assert(text[0] == f[0]);
    assert(text.last() == d.last());
    lemma_strip_both_unchanged(text, strip_pred(false));
    lemma_split_once_at(f, d, ',');
    assert(!is_white_space(f.last()));
    lemma_strip_both_unchanged(f, strip_pred(false));
    assert forall|i: int| 0 <= i < d.len() implies #[trigger] d[i] != ',' by {
        assert(crate::text::is_ascii_digit(d[i]));
    }
    lemma_split_once_none(d, ',');
    lemma_strip_both_unchanged(d, strip_pred(false));
    law_parse_decimal_round_trip(dpi);
}

/// Choosing "Export Images" and confirming the offered parameters unchanged
/// keeps the export parameters and asks to run the export.
pub proof fn law_export_confirm_keeps_params(v: AppView, s1: Seq<char>, s2: Seq<char>)
    requires
        wf(v),
        v.screen == Screen::Main,
        !v.show_help,
        menu_at(v.menu_index as int) == MenuAction::ExportImages,
        is_export_format(v.export_format),
    ensures
        ({
            let opened = key_step(v, press(KeyCode::Enter), s1).0;
            let confirmed = key_step(opened, press(KeyCode::Enter), s2);
            &&& confirmed.0.export_format == v.export_format
            &&& confirmed.0.export_dpi == v.export_dpi
            &&& confirmed.1 == EffectView::ParamsEntered(export_params_text(v))
        }),
{
    let opened = key_step(v, press(KeyCode::Enter), s1).0;
    assert(opened == select_menu_spec(v, s1).0);
    assert(opened.input_buffer == export_params_text(v));
    assert(export_params_text(opened) == export_params_text(v));
    law_export_params_round_trip(opened);
}

/// Toggling overwriting twice from the menu restores the setting and logs
/// both toggles.
pub proof fn law_overwrite_toggle_round_trip(v: AppView, s1: Seq<char>, s2: Seq<char>)
    requires
        wf(v),
        v.screen == Screen::Main,
        !v.show_help,
        menu_at(v.menu_index as int) == MenuAction::ToggleOverwrite,
    ensures
        ({
            let once = key_step(v, press(KeyCode::Enter), s1).0;
            let twice = key_step(once, press(KeyCode::Enter), s2).0;
            &&& once.overwrite == !v.overwrite
            &&& twice.overwrite == v.overwrite
            &&& twice.action_log.len() == v.action_log.len() + 2
        }),
{
}

/// A typed output path that is not a directory changes nothing but the
/// status message: the output directory, the input line and the screen stay.
pub proof fn law_rejected_output_dir_keeps_state(v: AppView, path: Seq<char>)
    ensures
        output_probe_spec(v, path, false) == (AppView { status_message: output_probe_spec(v, path, false).status_message, ..v }),
        output_probe_spec(v, path, true).output_dir == Some(path),
{
}

/// Entering `<format>,<dpi>` on the export parameter screen, for any of the
/// formats jpg, png, webp and tiff and any `u32` dpi, sets exactly that format
/// and that dpi, whatever the state was before.
pub proof fn law_export_params_entered(v: AppView, f: Seq<char>, dpi: u32)
    requires
        f == "jpg"@ || f == "png"@ || f == "webp"@ || f == "tiff"@,
    ensures
        apply_export_spec(v, f + ","@ + decimal(dpi as nat)).export_format == f,
        apply_export_spec(v, f + ","@ + decimal(dpi as nat)).export_dpi == dpi,
{
    lemma_export_text_parts(f, dpi);
}

/// Pressing Enter on the export parameter screen with `<format>,<dpi>` typed
/// sets that format and dpi and hands the line on.
pub proof fn law_export_params_confirmed(v: AppView, f: Seq<char>, dpi: u32, stamp: Seq<char>)
    requires
        f == "jpg"@ || f == "png"@ || f == "webp"@ || f == "tiff"@,
        v.screen == Screen::ParamInput,
        !v.show_help,
        v.selected_action == MenuAction::ExportImages,
        v.input_buffer == f + ","@ + decimal(dpi as nat),
    ensures
        key_step(v, press(KeyCode::Enter), stamp).0.export_format == f,
        key_step(v, press(KeyCode::Enter), stamp).0.export_dpi == dpi,
        key_step(v, press(KeyCode::Enter), stamp).1 == EffectView::ParamsEntered(v.input_buffer),
{
    lemma_export_text_parts(f, dpi);
}

/// Esc on the parameter screen (help hidden) cancels the prompt: back to the
/// main screen, every other part of the state as it was, and no outside work.
pub proof fn law_param_escape_cancels(v: AppView, stamp: Seq<char>)
    requires
        v.screen == Screen::ParamInput,
        !v.show_help,
    ensures
        key_step(v, press(KeyCode::Esc), stamp) == (AppView { screen: Screen::Main, ..v }, EffectView::Nothing),
{
}

/// A successful run that reports no new output paths keeps the loaded files,
/// and the file to reload is the first of them, if any; one that reports new
/// paths loads those, and the first is reloaded.
pub proof fn law_finish_keeps_or_replaces_files(
    v: AppView,
    message: Seq<char>,
    new_paths: Seq<Seq<char>>,
    stamp: Seq<char>,
)
    ensures
        new_paths.len() == 0 ==> finish_ok_spec(v, message, new_paths, stamp).0.file_paths == v.file_paths,
        new_paths.len() == 0 ==> finish_ok_spec(v, message, new_paths, stamp).1 == (if v.file_paths.len() > 0 {
            Some(v.file_paths[0])
        } else {
            None::<Seq<char>>
        }),
        new_paths.len() > 0 ==> finish_ok_spec(v, message, new_paths, stamp).0.file_paths == new_paths,
        new_paths.len() > 0 ==> finish_ok_spec(v, message, new_paths, stamp).1 == Some(new_paths[0]),
        finish_ok_spec(v, message, new_paths, stamp).0.result_message == message,
        finish_ok_spec(v, message, new_paths, stamp).0.last_result_ok,
        finish_ok_spec(v, message, new_paths, stamp).0.screen == Screen::Result,
        finish_ok_spec(v, message, new_paths, stamp).0.action_log.len() == v.action_log.len() + 1,
{
}

} // verus!
