//! The text and layout arithmetic of the front end's screens; drawing them
//! is left to the binary.

use vstd::prelude::*;

use crate::error::append_str;
use crate::text::{decimal, push_char, push_decimal};
use crate::tui::app::{
    action_hotkey, action_label, entry_view, icon_state_spec, join_lines, join_with_newlines,
    menu_at, strings_view, App, AppView, ColorSpaceInfo, LogEntryView, LogStatus, MenuAction,
    Screen, SingleAsciiIconState, MENU_LEN,
};

verus! {

/// The colours of the front end's palette.
#[derive(Debug, Clone, Copy, PartialEq, Eq, Structural)]
pub enum AppColor {
    PrimaryOrange,
    SecondaryOrange,
    TertiaryOrange,
}

impl AppColor {
    /// The colour as red, green and blue components.
    pub fn app_colors(&self) -> (rgb: (u8, u8, u8))
        ensures
            rgb == match *self {
                AppColor::PrimaryOrange => (232u8, 104u8, 7u8),
                AppColor::SecondaryOrange => (200u8, 80u8, 5u8),
                AppColor::TertiaryOrange => (160u8, 60u8, 3u8),
            },
    {
        match self {
            AppColor::PrimaryOrange => (232, 104, 7),
            AppColor::SecondaryOrange => (200, 80, 5),
            AppColor::TertiaryOrange => (160, 60, 3),
        }
    }
}

/// A rectangle of terminal cells.
#[derive(Debug, Clone, Copy, PartialEq, Eq, Structural)]
pub struct Area {
    pub x: u16,
    pub y: u16,
    pub width: u16,
    pub height: u16,
}

/// An area that lies within the terminal's coordinate range.
pub open spec fn area_fits(a: Area) -> bool {
    a.x + a.width <= u16::MAX && a.y + a.height <= u16::MAX
}

pub open spec fn min_u16(a: u16, b: u16) -> u16 {
    if a <= b { a } else { b }
}

/// An area of at most `width` by `height` cells centred in `area`.
pub open spec fn centered_spec(width: u16, height: u16, area: Area) -> Area {
    let dx = if area.width >= width { (area.width - width) / 2 } else { 0 };
    let dy = if area.height >= height { (area.height - height) / 2 } else { 0 };
    Area {
        x: (area.x + dx) as u16,
        y: (area.y + dy) as u16,
        width: min_u16(width, area.width),
        height: min_u16(height, area.height),
    }
}

/// An area of at most `width` by `height` cells centred in `area`.
pub fn centered_rect(width: u16, height: u16, area: Area) -> (r: Area)
    requires
        area_fits(area),
    ensures
        r == centered_spec(width, height, area),
        area_fits(r),
        area.x <= r.x && r.x + r.width <= area.x + area.width,
        area.y <= r.y && r.y + r.height <= area.y + area.height,
{
    let dx = area.width.saturating_sub(width) / 2;
    let dy = area.height.saturating_sub(height) / 2;
    let w = if width <= area.width { width } else { area.width };
    let h = if height <= area.height { height } else { area.height };
    Area { x: area.x + dx, y: area.y + dy, width: w, height: h }
}

/// The tag the status line carries while overwriting.
pub open spec fn overwrite_tag(on: bool) -> Seq<char> {
    if on { " [OVERWRITE] "@ } else { Seq::empty() }
}

/// The status line of the main screen.
pub open spec fn status_spec(v: AppView) -> Seq<char> {
    let tag = overwrite_tag(v.overwrite);
    if v.file_paths.len() == 0 {
        "No files loaded"@ + tag
    } else if v.file_paths.len() == 1 {
        " "@ + v.file_paths[0] + tag
    } else {
        " "@ + decimal(v.file_paths.len()) + " files loaded"@ + tag
    }
}

/// The status line of the main screen: the loaded file, or how many files
/// are loaded, tagged when overwriting.
pub fn status_text(app: &App) -> (r: String)
    ensures
        r@ == status_spec(app@),
{
    let n = app.file_paths.len();
    let mut r = if n == 0 {
        String::from_str("No files loaded")
    } else if n == 1 {
        let mut s = String::from_str(" ");
        append_str(&mut s, app.file_paths[0].as_str());
        s
    } else {
        let mut s = String::from_str(" ");
        push_decimal(&mut s, n as u64);
        append_str(&mut s, " files loaded");
        s
    };
    if app.overwrite {
        append_str(&mut r, " [OVERWRITE] ");
    } else {
        assert(r@ + Seq::<char>::empty() =~= r@);
    }
    r
}

/// The footer entry of a menu entry: `[<hotkey>]` then its label after the first letter.
pub open spec fn footer_entry(a: MenuAction) -> Seq<char> {
    let label = action_label(a);
    "["@ + seq![action_hotkey(a)->0] + "]"@ + label.subrange(1, label.len() as int)
}

/// The footer entries of the first `n` menu entries, separated by spaces.
pub open spec fn footer_entries(n: int) -> Seq<char>
    decreases n,
{
    if n <= 0 {
        Seq::empty()
    } else if n == 1 {
        footer_entry(menu_at(0))
    } else {
        footer_entries(n - 1) + " "@ + footer_entry(menu_at(n - 1))
    }
}

/// The footer of the main screen: every entry's hotkey, then the help key.
pub open spec fn footer_spec() -> Seq<char> {
    " "@ + footer_entries(MENU_LEN as int) + " [?]help"@
}

proof fn lemma_labels_nonempty(a: MenuAction)
    ensures
        action_label(a).len() >= 1,
{
    reveal_strlit("Trim Marks");
    reveal_strlit("Resize to Bleed");
    reveal_strlit("Export Images");
    reveal_strlit("Remap Colors");
    reveal_strlit("Preview Page");
    reveal_strlit("Toggle Overwrite");
    reveal_strlit("Output Path");
    reveal_strlit("Change Files");
    reveal_strlit("Quit");
}

/// The footer of the main screen.
pub fn footer_text() -> (r: String)
    ensures
        r@ == footer_spec(),
{
    let mut r = String::from_str(" ");
    let mut i: usize = 0;
    while i < MENU_LEN
        invariant
            i <= MENU_LEN,
            r@ == " "@ + footer_entries(i as int),
        decreases MENU_LEN - i,
    {
        let a = MenuAction::at(i);
        if i > 0 {
            append_str(&mut r, " ");
        }
        let k = match a.hotkey() {
            Some(k) => k,
            None => ' ',
        };
        append_str(&mut r, "[");
        push_char(&mut r, k);
        append_str(&mut r, "]");
        let label = a.label();
        proof { lemma_labels_nonempty(a); }
        let len = label.unicode_len();
        append_str(&mut r, label.substring_char(1, len));
        proof {
            if i == 0 {
                assert(r@ =~= " "@ + footer_entries(1));
            } else {
                assert(r@ =~= " "@ + footer_entries(i + 1));
            }
        }
        i = i + 1;
    }
    append_str(&mut r, " [?]help");
    r
}

/// The label of a colour make-up in the inspection table.
pub open spec fn color_label_spec(c: ColorSpaceInfo) -> Seq<char> {
    match c {
        ColorSpaceInfo::PureCMYK => "Pure CMYK"@,
        ColorSpaceInfo::PureRGB => "Pure RGB"@,
        ColorSpaceInfo::Mixed => "Mixed"@,
        ColorSpaceInfo::CPPE => "CPPE"@,
        ColorSpaceInfo::Unknown => "Unknown"@,
    }
}

/// The label of a colour make-up in the inspection table.
pub fn color_label(c: ColorSpaceInfo) -> (r: &'static str)
    ensures
        r@ == color_label_spec(c),
{
    match c {
        ColorSpaceInfo::PureCMYK => "Pure CMYK",
        ColorSpaceInfo::PureRGB => "Pure RGB",
        ColorSpaceInfo::Mixed => "Mixed",
        ColorSpaceInfo::CPPE => "CPPE",
        ColorSpaceInfo::Unknown => "Unknown",
    }
}

/// The tag of a log status.
pub open spec fn status_tag_spec(s: LogStatus) -> Seq<char> {
    match s {
        LogStatus::Success => "OK  "@,
        LogStatus::Failed => "FAIL"@,
        LogStatus::Partial => "PART"@,
    }
}

/// One line of the action log panel.
pub open spec fn log_line_spec(e: LogEntryView) -> Seq<char> {
    " ["@ + e.timestamp + "] "@ + status_tag_spec(e.status) + "  "@ + e.action
}

/// The number of log entries the panel shows.
pub open spec fn shown_count(len: nat) -> nat {
    if len < 3 { len } else { 3 }
}

/// The lines of the action log panel: the newest entries, newest first.
pub open spec fn log_panel_lines(log: Seq<LogEntryView>) -> Seq<Seq<char>> {
    Seq::new(shown_count(log.len()), |i: int| log_line_spec(log[log.len() - 1 - i]))
}

/// The action log panel: the three newest entries, newest first, or the idle
/// message when nothing has been logged.
pub open spec fn action_log_spec(v: AppView) -> Seq<char> {
    if v.action_log.len() == 0 { v.idle_quip } else { join_lines(log_panel_lines(v.action_log)) }
}

fn status_tag(s: LogStatus) -> (r: &'static str)
    ensures
        r@ == status_tag_spec(s),
{
    match s {
        LogStatus::Success => "OK  ",
        LogStatus::Failed => "FAIL",
        LogStatus::Partial => "PART",
    }
}

/// The action log panel.
pub fn action_log_text(app: &App) -> (r: String)
    ensures
        r@ == action_log_spec(app@),
{
    let n = app.action_log.len();
    if n == 0 {
        return app.idle_quip.clone();
    }
    let ghost log = app@.action_log;
    let m: usize = if n < 3 { n } else { 3 };
    let mut lines: Vec<String> = Vec::new();
    let mut k: usize = 0;
    while k < m
        invariant
            n == app.action_log@.len(),
            log == app@.action_log,
            log.len() == n,
            m == shown_count(n as nat),
            m <= n,
            k <= m,
            lines@.len() == k,
            forall|j: int| 0 <= j < k ==> #[trigger] lines@[j]@ == log_line_spec(log[n - 1 - j]),
        decreases m - k,
    {
        let e = &app.action_log[n - 1 - k];
        assert(log[n - 1 - k] == entry_view(*e));
        let mut line = String::from_str(" [");
        append_str(&mut line, e.timestamp.as_str());
        append_str(&mut line, "] ");
        append_str(&mut line, status_tag(e.status));
        append_str(&mut line, "  ");
        append_str(&mut line, e.action.as_str());
        lines.push(line);
        k = k + 1;
    }
    let r = join_with_newlines(&lines);
    assert(strings_view(lines@) =~= log_panel_lines(log));
    r
}

/// The hint under the path input of the file screen.
pub open spec fn file_select_hint_spec(v: AppView) -> Seq<char> {
    if v.file_paths.len() == 0 {
        " Enter to confirm \u{2022} Esc to quit"@
    } else {
        " Enter to confirm \u{2022} Esc to go back"@
    }
}

/// The hint under the path input of the file screen.
pub fn file_select_hint(app: &App) -> (r: &'static str)
    ensures
        r@ == file_select_hint_spec(app@),
{
    if app.file_paths.len() == 0 {
        " Enter to confirm \u{2022} Esc to quit"
    } else {
        " Enter to confirm \u{2022} Esc to go back"
    }
}

/// The title of the parameter screen for an action.
pub open spec fn param_prompt_spec(a: MenuAction) -> Seq<char> {
    match a {
        MenuAction::ResizeToBleed => " Bleed size (points)"@,
        MenuAction::ExportImages => " Export settings (format,dpi)"@,
        MenuAction::RemapColors => " Remap colors (C M Y K)"@,
        _ => " Parameters"@,
    }
}

/// The title of the parameter screen for an action.
pub fn param_prompt(a: MenuAction) -> (r: &'static str)
    ensures
        r@ == param_prompt_spec(a),
{
    match a {
        MenuAction::ResizeToBleed => " Bleed size (points)",
        MenuAction::ExportImages => " Export settings (format,dpi)",
        MenuAction::RemapColors => " Remap colors (C M Y K)",
        _ => " Parameters",
    }
}

/// The example shown beside the parameter input for an action.
pub open spec fn param_hint_spec(a: MenuAction) -> Seq<char> {
    match a {
        MenuAction::ResizeToBleed => " e.g. 9.0"@,
        MenuAction::ExportImages => " e.g. jpg,150 | formats: jpg, png, webp, tiff"@,
        MenuAction::RemapColors => " e.g. 1.0 1.0 1.0 1.0,0.6 0.4 0.2 1.0,1 | CMYK \u{2192} CMYK (tolerance)"@,
        _ => ""@,
    }
}

/// The example shown beside the parameter input for an action.
pub fn param_hint(a: MenuAction) -> (r: &'static str)
    ensures
        r@ == param_hint_spec(a),
{
    match a {
        MenuAction::ResizeToBleed => " e.g. 9.0",
        MenuAction::ExportImages => " e.g. jpg,150 | formats: jpg, png, webp, tiff",
        MenuAction::RemapColors => " e.g. 1.0 1.0 1.0 1.0,0.6 0.4 0.2 1.0,1 | CMYK \u{2192} CMYK (tolerance)",
        _ => "",
    }
}

/// The caption under the file picture: ` <count> file ` or ` <count> files `.
pub open spec fn icon_subtitle_spec(v: AppView) -> Seq<char> {
    " "@ + decimal(v.file_paths.len()) + (if v.file_paths.len() == 1 { " file "@ } else { " files "@ })
}

/// The caption under the file picture.
pub fn icon_subtitle(app: &App) -> (r: String)
    ensures
        r@ == icon_subtitle_spec(app@),
{
    let n = app.file_paths.len();
    let mut r = String::from_str(" ");
    push_decimal(&mut r, n as u64);
    if n == 1 {
        append_str(&mut r, " file ");
    } else {
        append_str(&mut r, " files ");
    }
    r
}

/// The picture shown: a failure picture on the result screen of a failed
/// action, otherwise the file's picture.
pub open spec fn display_icon_spec(v: AppView) -> SingleAsciiIconState {
    if !v.last_result_ok && v.screen == Screen::Result {
        SingleAsciiIconState::FailedToLoad
    } else {
        icon_state_spec(v)
    }
}

/// The picture shown on the main screen.
pub fn display_icon_state(app: &App) -> (s: SingleAsciiIconState)
    ensures
        s == display_icon_spec(app@),
{
    if !app.last_result_ok && app.screen == Screen::Result {
        SingleAsciiIconState::FailedToLoad
    } else {
        app.ascii_icon_state()
    }
}

/// The line of the keyboard reference for a menu entry: its key, six spaces, its label.
pub open spec fn help_entry(a: MenuAction) -> Seq<char> {
    seq![action_hotkey(a)->0] + "      "@ + action_label(a)
}

/// The lines of the keyboard reference.
pub open spec fn help_lines_spec() -> Seq<Seq<char>> {
    seq!["\u{2191}/\u{2193}    Navigate menu"@, "Enter  Select"@, "Esc    Back / Quit"@]
        + Seq::new(MENU_LEN as nat, |i: int| help_entry(menu_at(i)))
        + seq!["?      Toggle this help"@]
}

/// The lines of the keyboard reference.
pub fn help_lines() -> (r: Vec<String>)
    ensures
        strings_view(r@) == help_lines_spec(),
{
    let mut r: Vec<String> = Vec::new();
    r.push(String::from_str("\u{2191}/\u{2193}    Navigate menu"));
    r.push(String::from_str("Enter  Select"));
    r.push(String::from_str("Esc    Back / Quit"));
    let mut i: usize = 0;
    while i < MENU_LEN
        invariant
            i <= MENU_LEN,
            r@.len() == 3 + i,
            r@[0]@ == "\u{2191}/\u{2193}    Navigate menu"@,
            r@[1]@ == "Enter  Select"@,
            r@[2]@ == "Esc    Back / Quit"@,
            forall|j: int| 0 <= j < i ==> #[trigger] r@[3 + j]@ == help_entry(menu_at(j)),
        decreases MENU_LEN - i,
    {
        let a = MenuAction::at(i);
        let mut line = String::new();
        match a.hotkey() {
            Some(k) => push_char(&mut line, k),
            None => {},
        }
        append_str(&mut line, "      ");
        append_str(&mut line, a.label());
        r.push(line);
        i = i + 1;
    }
    r.push(String::from_str("?      Toggle this help"));
    let ghost spec = help_lines_spec();
    assert(spec.len() == 13);
    assert forall|k: int| 0 <= k < 13 implies #[trigger] strings_view(r@)[k] == spec[k] by {
        if 3 <= k < 12 {
            assert(r@[3 + (k - 3)]@ == help_entry(menu_at(k - 3)));
        }
    }
    assert(strings_view(r@) =~= spec);
    r
}

/// The current output directory, as the output screen mentions it.
pub open spec fn current_output_spec(v: AppView) -> Seq<char> {
    match v.output_dir {
        Some(d) => " (current: "@ + d + ")"@,
        None => Seq::empty(),
    }
}

/// The current output directory, as the output screen mentions it.
pub fn current_output_text(app: &App) -> (r: String)
    ensures
        r@ == current_output_spec(app@),
{
    match &app.output_dir {
        Some(d) => {
            let mut r = String::from_str(" (current: ");
            append_str(&mut r, d.as_str());
            append_str(&mut r, ")");
            r
        },
        None => String::new(),
    }
}

} // verus!
