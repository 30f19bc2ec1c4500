//! The state of the terminal front end and how each key press changes it.
//!
//! The front end's loop is split in two: this module decides, from the state
//! and an event, the next state and what outside work is to be done (an
//! [`Effect`]); the binary performs that work (file-system probes, running a
//! PDF operation, formatting floating-point parameters) and reports back.

use vstd::prelude::*;

use crate::error::{append_str, description, friendly_error, friendly_text, io_class_of, kind_of, Error};
use crate::process::{has_pdf_extension, is_pdf_path};
use crate::text::{
    ascii_lower, ascii_lower_text, decimal, parse_u32_spec, parse_u32_text, pop_char, push_char,
    push_decimal, split_once, split_once_text, str_eq, trim_text, trimmed, unescape_spaces,
    unescape_text, unquote_text, unquoted,
};


verus! {

// ---------------------------------------------------------------------------
// Plain types
// ---------------------------------------------------------------------------

/// An entry of the main menu.
#[derive(Debug, Clone, Copy, PartialEq, Eq, Structural)]
pub enum MenuAction {
    TrimMarks,
    ResizeToBleed,
    ExportImages,
    RemapColors,
    PreviewPage,
    ToggleOverwrite,
    OutputPath,
    ChangeFiles,
    Quit,
}

/// The screen the front end shows.
#[derive(Debug, Clone, Copy, PartialEq, Eq, Structural)]
pub enum Screen {
    Main,
    FileSelect,
    OutputSelect,
    ParamInput,
    Processing,
    Result,
}

/// Where processed files go: next to their input, or into a chosen directory.
#[derive(Debug, Clone, Copy, PartialEq, Eq, Structural)]
pub enum OutputChoice {
    Same,
    New,
}

/// The picture the main screen shows for a single file.
#[derive(Debug, Clone, Copy, PartialEq, Eq, Structural)]
pub enum SingleAsciiIconState {
    NoTrimBox,
    TrimBoxPresent,
    InvalidPdf,
    PureCMYK,
    PureRGB,
    Loading,
    ResizingToBleed,
    ExportImages,
    DeleteTrimMarks,
    FailedToLoad,
}

/// The picture the main screen shows for a batch of files.
#[derive(Debug, Clone, Copy, PartialEq, Eq, Structural)]
pub enum BatchAsciiIconState {
    NoTrimBox,
    TrimBoxPresent,
    InvalidPdf,
    PureCMYK,
    PureRGB,
    ResizingToBleed,
    ExportImages,
    DeleteTrimMarks,
}

/// The colour make-up shown for the current file.
#[derive(Debug, Clone, Copy, PartialEq, Eq, Structural)]
pub enum ColorSpaceInfo {
    PureCMYK,
    PureRGB,
    Mixed,
    CPPE,
    Unknown,
}

/// How an action in the log ended.
#[derive(Debug, Clone, Copy, PartialEq, Eq, Structural)]
pub enum LogStatus {
    Success,
    Failed,
    Partial,
}

/// One line of the action log.
pub struct ActionLogEntry {
    pub timestamp: String,
    pub action: String,
    pub status: LogStatus,
}

/// What the state machine knows of the current file's metadata: whether it
/// has a trim box, and its colour make-up.
#[derive(Debug, Clone, Copy, PartialEq, Eq, Structural)]
pub struct PdfInfo {
    pub has_trimbox: bool,
    pub color_space: ColorSpaceInfo,
}

/// A key the front end reacts to.
#[derive(Debug, Clone, Copy, PartialEq, Eq, Structural)]
pub enum KeyCode {
    Char(char),
    Up,
    Down,
    Enter,
    Esc,
    Backspace,
    Other,
}

/// A key event: the key, and whether it was pressed (rather than released or repeated).
#[derive(Debug, Clone, Copy, PartialEq, Eq, Structural)]
pub struct KeyEvent {
    pub code: KeyCode,
    pub is_press: bool,
}

/// What the file-system says of a path the user typed.
pub enum PathProbe {
    /// A directory, with the paths of its entries in the order they were listed.
    Directory(Vec<String>),
    /// Nothing exists at the path.
    Missing,
    /// Something that is not a directory exists at the path.
    File,
}

/// Outside work that a step asks the binary to do.
pub enum Effect {
    /// Nothing to do.
    Nothing,
    /// Probe the typed input path and report with [`App::input_path_probed`].
    ProbeInputPath(String),
    /// Check whether the typed output path is a directory and report with
    /// [`App::output_dir_probed`].
    ProbeOutputDir(String),
    /// The parameter screen for the action was opened; for bleed resizing and
    /// colour remapping, the binary fills the input line with the current values.
    EditParams(MenuAction),
    /// Parameters were entered (trimmed text given); the binary applies the
    /// floating-point ones, then runs the selected action.
    ParamsEntered(String),
    /// Run the selected action.
    Execute,
    /// Load the metadata of the given file.
    LoadMetadata(String),
}

// ---------------------------------------------------------------------------
// Menu
// ---------------------------------------------------------------------------

/// The number of menu entries.
pub const MENU_LEN: usize = 9;

/// The menu entry at position `i`, in menu order.
pub open spec fn menu_at(i: int) -> MenuAction {
    if i == 0 { MenuAction::TrimMarks }
    else if i == 1 { MenuAction::ResizeToBleed }
    else if i == 2 { MenuAction::ExportImages }
    else if i == 3 { MenuAction::RemapColors }
    else if i == 4 { MenuAction::PreviewPage }
    else if i == 5 { MenuAction::ToggleOverwrite }
    else if i == 6 { MenuAction::OutputPath }
    else if i == 7 { MenuAction::ChangeFiles }
    else { MenuAction::Quit }
}

/// The label of a menu entry.
pub open spec fn action_label(a: MenuAction) -> Seq<char> {
    match a {
        MenuAction::TrimMarks => "Trim Marks"@,
        MenuAction::ResizeToBleed => "Resize to Bleed"@,
        MenuAction::ExportImages => "Export Images"@,
        MenuAction::RemapColors => "Remap Colors"@,
        MenuAction::PreviewPage => "Preview Page"@,
        MenuAction::ToggleOverwrite => "Toggle Overwrite"@,
        MenuAction::OutputPath => "Output Path"@,
        MenuAction::ChangeFiles => "Change Files"@,
        MenuAction::Quit => "Quit"@,
    }
}

/// The hotkey of a menu entry.
pub open spec fn action_hotkey(a: MenuAction) -> Option<char> {
    match a {
        MenuAction::TrimMarks => Some('t'),
        MenuAction::ResizeToBleed => Some('r'),
        MenuAction::ExportImages => Some('x'),
        MenuAction::RemapColors => Some('m'),
        MenuAction::PreviewPage => Some('p'),
        MenuAction::ToggleOverwrite => Some('o'),
        MenuAction::OutputPath => Some('/'),
        MenuAction::ChangeFiles => Some('f'),
        MenuAction::Quit => Some('q'),
    }
}

/// The entries that open the parameter screen before running.
pub open spec fn action_needs_params(a: MenuAction) -> bool {
    a == MenuAction::ResizeToBleed || a == MenuAction::ExportImages || a == MenuAction::RemapColors
}

/// The first menu position at or after `from` whose hotkey is `ch`.
pub open spec fn hotkey_position_from(ch: char, from: int) -> Option<int>
    decreases 9 - from,
{
    if from >= 9 || from < 0 {
        None
    } else if action_hotkey(menu_at(from)) == Some(ch) {
        Some(from)
    } else {
        hotkey_position_from(ch, from + 1)
    }
}

/// The first menu position whose hotkey is `ch`.
pub open spec fn hotkey_position(ch: char) -> Option<int> {
    hotkey_position_from(ch, 0)
}

impl MenuAction {
    /// The menu entry at position `i` (`i < MENU_LEN`), in menu order.
    pub fn at(i: usize) -> (a: MenuAction)
        requires
            i < MENU_LEN,
        ensures
            a == menu_at(i as int),
    {
        if i == 0 { MenuAction::TrimMarks }
        else if i == 1 { MenuAction::ResizeToBleed }
        else if i == 2 { MenuAction::ExportImages }
        else if i == 3 { MenuAction::RemapColors }
        else if i == 4 { MenuAction::PreviewPage }
        else if i == 5 { MenuAction::ToggleOverwrite }
        else if i == 6 { MenuAction::OutputPath }
        else if i == 7 { MenuAction::ChangeFiles }
        else { MenuAction::Quit }
    }

    /// All menu entries, in menu order.
    pub fn all() -> (v: Vec<MenuAction>)
        ensures
            v@.len() == MENU_LEN,
            forall|i: int| 0 <= i < MENU_LEN ==> #[trigger] v@[i] == menu_at(i),
    {
        let mut v: Vec<MenuAction> = Vec::new();
        let mut i: usize = 0;
        while i < MENU_LEN
            invariant
                i <= MENU_LEN,
                v@.len() == i,
                forall|k: int| 0 <= k < i ==> #[trigger] v@[k] == menu_at(k),
            decreases MENU_LEN - i,
        {
            v.push(MenuAction::at(i));
            i = i + 1;
        }
        v
    }

    /// The label shown in the menu.
    pub fn label(&self) -> (l: &'static str)
        ensures
            l@ == action_label(*self),
    {
        match self {
            MenuAction::TrimMarks => "Trim Marks",
            MenuAction::ResizeToBleed => "Resize to Bleed",
            MenuAction::ExportImages => "Export Images",
            MenuAction::RemapColors => "Remap Colors",
            MenuAction::PreviewPage => "Preview Page",
            MenuAction::ToggleOverwrite => "Toggle Overwrite",
            MenuAction::OutputPath => "Output Path",
            MenuAction::ChangeFiles => "Change Files",
            MenuAction::Quit => "Quit",
        }
    }

    /// The key that selects the entry from the main screen.
    pub fn hotkey(self) -> (k: Option<char>)
        ensures
            k == action_hotkey(self),
    {
        match self {
            MenuAction::TrimMarks => Some('t'),
            MenuAction::ResizeToBleed => Some('r'),
            MenuAction::ExportImages => Some('x'),
            MenuAction::RemapColors => Some('m'),
            MenuAction::PreviewPage => Some('p'),
            MenuAction::ToggleOverwrite => Some('o'),
            MenuAction::OutputPath => Some('/'),
            MenuAction::ChangeFiles => Some('f'),
            MenuAction::Quit => Some('q'),
        }
    }

    /// Whether the entry asks for parameters before it runs.
    pub fn needs_params(self) -> (b: bool)
        ensures
            b == action_needs_params(self),
    {
        match self {
            MenuAction::ResizeToBleed | MenuAction::ExportImages | MenuAction::RemapColors => true,
            _ => false,
        }
    }
}

/// The first menu position whose hotkey is `ch`, as the main screen looks it up.
pub fn hotkey_index(ch: char) -> (r: Option<usize>)
    ensures
        match r {
            Some(i) => hotkey_position(ch) == Some(i as int),
            None => hotkey_position(ch) is None,
        },
{
    let mut i: usize = 0;
    while i < MENU_LEN
        invariant
            i <= MENU_LEN,
            hotkey_position(ch) == hotkey_position_from(ch, i as int),
        decreases MENU_LEN - i,
    {
        let hit = match MenuAction::at(i).hotkey() {
            Some(k) => k == ch,
            None => false,
        };
        if hit {
            return Some(i);
        }
        i = i + 1;
    }
    None
}


// ---------------------------------------------------------------------------
// The state and its model
// ---------------------------------------------------------------------------

/// The state of the terminal front end.
pub struct App {
    pub screen: Screen,
    pub running: bool,
    pub menu_index: usize,
    pub selected_action: MenuAction,
    pub overwrite: bool,
    pub output_dir: Option<String>,
    pub output_choice: OutputChoice,
    pub status_message: Option<String>,
    pub file_paths: Vec<String>,
    pub show_help: bool,
    pub input_buffer: String,
    pub result_message: String,
    pub last_result_ok: bool,
    pub pdf_info: Option<PdfInfo>,
    pub action_log: Vec<ActionLogEntry>,
    pub preview_page: usize,
    pub idle_quip: String,
    pub local_file_index: usize,
    pub local_files: Vec<String>,
    pub export_format: String,
    pub export_dpi: u32,
}

/// A log entry as plain values.
pub struct LogEntryView {
    pub timestamp: Seq<char>,
    pub action: Seq<char>,
    pub status: LogStatus,
}

/// The front end's state as plain values.
#[verifier::ext_equal]
pub struct AppView {
    pub screen: Screen,
    pub running: bool,
    pub menu_index: nat,
    pub selected_action: MenuAction,
    pub overwrite: bool,
    pub output_dir: Option<Seq<char>>,
    pub output_choice: OutputChoice,
    pub status_message: Option<Seq<char>>,
    pub file_paths: Seq<Seq<char>>,
    pub show_help: bool,
    pub input_buffer: Seq<char>,
    pub result_message: Seq<char>,
    pub last_result_ok: bool,
    pub pdf_info: Option<PdfInfo>,
    pub action_log: Seq<LogEntryView>,
    pub preview_page: nat,
    pub idle_quip: Seq<char>,
    pub local_file_index: nat,
    pub local_files: Seq<Seq<char>>,
    pub export_format: Seq<char>,
    pub export_dpi: u32,
}

/// An [`Effect`] as plain values.
pub enum EffectView {
    Nothing,
    ProbeInputPath(Seq<char>),
    ProbeOutputDir(Seq<char>),
    EditParams(MenuAction),
    ParamsEntered(Seq<char>),
    Execute,
    LoadMetadata(Seq<char>),
}

/// What a [`PathProbe`] reports, as plain values.
pub enum ProbeView {
    Directory(Seq<Seq<char>>),
    Missing,
    File,
}

pub open spec fn strings_view(v: Seq<String>) -> Seq<Seq<char>> {
    v.map_values(|s: String| s@)
}

pub open spec fn opt_string_view(o: Option<String>) -> Option<Seq<char>> {
    match o {
        Some(s) => Some(s@),
        None => None,
    }
}

pub open spec fn entry_view(e: ActionLogEntry) -> LogEntryView {
    LogEntryView { timestamp: e.timestamp@, action: e.action@, status: e.status }
}

impl View for ActionLogEntry {
    type V = LogEntryView;

    open spec fn view(&self) -> LogEntryView {
        entry_view(*self)
    }
}

impl View for App {
    type V = AppView;

    open spec fn view(&self) -> AppView {
        AppView {
            screen: self.screen,
            running: self.running,
            menu_index: self.menu_index as nat,
            selected_action: self.selected_action,
            overwrite: self.overwrite,
            output_dir: opt_string_view(self.output_dir),
            output_choice: self.output_choice,
            status_message: opt_string_view(self.status_message),
            file_paths: strings_view(self.file_paths@),
            show_help: self.show_help,
            input_buffer: self.input_buffer@,
            result_message: self.result_message@,
            last_result_ok: self.last_result_ok,
            pdf_info: self.pdf_info,
            action_log: self.action_log@.map_values(|e: ActionLogEntry| entry_view(e)),
            preview_page: self.preview_page as nat,
            idle_quip: self.idle_quip@,
            local_file_index: self.local_file_index as nat,
            local_files: strings_view(self.local_files@),
            export_format: self.export_format@,
            export_dpi: self.export_dpi,
        }
    }
}

impl View for Effect {
    type V = EffectView;

    open spec fn view(&self) -> EffectView {
        match self {
            Effect::Nothing => EffectView::Nothing,
            Effect::ProbeInputPath(p) => EffectView::ProbeInputPath(p@),
            Effect::ProbeOutputDir(p) => EffectView::ProbeOutputDir(p@),
            Effect::EditParams(a) => EffectView::EditParams(*a),
            Effect::ParamsEntered(t) => EffectView::ParamsEntered(t@),
            Effect::Execute => EffectView::Execute,
            Effect::LoadMetadata(p) => EffectView::LoadMetadata(p@),
        }
    }
}

impl View for PathProbe {
    type V = ProbeView;

    open spec fn view(&self) -> ProbeView {
        match self {
            PathProbe::Directory(entries) => ProbeView::Directory(strings_view(entries@)),
            PathProbe::Missing => ProbeView::Missing,
            PathProbe::File => ProbeView::File,
        }
    }
}

// ---------------------------------------------------------------------------
// The transitions, as plain functions
// ---------------------------------------------------------------------------

/// The state invariant: the menu cursor is on an entry, and the local-file
/// cursor is on a listed file (or at 0 when none is listed).
pub open spec fn wf(v: AppView) -> bool {
    &&& v.menu_index < MENU_LEN
    &&& (v.local_file_index == 0 || v.local_file_index < v.local_files.len())
}

/// The state a fresh front end starts in.
pub open spec fn initial_state(local_files: Seq<Seq<char>>, idle_quip: Seq<char>) -> AppView {
    AppView {
        screen: Screen::FileSelect,
        running: true,
        menu_index: 0,
        selected_action: MenuAction::ChangeFiles,
        overwrite: false,
        output_dir: None,
        output_choice: OutputChoice::Same,
        status_message: None,
        file_paths: Seq::empty(),
        show_help: false,
        input_buffer: Seq::empty(),
        result_message: Seq::empty(),
        last_result_ok: false,
        pdf_info: Some(PdfInfo { has_trimbox: false, color_space: ColorSpaceInfo::Unknown }),
        action_log: Seq::empty(),
        preview_page: 0,
        idle_quip,
        local_file_index: 0,
        local_files,
        export_format: "jpg"@,
        export_dpi: 150,
    }
}

pub open spec fn quit_spec(v: AppView) -> AppView {
    AppView { running: false, ..v }
}

pub open spec fn navigate_spec(v: AppView, screen: Screen) -> AppView {
    AppView { screen, ..v }
}

pub open spec fn toggle_help_spec(v: AppView) -> AppView {
    AppView { show_help: !v.show_help, ..v }
}

pub open spec fn menu_up_spec(v: AppView) -> AppView {
    if v.menu_index > 0 { AppView { menu_index: (v.menu_index - 1) as nat, ..v } } else { v }
}

pub open spec fn menu_down_spec(v: AppView) -> AppView {
    if v.menu_index + 1 < MENU_LEN { AppView { menu_index: v.menu_index + 1, ..v } } else { v }
}

pub open spec fn local_file_up_spec(v: AppView) -> AppView {
    if v.local_file_index > 0 {
        AppView { local_file_index: (v.local_file_index - 1) as nat, ..v }
    } else {
        v
    }
}

pub open spec fn local_file_down_spec(v: AppView) -> AppView {
    if v.local_file_index + 1 < v.local_files.len() {
        AppView { local_file_index: v.local_file_index + 1, ..v }
    } else {
        v
    }
}

/// Choosing the highlighted local file: it becomes the one file to process.
pub open spec fn select_local_file_spec(v: AppView) -> (AppView, EffectView) {
    if v.local_file_index < v.local_files.len() {
        let path = v.local_files[v.local_file_index as int];
        (AppView { file_paths: seq![path], screen: Screen::Main, ..v }, EffectView::LoadMetadata(path))
    } else {
        (v, EffectView::Nothing)
    }
}

/// The picture shown for the current file.
pub open spec fn icon_state_spec(v: AppView) -> SingleAsciiIconState {
    if v.screen == Screen::Processing {
        SingleAsciiIconState::Loading
    } else {
        match v.pdf_info {
            None => SingleAsciiIconState::NoTrimBox,
            Some(m) => if !m.has_trimbox {
                SingleAsciiIconState::NoTrimBox
            } else if m.color_space == ColorSpaceInfo::PureRGB {
                SingleAsciiIconState::PureRGB
            } else if m.color_space == ColorSpaceInfo::PureCMYK {
                SingleAsciiIconState::PureCMYK
            } else {
                SingleAsciiIconState::TrimBoxPresent
            },
        }
    }
}

/// The log text of an overwrite toggle that leaves overwriting `on`.
pub open spec fn overwrite_log_text(on: bool) -> Seq<char> {
    if on { "ToggleOverwrite (TRUE)"@ } else { "ToggleOverwrite (FALSE)"@ }
}

/// The input line offered for the export parameters: `<format>,<dpi>`.
pub open spec fn export_params_text(v: AppView) -> Seq<char> {
    v.export_format + ","@ + decimal(v.export_dpi as nat)
}

/// Choosing the highlighted menu entry (`stamp` is the time of the choice).
pub open spec fn select_menu_spec(v: AppView, stamp: Seq<char>) -> (AppView, EffectView) {
    let a = menu_at(v.menu_index as int);
    let v1 = AppView { selected_action: a, ..v };
    match a {
        MenuAction::ToggleOverwrite => {
            let on = !v.overwrite;
            let entry = LogEntryView {
                timestamp: stamp,
                action: overwrite_log_text(on),
                status: LogStatus::Success,
            };
            (AppView { overwrite: on, action_log: v.action_log.push(entry), ..v1 }, EffectView::Nothing)
        },
        MenuAction::OutputPath => {
            let buffer = match v.output_dir { Some(d) => d, None => Seq::empty() };
            (AppView { input_buffer: buffer, screen: Screen::OutputSelect, ..v1 }, EffectView::Nothing)
        },
        MenuAction::ChangeFiles => (
            AppView { input_buffer: Seq::empty(), screen: Screen::FileSelect, ..v1 },
            EffectView::Nothing,
        ),
        MenuAction::Quit => (AppView { running: false, ..v1 }, EffectView::Nothing),
        MenuAction::ExportImages => (
            AppView { input_buffer: export_params_text(v), screen: Screen::ParamInput, ..v1 },
            EffectView::EditParams(a),
        ),
        MenuAction::ResizeToBleed | MenuAction::RemapColors => (
            AppView { screen: Screen::ParamInput, ..v1 },
            EffectView::EditParams(a),
        ),
        _ => (v1, EffectView::Execute),
    }
}

/// The export formats the parameter screen accepts.
pub open spec fn is_export_format(f: Seq<char>) -> bool {
    f == "jpg"@ || f == "png"@ || f == "webp"@ || f == "tiff"@
}

/// Applying export parameters typed as `<format>,<dpi>`: a known format (in
/// any ASCII case, surrounding white space ignored) replaces the format, and a
/// dpi that parses as a `u32` replaces the dpi; anything else is ignored.
pub open spec fn apply_export_spec(v: AppView, text: Seq<char>) -> AppView {
    let parts = split_once(text, ',');
    let format = ascii_lower(trimmed(parts.0));
    let v1 = if is_export_format(format) { AppView { export_format: format, ..v } } else { v };
    match parts.1 {
        Some(rest) => match parse_u32_spec(trimmed(split_once(rest, ',').0)) {
            Some(dpi) => AppView { export_dpi: dpi, ..v1 },
            None => v1,
        },
        None => v1,
    }
}

/// The input line after typing `c`.
pub open spec fn type_char_spec(v: AppView, c: char) -> AppView {
    AppView { input_buffer: v.input_buffer.push(c), ..v }
}

/// The input line after a backspace.
pub open spec fn backspace_spec(v: AppView) -> AppView {
    if v.input_buffer.len() > 0 {
        AppView { input_buffer: v.input_buffer.drop_last(), ..v }
    } else {
        v
    }
}

/// What the main screen does with a pressed key.
pub open spec fn main_key_spec(v: AppView, code: KeyCode, stamp: Seq<char>) -> (AppView, EffectView) {
    match code {
        KeyCode::Up => (menu_up_spec(v), EffectView::Nothing),
        KeyCode::Down => (menu_down_spec(v), EffectView::Nothing),
        KeyCode::Enter => select_menu_spec(v, stamp),
        KeyCode::Char(ch) => if ch == 'q' {
            (quit_spec(v), EffectView::Nothing)
        } else {
            match hotkey_position(ch) {
                Some(i) => select_menu_spec(AppView { menu_index: i as nat, ..v }, stamp),
                None => (v, EffectView::Nothing),
            }
        },
        KeyCode::Esc => (quit_spec(v), EffectView::Nothing),
        _ => (v, EffectView::Nothing),
    }
}

/// The path the file screen reads from its input line: trimmed, unquoted,
/// with escaped spaces unescaped.
pub open spec fn typed_input_path(buffer: Seq<char>) -> Seq<char> {
    unescape_spaces(unquoted(trimmed(buffer)))
}

/// What the file screen does with a pressed key.
pub open spec fn file_select_key_spec(v: AppView, code: KeyCode) -> (AppView, EffectView) {
    match code {
        KeyCode::Esc => if v.file_paths.len() == 0 {
            (quit_spec(v), EffectView::Nothing)
        } else {
            (navigate_spec(v, Screen::Main), EffectView::Nothing)
        },
        KeyCode::Enter => if v.input_buffer.len() == 0 {
            (v, EffectView::Nothing)
        } else {
            (v, EffectView::ProbeInputPath(typed_input_path(v.input_buffer)))
        },
        KeyCode::Char(c) => (type_char_spec(v, c), EffectView::Nothing),
        KeyCode::Backspace => (backspace_spec(v), EffectView::Nothing),
        _ => (v, EffectView::Nothing),
    }
}

pub open spec fn toggled_choice(c: OutputChoice) -> OutputChoice {
    match c {
        OutputChoice::Same => OutputChoice::New,
        OutputChoice::New => OutputChoice::Same,
    }
}

/// What the output-location screen does with a pressed key.
pub open spec fn output_select_key_spec(v: AppView, code: KeyCode) -> (AppView, EffectView) {
    match code {
        KeyCode::Up | KeyCode::Down => (
            AppView { output_choice: toggled_choice(v.output_choice), ..v },
            EffectView::Nothing,
        ),
        KeyCode::Enter => match v.output_choice {
            OutputChoice::Same => (
                AppView {
                    output_dir: None,
                    status_message: Some("Output: same location"@),
                    input_buffer: Seq::empty(),
                    screen: Screen::Main,
                    ..v
                },
                EffectView::Nothing,
            ),
            OutputChoice::New => (v, EffectView::ProbeOutputDir(unquoted(trimmed(v.input_buffer)))),
        },
        KeyCode::Char(c) => if v.output_choice == OutputChoice::New {
            (type_char_spec(v, c), EffectView::Nothing)
        } else {
            (v, EffectView::Nothing)
        },
        KeyCode::Backspace => if v.output_choice == OutputChoice::New {
            (backspace_spec(v), EffectView::Nothing)
        } else {
            (v, EffectView::Nothing)
        },
        KeyCode::Esc => (navigate_spec(v, Screen::Main), EffectView::Nothing),
        _ => (v, EffectView::Nothing),
    }
}

/// What the parameter screen does with a pressed key.
pub open spec fn param_input_key_spec(v: AppView, code: KeyCode) -> (AppView, EffectView) {
    match code {
        KeyCode::Esc => (navigate_spec(v, Screen::Main), EffectView::Nothing),
        KeyCode::Enter => {
            let text = trimmed(v.input_buffer);
            let v1 = if v.selected_action == MenuAction::ExportImages { apply_export_spec(v, text) } else { v };
            (v1, EffectView::ParamsEntered(text))
        },
        KeyCode::Char(c) => (type_char_spec(v, c), EffectView::Nothing),
        KeyCode::Backspace => (backspace_spec(v), EffectView::Nothing),
        _ => (v, EffectView::Nothing),
    }
}

/// How a key event changes the state, and what outside work it asks for
/// (`stamp` is the time of the event, logged if it toggles overwriting).
pub open spec fn key_step(v: AppView, key: KeyEvent, stamp: Seq<char>) -> (AppView, EffectView) {
    if !key.is_press {
        (v, EffectView::Nothing)
    } else if key.code == KeyCode::Char('?') {
        (toggle_help_spec(v), EffectView::Nothing)
    } else if v.show_help {
        (AppView { show_help: false, ..v }, EffectView::Nothing)
    } else {
        match v.screen {
            Screen::Main => main_key_spec(v, key.code, stamp),
            Screen::FileSelect => file_select_key_spec(v, key.code),
            Screen::OutputSelect => output_select_key_spec(v, key.code),
            Screen::ParamInput => param_input_key_spec(v, key.code),
            Screen::Processing => if key.code == KeyCode::Esc {
                (navigate_spec(v, Screen::Main), EffectView::Nothing)
            } else {
                (v, EffectView::Nothing)
            },
            Screen::Result => if key.code == KeyCode::Enter || key.code == KeyCode::Esc {
                (navigate_spec(v, Screen::Main), EffectView::Nothing)
            } else {
                (v, EffectView::Nothing)
            },
        }
    }
}

/// Whether a path names a PDF file, as a predicate.
pub open spec fn pdf_pred() -> spec_fn(Seq<char>) -> bool {
    |p: Seq<char>| is_pdf_path(p)
}

/// The PDF files among directory entries, in listing order.
pub open spec fn pdf_entries(entries: Seq<Seq<char>>) -> Seq<Seq<char>> {
    entries.filter(pdf_pred())
}

/// `<count> file(s) loaded`.
pub open spec fn loaded_text(count: nat) -> Seq<char> {
    decimal(count) + " file(s) loaded"@
}

/// How the outcome of probing the typed input path `path` changes the state;
/// also the file whose metadata is to be loaded, if any.
pub open spec fn input_probe_spec(v: AppView, path: Seq<char>, probe: ProbeView) -> (AppView, Option<Seq<char>>) {
    match probe {
        ProbeView::Directory(entries) => {
            let pdfs = pdf_entries(entries);
            if pdfs.len() == 0 {
                (
                    AppView {
                        file_paths: pdfs,
                        status_message: Some("No PDF files found in directory"@),
                        ..v
                    },
                    None,
                )
            } else {
                (
                    AppView {
                        file_paths: pdfs,
                        status_message: Some(loaded_text(pdfs.len())),
                        input_buffer: Seq::empty(),
                        screen: Screen::Main,
                        ..v
                    },
                    Some(pdfs[0]),
                )
            }
        },
        ProbeView::Missing => (AppView { status_message: Some("Path not found: "@ + path), ..v }, None),
        ProbeView::File => if is_pdf_path(path) {
            (
                AppView {
                    file_paths: seq![path],
                    status_message: Some("1 file(s) loaded"@),
                    input_buffer: Seq::empty(),
                    screen: Screen::Main,
                    ..v
                },
                Some(path),
            )
        } else {
            (AppView { status_message: Some("Not a PDF file"@), ..v }, None)
        },
    }
}

/// How the outcome of checking the typed output path `path` changes the state.
pub open spec fn output_probe_spec(v: AppView, path: Seq<char>, is_dir: bool) -> AppView {
    if is_dir {
        AppView {
            status_message: Some("Output: "@ + path),
            output_dir: Some(path),
            input_buffer: Seq::empty(),
            screen: Screen::Main,
            ..v
        }
    } else {
        AppView { status_message: Some(path + " is not a directory"@), ..v }
    }
}

/// The lines of `lines` joined by newlines.
pub open spec fn join_lines(lines: Seq<Seq<char>>) -> Seq<char>
    decreases lines.len(),
{
    if lines.len() == 0 {
        Seq::empty()
    } else if lines.len() == 1 {
        lines[0]
    } else {
        join_lines(lines.drop_last()) + "\n"@ + lines.last()
    }
}

/// The loaded files that do not exist (`exists[i]` tells whether file `i` does).
pub open spec fn missing_files(files: Seq<Seq<char>>, exists: Seq<bool>) -> Seq<Seq<char>>
    decreases files.len(),
{
    if files.len() == 0 || exists.len() == 0 {
        Seq::empty()
    } else {
        let rest = missing_files(files.drop_last(), exists.drop_last());
        if exists.last() { rest } else { rest.push(files.last()) }
    }
}

/// The checks before running an action: there must be files, and all must
/// exist. Gives the new state and whether to run.
pub open spec fn execute_check_spec(v: AppView, exists: Seq<bool>) -> (AppView, bool) {
    if v.file_paths.len() == 0 {
        (
            AppView {
                result_message: "No files loaded. Press [c] to select files."@,
                screen: Screen::FileSelect,
                ..v
            },
            false,
        )
    } else {
        let missing = missing_files(v.file_paths, exists);
        if missing.len() > 0 {
            (
                AppView {
                    result_message: "File not found:\n"@ + join_lines(missing),
                    screen: Screen::FileSelect,
                    ..v
                },
                false,
            )
        } else {
            (v, true)
        }
    }
}

/// The state after an action ran: its message is shown, it is logged, the
/// files it wrote (if any) become the loaded files. Also the file whose
/// metadata is to be reloaded.
pub open spec fn finish_ok_spec(v: AppView, message: Seq<char>, new_paths: Seq<Seq<char>>, stamp: Seq<char>) -> (AppView, Option<Seq<char>>) {
    let entry = LogEntryView {
        timestamp: stamp,
        action: action_label(v.selected_action),
        status: LogStatus::Success,
    };
    let files = if new_paths.len() > 0 { new_paths } else { v.file_paths };
    (
        AppView {
            result_message: message,
            last_result_ok: true,
            action_log: v.action_log.push(entry),
            file_paths: files,
            screen: Screen::Result,
            ..v
        },
        if files.len() > 0 { Some(files[0]) } else { None },
    )
}

/// The state after an action failed with the message `text`.
pub open spec fn finish_err_spec(v: AppView, text: Seq<char>) -> AppView {
    AppView { result_message: text, last_result_ok: false, screen: Screen::Result, ..v }
}


// ---------------------------------------------------------------------------
// Executable transitions
// ---------------------------------------------------------------------------

/// A `strftime` specifier that reads a clock or calendar number or name:
/// `H`, `M`, `S`, `h`, `m` or `s`.
pub open spec fn is_clock_specifier(c: char) -> bool {
    c == 'H' || c == 'M' || c == 'S' || c == 'h' || c == 'm' || c == 's'
}

/// A `strftime` format in which every `%` is followed by a clock specifier.
pub open spec fn is_clock_format(s: Seq<char>) -> bool {
    forall|i: int| 0 <= i < s.len() && #[trigger] s[i] == '%' ==> i + 1 < s.len() && is_clock_specifier(s[i + 1])
}

/// The local time (`chrono::Local::now()`) written in `format`. Chrono's
/// `strftime` parser accepts every clock format, so writing it cannot fail.
/// Nothing is stated of the text, which depends on the moment of the call.
#[verifier::external_body]
fn local_time_text(format: &str) -> String
    requires
        is_clock_format(format@),
{
    chrono::Local::now().format(format).to_string()
}

/// The local time as the action log shows it, in the format `%h:%m:%s`.
fn now_stamp() -> String {
    let format = "%h:%m:%s";
    proof {
        reveal_strlit("%h:%m:%s");
        assert forall|i: int| 0 <= i < format@.len() && #[trigger] format@[i] == '%' implies
            i + 1 < format@.len() && is_clock_specifier(format@[i + 1]) by {
            assert(i == 0 || i == 3 || i == 6);
        }
    }
    local_time_text(format)
}

fn copy_string(s: &String) -> (r: String)
    ensures
        r@ == s@,
{
    s.clone()
}

fn copy_strings(v: &Vec<String>) -> (r: Vec<String>)
    ensures
        strings_view(r@) == strings_view(v@),
{
    let mut r: Vec<String> = Vec::new();
    let n = v.len();
    let mut i: usize = 0;
    while i < n
        invariant
            n == v@.len(),
            i <= n,
            r@.len() == i,
            forall|k: int| 0 <= k < i ==> #[trigger] r@[k]@ == v@[k]@,
        decreases n - i,
    {
        r.push(copy_string(&v[i]));
        i = i + 1;
    }
    assert(strings_view(r@) =~= strings_view(v@));
    r
}

impl App {
    /// A fresh front end: the file screen, with the files found in the working
    /// directory (`local_files`) on offer and `idle_quip` as the idle message.
    pub fn new(local_files: Vec<String>, idle_quip: String) -> (app: App)
        ensures
            app@ == initial_state(strings_view(local_files@), idle_quip@),
            wf(app@),
    {
        let app = App {
            screen: Screen::FileSelect,
            running: true,
            menu_index: 0,
            selected_action: MenuAction::ChangeFiles,
            overwrite: false,
            output_dir: None,
            output_choice: OutputChoice::Same,
            status_message: None,
            file_paths: Vec::new(),
            show_help: false,
            input_buffer: String::new(),
            result_message: String::new(),
            last_result_ok: false,
            pdf_info: Some(PdfInfo { has_trimbox: false, color_space: ColorSpaceInfo::Unknown }),
            action_log: Vec::new(),
            preview_page: 0,
            idle_quip,
            local_file_index: 0,
            local_files,
            export_format: String::from_str("jpg"),
            export_dpi: 150,
        };
        assert(app@.file_paths =~= Seq::<Seq<char>>::empty());
        assert(app@.action_log =~= Seq::<LogEntryView>::empty());
        app
    }

    /// A periodic update; it changes nothing.
    pub fn tick(&mut self)
        ensures
            final(self)@ == old(self)@,
    {
    }

    /// Stops the front end's loop.
    pub fn quit(&mut self)
        ensures
            final(self)@ == quit_spec(old(self)@),
    {
        self.running = false;
    }

    /// Shows `screen`.
    pub fn navigate(&mut self, screen: Screen)
        ensures
            final(self)@ == navigate_spec(old(self)@, screen),
    {
        self.screen = screen;
    }

    /// Shows or hides the keyboard reference.
    pub fn toggle_help(&mut self)
        ensures
            final(self)@ == toggle_help_spec(old(self)@),
    {
        self.show_help = !self.show_help;
    }

    /// The picture shown for the current file: loading while processing, else
    /// by whether the file has a trim box and by its colour make-up.
    pub fn ascii_icon_state(&self) -> (s: SingleAsciiIconState)
        ensures
            s == icon_state_spec(self@),
    {
        if self.screen == Screen::Processing {
            return SingleAsciiIconState::Loading;
        }
        match &self.pdf_info {
            None => SingleAsciiIconState::NoTrimBox,
            Some(m) => if !m.has_trimbox {
                SingleAsciiIconState::NoTrimBox
            } else if m.color_space == ColorSpaceInfo::PureRGB {
                SingleAsciiIconState::PureRGB
            } else if m.color_space == ColorSpaceInfo::PureCMYK {
                SingleAsciiIconState::PureCMYK
            } else {
                SingleAsciiIconState::TrimBoxPresent
            },
        }
    }

    /// Moves the local-file cursor up, stopping at the first file.
    pub fn local_file_up(&mut self)
        ensures
            final(self)@ == local_file_up_spec(old(self)@),
    {
        if self.local_file_index > 0 {
            self.local_file_index = self.local_file_index - 1;
        }
    }

    /// Moves the local-file cursor down, stopping at the last file.
    pub fn local_file_down(&mut self)
        ensures
            final(self)@ == local_file_down_spec(old(self)@),
    {
        if self.local_file_index < self.local_files.len() && self.local_file_index + 1 < self.local_files.len() {
            self.local_file_index = self.local_file_index + 1;
        }
    }

    /// Makes the highlighted local file the one file to process, and asks for
    /// its metadata.
    pub fn select_local_file(&mut self) -> (e: Effect)
        ensures
            (final(self)@, e@) == select_local_file_spec(old(self)@),
    {
        if self.local_file_index < self.local_files.len() {
            let path = copy_string(&self.local_files[self.local_file_index]);
            let mut files: Vec<String> = Vec::new();
            files.push(copy_string(&path));
            self.file_paths = files;
            assert(strings_view(self.file_paths@) =~= seq![path@]);
            self.screen = Screen::Main;
            Effect::LoadMetadata(path)
        } else {
            Effect::Nothing
        }
    }

    /// Moves the menu cursor up, stopping at the first entry.
    pub fn menu_up(&mut self)
        ensures
            final(self)@ == menu_up_spec(old(self)@),
    {
        if self.menu_index > 0 {
            self.menu_index = self.menu_index - 1;
        }
    }

    /// Moves the menu cursor down, stopping at the last entry.
    pub fn menu_down(&mut self)
        ensures
            final(self)@ == menu_down_spec(old(self)@),
    {
        if self.menu_index < MENU_LEN && self.menu_index + 1 < MENU_LEN {
            self.menu_index = self.menu_index + 1;
        }
    }

    fn push_log(&mut self, entry: ActionLogEntry)
        ensures
            final(self)@ == (AppView { action_log: old(self)@.action_log.push(entry_view(entry)), ..old(self)@ }),
    {
        self.action_log.push(entry);
        assert(self.action_log@.map_values(|e: ActionLogEntry| entry_view(e))
            =~= old(self).action_log@.map_values(|e: ActionLogEntry| entry_view(e)).push(entry_view(entry)));
    }

    /// Chooses the highlighted menu entry at time `stamp`.
    pub fn select_menu_item_at(&mut self, stamp: &str) -> (e: Effect)
        requires
            wf(old(self)@),
        ensures
            (final(self)@, e@) == select_menu_spec(old(self)@, stamp@),
    {
        let action = MenuAction::at(self.menu_index);
        self.selected_action = action;
        match action {
            MenuAction::ToggleOverwrite => {
                self.overwrite = !self.overwrite;
                let text = if self.overwrite {
                    String::from_str("ToggleOverwrite (TRUE)")
                } else {
                    String::from_str("ToggleOverwrite (FALSE)")
                };
                let entry = ActionLogEntry {
                    timestamp: String::from_str(stamp),
                    action: text,
                    status: LogStatus::Success,
                };
                self.push_log(entry);
                Effect::Nothing
            },
            MenuAction::OutputPath => {
                self.input_buffer = match &self.output_dir {
                    Some(d) => copy_string(d),
                    None => String::new(),
                };
                self.screen = Screen::OutputSelect;
                Effect::Nothing
            },
            MenuAction::ChangeFiles => {
                self.input_buffer = String::new();
                self.screen = Screen::FileSelect;
                Effect::Nothing
            },
            MenuAction::Quit => {
                self.running = false;
                Effect::Nothing
            },
            MenuAction::ExportImages => {
                let mut text = copy_string(&self.export_format);
                append_str(&mut text, ",");
                push_decimal(&mut text, self.export_dpi as u64);
                self.input_buffer = text;
                self.screen = Screen::ParamInput;
                Effect::EditParams(action)
            },
            MenuAction::ResizeToBleed | MenuAction::RemapColors => {
                self.screen = Screen::ParamInput;
                Effect::EditParams(action)
            },
            _ => Effect::Execute,
        }
    }

    /// Chooses the highlighted menu entry (an overwrite toggle is logged with
    /// the local time).
    pub fn select_menu_item(&mut self) -> (e: Effect)
        requires
            wf(old(self)@),
        ensures
            exists|stamp: Seq<char>| (final(self)@, e@) == #[trigger] select_menu_spec(old(self)@, stamp),
    {
        let stamp = now_stamp();
        let e = self.select_menu_item_at(stamp.as_str());
        assert((self@, e@) == select_menu_spec(old(self)@, stamp@));
        e
    }

    fn type_char(&mut self, c: char)
        ensures
            final(self)@ == type_char_spec(old(self)@, c),
    {
        push_char(&mut self.input_buffer, c);
    }

    fn backspace(&mut self)
        ensures
            final(self)@ == backspace_spec(old(self)@),
    {
        pop_char(&mut self.input_buffer);
    }

    fn apply_export_params(&mut self, text: &str)
        ensures
            final(self)@ == apply_export_spec(old(self)@, text@),
    {
        let (first, rest) = split_once_text(text, ',');
        let first_trimmed = trim_text(first.as_str());
        let format = ascii_lower_text(first_trimmed.as_str());
        if str_eq(format.as_str(), "jpg") || str_eq(format.as_str(), "png")
            || str_eq(format.as_str(), "webp") || str_eq(format.as_str(), "tiff") {
            self.export_format = format;
        }
        match rest {
            Some(r) => {
                let (second, _) = split_once_text(r.as_str(), ',');
                let second_trimmed = trim_text(second.as_str());
                match parse_u32_text(second_trimmed.as_str()) {
                    Some(dpi) => {
                        self.export_dpi = dpi;
                    },
                    None => {},
                }
            },
            None => {},
        }
    }

    fn main_key(&mut self, code: KeyCode, stamp: &str) -> (e: Effect)
        requires
            wf(old(self)@),
        ensures
            (final(self)@, e@) == main_key_spec(old(self)@, code, stamp@),
    {
        match code {
            KeyCode::Up => {
                self.menu_up();
                Effect::Nothing
            },
            KeyCode::Down => {
                self.menu_down();
                Effect::Nothing
            },
            KeyCode::Enter => self.select_menu_item_at(stamp),
            KeyCode::Char(ch) => {
                if ch == 'q' {
                    self.quit();
                    Effect::Nothing
                } else {
                    match hotkey_index(ch) {
                        Some(i) => {
                            proof { lemma_hotkey_position_in_menu(ch, 0); }
                            self.menu_index = i;
                            self.select_menu_item_at(stamp)
                        },
                        None => Effect::Nothing,
                    }
                }
            },
            KeyCode::Esc => {
                self.quit();
                Effect::Nothing
            },
            _ => Effect::Nothing,
        }
    }

    fn file_select_key(&mut self, code: KeyCode) -> (e: Effect)
        ensures
            (final(self)@, e@) == file_select_key_spec(old(self)@, code),
    {
        match code {
            KeyCode::Esc => {
                if self.file_paths.len() == 0 {
                    self.quit();
                } else {
                    self.navigate(Screen::Main);
                }
                Effect::Nothing
            },
            KeyCode::Enter => {
                if self.input_buffer.unicode_len() == 0 {
                    Effect::Nothing
                } else {
                    let t = trim_text(self.input_buffer.as_str());
                    let u = unquote_text(t.as_str());
                    let path = unescape_text(u.as_str());
                    Effect::ProbeInputPath(path)
                }
            },
            KeyCode::Char(c) => {
                self.type_char(c);
                Effect::Nothing
            },
            KeyCode::Backspace => {
                self.backspace();
                Effect::Nothing
            },
            _ => Effect::Nothing,
        }
    }

    fn output_select_key(&mut self, code: KeyCode) -> (e: Effect)
        ensures
            (final(self)@, e@) == output_select_key_spec(old(self)@, code),
    {
        match code {
            KeyCode::Up | KeyCode::Down => {
                self.output_choice = match self.output_choice {
                    OutputChoice::Same => OutputChoice::New,
                    OutputChoice::New => OutputChoice::Same,
                };
                Effect::Nothing
            },
            KeyCode::Enter => {
                match self.output_choice {
                    OutputChoice::Same => {
                        self.output_dir = None;
                        self.status_message = Some(String::from_str("Output: same location"));
                        self.input_buffer = String::new();
                        self.screen = Screen::Main;
                        Effect::Nothing
                    },
                    OutputChoice::New => {
                        let t = trim_text(self.input_buffer.as_str());
                        let path = unquote_text(t.as_str());
                        Effect::ProbeOutputDir(path)
                    },
                }
            },
            KeyCode::Char(c) => {
                if self.output_choice == OutputChoice::New {
                    self.type_char(c);
                }
                Effect::Nothing
            },
            KeyCode::Backspace => {
                if self.output_choice == OutputChoice::New {
                    self.backspace();
                }
                Effect::Nothing
            },
            KeyCode::Esc => {
                self.navigate(Screen::Main);
                Effect::Nothing
            },
            _ => Effect::Nothing,
        }
    }

    fn param_input_key(&mut self, code: KeyCode) -> (e: Effect)
        ensures
            (final(self)@, e@) == param_input_key_spec(old(self)@, code),
    {
        match code {
            KeyCode::Esc => {
                self.navigate(Screen::Main);
                Effect::Nothing
            },
            KeyCode::Enter => {
                let text = trim_text(self.input_buffer.as_str());
                if self.selected_action == MenuAction::ExportImages {
                    self.apply_export_params(text.as_str());
                }
                Effect::ParamsEntered(text)
            },
            KeyCode::Char(c) => {
                self.type_char(c);
                Effect::Nothing
            },
            KeyCode::Backspace => {
                self.backspace();
                Effect::Nothing
            },
            _ => Effect::Nothing,
        }
    }

    /// Handles the key event `key` at time `stamp`: updates the state and says
    /// what outside work is to be done.
    pub fn step_key(&mut self, key: KeyEvent, stamp: &str) -> (e: Effect)
        requires
            wf(old(self)@),
        ensures
            (final(self)@, e@) == key_step(old(self)@, key, stamp@),
    {
        if !key.is_press {
            return Effect::Nothing;
        }
        if key.code == KeyCode::Char('?') {
            self.toggle_help();
            return Effect::Nothing;
        }
        if self.show_help {
            self.show_help = false;
            return Effect::Nothing;
        }
        match self.screen {
            Screen::Main => self.main_key(key.code, stamp),
            Screen::FileSelect => self.file_select_key(key.code),
            Screen::OutputSelect => self.output_select_key(key.code),
            Screen::ParamInput => self.param_input_key(key.code),
            Screen::Processing => {
                if key.code == KeyCode::Esc {
                    self.navigate(Screen::Main);
                }
                Effect::Nothing
            },
            Screen::Result => {
                if key.code == KeyCode::Enter || key.code == KeyCode::Esc {
                    self.navigate(Screen::Main);
                }
                Effect::Nothing
            },
        }
    }

    /// Handles the key event `key` (an overwrite toggle it causes is logged
    /// with the local time).
    pub fn handle_key(&mut self, key: KeyEvent) -> (e: Effect)
        requires
            wf(old(self)@),
        ensures
            exists|stamp: Seq<char>| (final(self)@, e@) == #[trigger] key_step(old(self)@, key, stamp),
    {
        let stamp = now_stamp();
        let e = self.step_key(key, stamp.as_str());
        assert((self@, e@) == key_step(old(self)@, key, stamp@));
        e
    }
}

/// The hotkey search finds a menu position.
pub proof fn lemma_hotkey_position_in_menu(ch: char, from: int)
    requires
        0 <= from,
    ensures
        hotkey_position_from(ch, from) matches Some(i) ==> from <= i < MENU_LEN,
    decreases 9 - from,
{
    if from < 9 {
        lemma_hotkey_position_in_menu(ch, from + 1);
    }
}


/// The PDF files among `entries`, in order.
pub fn pdf_files(entries: &Vec<String>) -> (r: Vec<String>)
    ensures
        strings_view(r@) == pdf_entries(strings_view(entries@)),
{
    let ghost all = strings_view(entries@);
    let mut r: Vec<String> = Vec::new();
    let n = entries.len();
    let mut i: usize = 0;
    while i < n
        invariant
            n == entries@.len(),
            all == strings_view(entries@),
            i <= n,
            strings_view(r@) == all.take(i as int).filter(pdf_pred()),
        decreases n - i,
    {
        reveal_with_fuel(Seq::<_>::filter, 1);
        assert(all.take(i + 1).drop_last() =~= all.take(i as int));
        assert(all.take(i + 1).last() == entries@[i as int]@);
        if has_pdf_extension(entries[i].as_str()) {
            let ghost before = r@;
            r.push(copy_string(&entries[i]));
            assert(strings_view(r@) =~= strings_view(before).push(entries@[i as int]@));
        }
        i = i + 1;
    }
    assert(all.take(n as int) =~= all);
    r
}

/// The lines of `lines` joined by newlines.
pub fn join_with_newlines(lines: &Vec<String>) -> (r: String)
    ensures
        r@ == join_lines(strings_view(lines@)),
{
    let ghost all = strings_view(lines@);
    let mut r = String::new();
    let n = lines.len();
    let mut i: usize = 0;
    while i < n
        invariant
            n == lines@.len(),
            all == strings_view(lines@),
            i <= n,
            r@ == join_lines(all.take(i as int)),
        decreases n - i,
    {
        assert(all.take(i + 1).drop_last() =~= all.take(i as int));
        if i > 0 {
            append_str(&mut r, "\n");
        }
        append_str(&mut r, lines[i].as_str());
        proof {
            if i == 0 {
                assert(all.take(1) =~= seq![lines@[0]@]);
            }
        }
        i = i + 1;
    }
    assert(all.take(n as int) =~= all);
    r
}

/// The files among `files` that do not exist (`exists[i]` tells whether `files[i]` does).
pub fn missing_paths(files: &Vec<String>, exists: &Vec<bool>) -> (r: Vec<String>)
    requires
        files@.len() == exists@.len(),
    ensures
        strings_view(r@) == missing_files(strings_view(files@), exists@),
{
    let ghost all = strings_view(files@);
    let mut r: Vec<String> = Vec::new();
    let n = files.len();
    let mut i: usize = 0;
    while i < n
        invariant
            n == files@.len(),
            n == exists@.len(),
            all == strings_view(files@),
            i <= n,
            strings_view(r@) == missing_files(all.take(i as int), exists@.take(i as int)),
        decreases n - i,
    {
        assert(all.take(i + 1).drop_last() =~= all.take(i as int));
        assert(exists@.take(i + 1).drop_last() =~= exists@.take(i as int));
        if !exists[i] {
            let ghost before = r@;
            r.push(copy_string(&files[i]));
            assert(strings_view(r@) =~= strings_view(before).push(files@[i as int]@));
        }
        i = i + 1;
    }
    assert(all.take(n as int) =~= all);
    assert(exists@.take(n as int) =~= exists@);
    r
}

impl App {
    /// Reports what probing the typed input path `path` found: a directory's
    /// PDF files, or the single PDF file, become the files to process. Returns
    /// the file whose metadata is to be loaded, if any.
    pub fn input_path_probed(&mut self, path: String, probe: PathProbe) -> (r: Option<String>)
        ensures
            (final(self)@, opt_string_view(r)) == input_probe_spec(old(self)@, path@, probe@),
    {
        match probe {
            PathProbe::Directory(entries) => {
                let pdfs = pdf_files(&entries);
                let count = pdfs.len();
                if count == 0 {
                    self.file_paths = pdfs;
                    self.status_message = Some(String::from_str("No PDF files found in directory"));
                    None
                } else {
                    let first = copy_string(&pdfs[0]);
                    let mut text = String::new();
                    push_decimal(&mut text, count as u64);
                    append_str(&mut text, " file(s) loaded");
                    assert(text@ =~= loaded_text(count as nat));
                    self.file_paths = pdfs;
                    self.status_message = Some(text);
                    self.input_buffer = String::new();
                    self.screen = Screen::Main;
                    Some(first)
                }
            },
            PathProbe::Missing => {
                let mut text = String::from_str("Path not found: ");
                append_str(&mut text, path.as_str());
                self.status_message = Some(text);
                None
            },
            PathProbe::File => {
                if has_pdf_extension(path.as_str()) {
                    let mut files: Vec<String> = Vec::new();
                    files.push(copy_string(&path));
                    assert(strings_view(files@) =~= seq![path@]);
                    self.file_paths = files;
                    self.status_message = Some(String::from_str("1 file(s) loaded"));
                    self.input_buffer = String::new();
                    self.screen = Screen::Main;
                    Some(path)
                } else {
                    self.status_message = Some(String::from_str("Not a PDF file"));
                    None
                }
            },
        }
    }

    /// Reports whether the typed output path `path` is a directory; if it is,
    /// output goes there from now on.
    pub fn output_dir_probed(&mut self, path: String, is_dir: bool)
        ensures
            final(self)@ == output_probe_spec(old(self)@, path@, is_dir),
    {
        if is_dir {
            let mut text = String::from_str("Output: ");
            append_str(&mut text, path.as_str());
            self.status_message = Some(text);
            self.output_dir = Some(path);
            self.input_buffer = String::new();
            self.screen = Screen::Main;
        } else {
            let mut text = copy_string(&path);
            append_str(&mut text, " is not a directory");
            self.status_message = Some(text);
        }
    }

    /// The checks before an action runs (`exists[i]` tells whether loaded file
    /// `i` exists). Returns whether to run; if not, says why and goes back to
    /// the file screen.
    pub fn check_before_execute(&mut self, exists: &Vec<bool>) -> (run: bool)
        requires
            old(self).file_paths@.len() == exists@.len(),
        ensures
            (final(self)@, run) == execute_check_spec(old(self)@, exists@),
    {
        if self.file_paths.len() == 0 {
            self.result_message = String::from_str("No files loaded. Press [c] to select files.");
            self.screen = Screen::FileSelect;
            return false;
        }
        let missing = missing_paths(&self.file_paths, exists);
        if missing.len() > 0 {
            let mut text = String::from_str("File not found:\n");
            let listed = join_with_newlines(&missing);
            append_str(&mut text, listed.as_str());
            self.result_message = text;
            self.screen = Screen::FileSelect;
            false
        } else {
            true
        }
    }

    /// Records that the selected action ran at time `stamp`, reporting
    /// `message` and having written `new_paths`. Returns the file whose
    /// metadata is to be reloaded.
    pub fn finish_execute_ok_at(&mut self, message: String, new_paths: Vec<String>, stamp: &str) -> (r: Option<String>)
        ensures
            (final(self)@, opt_string_view(r)) == finish_ok_spec(old(self)@, message@, strings_view(new_paths@), stamp@),
    {
        let entry = ActionLogEntry {
            timestamp: String::from_str(stamp),
            action: String::from_str(self.selected_action.label()),
            status: LogStatus::Success,
        };
        self.result_message = message;
        self.last_result_ok = true;
        self.push_log(entry);
        if new_paths.len() > 0 {
            self.file_paths = new_paths;
        }
        self.screen = Screen::Result;
        if self.file_paths.len() > 0 {
            Some(copy_string(&self.file_paths[0]))
        } else {
            None
        }
    }

    /// Records how a run of the selected action ended: on success as
    /// [`App::finish_execute_ok_at`] at the local time, on failure by showing
    /// the error's friendly message. Returns the file whose metadata is to be
    /// reloaded.
    pub fn finish_execute(&mut self, outcome: core::result::Result<(String, Vec<String>), Error>) -> (r: Option<String>)
        ensures
            outcome matches Ok(ok) ==> exists|stamp: Seq<char>|
                (final(self)@, opt_string_view(r)) == #[trigger] finish_ok_spec(old(self)@, ok.0@, strings_view(ok.1@), stamp),
            outcome matches Err(e) ==> (r is None && (exists|described: Seq<char>|
                (exists|detail: Seq<char>| described == description(kind_of(&e), detail))
                && final(self)@ == #[trigger] finish_err_spec(
                    old(self)@,
                    friendly_text(kind_of(&e), io_class_of(&e), described),
                ))),
    {
        match outcome {
            Ok((message, new_paths)) => {
                let stamp = now_stamp();
                let r = self.finish_execute_ok_at(message, new_paths, stamp.as_str());
                assert((self@, opt_string_view(r)) == finish_ok_spec(old(self)@, message@, strings_view(new_paths@), stamp@));
                r
            },
            Err(e) => {
                let ghost kind = kind_of(&e);
                let ghost io = io_class_of(&e);
                let text = friendly_error(e);
                proof {
                    let described = choose|described: Seq<char>|
                        text@ == friendly_text(kind, io, described)
                            && exists|detail: Seq<char>| described == description(kind, detail);
                    assert(finish_err_spec(old(self)@, text@) == finish_err_spec(old(self)@, friendly_text(kind, io, described)));
                }
                self.result_message = text;
                self.last_result_ok = false;
                self.screen = Screen::Result;
                None
            },
        }
    }
}

} // verus!
