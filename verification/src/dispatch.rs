//! The key map: for every input mode, what a key press does to the [`AppState`] and which
//! follow-up work it asks of the caller.

use vstd::prelude::*;

use crate::events::{
    cycle_repeat, cycle_visualizer, effects_view, enter_play_selected, next_track, prev_track,
    recompute_filter, spec_cycle_visualizer, spec_enter_play, spec_next_repeat,
    spec_next_spectrogram, spec_next_track, spec_prev_track, spec_prev_track_safe,
    spec_recompute_filter, spec_visible, spec_visualizer_from_digit, visualizer_from_digit,
    AppModel, AppState, ConfigChange, ConfigPaths, Effect, EffectModel, Key, KeyPress,
    PlayerState,
};
use crate::fetcher::PickerTarget;
use crate::state::{InputMode, PanelFocus, SettingsRow, SpectrogramMode, VisualizerMode};
use crate::text::{chars_of, pop_char, push_char, spec_trim, string_of, trim_chars};

verus! {

// ---------------------------------------------------------------------------------------
// Effect lists
// ---------------------------------------------------------------------------------------

fn no_effects() -> (r: Vec<Effect>)
    ensures
        effects_view(r@) == Seq::<EffectModel>::empty(),
{
    let r: Vec<Effect> = Vec::new();
    assert(effects_view(r@) =~= Seq::<EffectModel>::empty());
    r
}

fn one_effect(e: Effect) -> (r: Vec<Effect>)
    ensures
        effects_view(r@) == seq![e@],
{
    let ghost ev = e@;
    let mut r: Vec<Effect> = Vec::new();
    r.push(e);
    assert(effects_view(r@) =~= seq![ev]);
    r
}

fn two_effects(a: Effect, b: Effect) -> (r: Vec<Effect>)
    ensures
        effects_view(r@) == seq![a@, b@],
{
    let ghost av = a@;
    let ghost bv = b@;
    let mut r: Vec<Effect> = Vec::new();
    r.push(a);
    r.push(b);
    assert(effects_view(r@) =~= seq![av, bv]);
    r
}

// ---------------------------------------------------------------------------------------
// Settings overlay
// ---------------------------------------------------------------------------------------

/// The row above (the first row stays).
pub open spec fn spec_row_up(r: SettingsRow) -> SettingsRow {
    match r {
        SettingsRow::YtDlp => SettingsRow::YtDlp,
        SettingsRow::Ffmpeg => SettingsRow::YtDlp,
        SettingsRow::DownloadDir => SettingsRow::Ffmpeg,
    }
}

/// The row below (the last row stays).
pub open spec fn spec_row_down(r: SettingsRow) -> SettingsRow {
    match r {
        SettingsRow::YtDlp => SettingsRow::Ffmpeg,
        SettingsRow::Ffmpeg => SettingsRow::DownloadDir,
        SettingsRow::DownloadDir => SettingsRow::DownloadDir,
    }
}

/// The picker a settings row configures.
pub open spec fn spec_row_target(r: SettingsRow) -> PickerTarget {
    match r {
        SettingsRow::YtDlp => PickerTarget::YtDlp,
        SettingsRow::Ffmpeg => PickerTarget::Ffmpeg,
        SettingsRow::DownloadDir => PickerTarget::DownloadDir,
    }
}

/// How a picker target is named in toasts.
pub open spec fn spec_target_label(t: PickerTarget) -> Seq<char> {
    match t {
        PickerTarget::YtDlp => "yt-dlp"@,
        PickerTarget::Ffmpeg => "ffmpeg"@,
        PickerTarget::DownloadDir => "Download dir"@,
    }
}

/// The value a row is reset to.
pub open spec fn spec_row_default(r: SettingsRow) -> Seq<char> {
    match r {
        SettingsRow::YtDlp => "auto"@,
        SettingsRow::Ffmpeg => "auto"@,
        SettingsRow::DownloadDir => "~"@,
    }
}

/// The value shown in a row.
pub open spec fn spec_row_value(m: AppModel, r: SettingsRow) -> Seq<char> {
    match r {
        SettingsRow::YtDlp => m.settings_ytdlp_value,
        SettingsRow::Ffmpeg => m.settings_ffmpeg_value,
        SettingsRow::DownloadDir => m.settings_download_dir,
    }
}

/// The state with one row's value replaced.
pub open spec fn spec_with_row_value(m: AppModel, r: SettingsRow, v: Seq<char>) -> AppModel {
    match r {
        SettingsRow::YtDlp => AppModel { settings_ytdlp_value: v, ..m },
        SettingsRow::Ffmpeg => AppModel { settings_ffmpeg_value: v, ..m },
        SettingsRow::DownloadDir => AppModel { settings_download_dir: v, ..m },
    }
}

/// `r` in the Settings overlay: the focused row goes back to its default, which is saved
/// and announced.
pub open spec fn spec_settings_reset(m: AppModel) -> (AppModel, Seq<EffectModel>) {
    let row = m.settings_row;
    let m2 = spec_with_row_value(m, row, spec_row_default(row));
    (
        AppModel { message: Some(spec_target_label(spec_row_target(row)) + " path reset"@), ..m2 },
        seq![EffectModel::Persist(ConfigChange::FetcherPathReset(row)), EffectModel::ToastShown],
    )
}

/// `Enter` (or `d`, which always picks a folder) in the Settings overlay: a native picker
/// for the focused row, starting from its current value.
pub open spec fn spec_settings_pick(m: AppModel, dir_key: bool) -> (AppModel, Seq<EffectModel>) {
    let row = m.settings_row;
    let open_dir = dir_key || row == SettingsRow::DownloadDir;
    (m, seq![EffectModel::OpenPicker(spec_row_target(row), open_dir, spec_row_value(m, row))])
}

/// What a key means in the Settings overlay.
#[derive(Debug, Clone, Copy, PartialEq, Eq, Structural)]
pub enum SettingsCommand {
    Close,
    Up,
    Down,
    Reset,
    /// Open a picker; `true` when the `d` key asked for a folder picker.
    Pick(bool),
    Ignore,
}

pub open spec fn spec_settings_command(code: Key) -> SettingsCommand {
    match code {
        Key::Esc => SettingsCommand::Close,
        Key::Up | Key::Char('k') => SettingsCommand::Up,
        Key::Down | Key::Char('j') => SettingsCommand::Down,
        Key::Char('r') => SettingsCommand::Reset,
        Key::Enter => SettingsCommand::Pick(false),
        Key::Char('d') => SettingsCommand::Pick(true),
        _ => SettingsCommand::Ignore,
    }
}

/// Classify a key pressed in the Settings overlay.
pub fn settings_command(code: Key) -> (c: SettingsCommand)
    ensures
        c == spec_settings_command(code),
{
    match code {
        Key::Esc => SettingsCommand::Close,
        Key::Up | Key::Char('k') => SettingsCommand::Up,
        Key::Down | Key::Char('j') => SettingsCommand::Down,
        Key::Char('r') => SettingsCommand::Reset,
        Key::Enter => SettingsCommand::Pick(false),
        Key::Char('d') => SettingsCommand::Pick(true),
        _ => SettingsCommand::Ignore,
    }
}

/// A key in the Settings overlay.
pub open spec fn spec_settings_key(m: AppModel, k: KeyPress) -> (AppModel, Seq<EffectModel>) {
    match spec_settings_command(k.code) {
        SettingsCommand::Close => (
            AppModel { show_settings: false, input_mode: InputMode::Normal, ..m },
            seq![],
        ),
        SettingsCommand::Up => (AppModel { settings_row: spec_row_up(m.settings_row), ..m }, seq![]),
        SettingsCommand::Down => (
            AppModel { settings_row: spec_row_down(m.settings_row), ..m },
            seq![],
        ),
        SettingsCommand::Reset => spec_settings_reset(m),
        SettingsCommand::Pick(dir_key) => spec_settings_pick(m, dir_key),
        SettingsCommand::Ignore => (m, seq![]),
    }
}

fn target_label(t: PickerTarget) -> (r: &'static str)
    ensures
        r@ == spec_target_label(t),
{
    match t {
        PickerTarget::YtDlp => "yt-dlp",
        PickerTarget::Ffmpeg => "ffmpeg",
        PickerTarget::DownloadDir => "Download dir",
    }
}

fn row_target(r: SettingsRow) -> (t: PickerTarget)
    ensures
        t == spec_row_target(r),
{
    match r {
        SettingsRow::YtDlp => PickerTarget::YtDlp,
        SettingsRow::Ffmpeg => PickerTarget::Ffmpeg,
        SettingsRow::DownloadDir => PickerTarget::DownloadDir,
    }
}

fn set_row_value(app: &mut AppState, row: SettingsRow, v: String)
    ensures
        final(app)@ == spec_with_row_value(old(app)@, row, v@),
{
    match row {
        SettingsRow::YtDlp => set_ytdlp_value(app, v),
        SettingsRow::Ffmpeg => set_ffmpeg_value(app, v),
        SettingsRow::DownloadDir => set_download_dir_value(app, v),
    }
}

fn set_ytdlp_value(app: &mut AppState, v: String)
    ensures
        final(app)@ == (AppModel { settings_ytdlp_value: v@, ..old(app)@ }),
{
    app.settings_ytdlp_value = v;
}

fn set_ffmpeg_value(app: &mut AppState, v: String)
    ensures
        final(app)@ == (AppModel { settings_ffmpeg_value: v@, ..old(app)@ }),
{
    app.settings_ffmpeg_value = v;
}

fn set_download_dir_value(app: &mut AppState, v: String)
    ensures
        final(app)@ == (AppModel { settings_download_dir: v@, ..old(app)@ }),
{
    app.settings_download_dir = v;
}

fn row_default(row: SettingsRow) -> (r: String)
    ensures
        r@ == spec_row_default(row),
{
    match row {
        SettingsRow::YtDlp => String::from_str("auto"),
        SettingsRow::Ffmpeg => String::from_str("auto"),
        SettingsRow::DownloadDir => String::from_str("~"),
    }
}

/// Show a toast.
fn set_message(app: &mut AppState, msg: String)
    ensures
        final(app)@ == (AppModel { message: Some(msg@), ..old(app)@ }),
{
    app.message = Some(msg);
}

fn settings_reset(app: &mut AppState) -> (e: Vec<Effect>)
    ensures
        final(app)@ == spec_settings_reset(old(app)@).0,
        effects_view(e@) == spec_settings_reset(old(app)@).1,
{
    let row = app.settings_row;
    set_row_value(app, row, row_default(row));
    let label = target_label(row_target(row));
    set_message(app, String::from_str(label).concat(" path reset"));
    two_effects(Effect::Persist(ConfigChange::FetcherPathReset(row)), Effect::ToastShown)
}

fn settings_pick(app: &mut AppState, dir_key: bool) -> (e: Vec<Effect>)
    ensures
        final(app)@ == spec_settings_pick(old(app)@, dir_key).0,
        effects_view(e@) == spec_settings_pick(old(app)@, dir_key).1,
{
    let row = app.settings_row;
    let open_dir = dir_key || row == SettingsRow::DownloadDir;
    let current = match row {
        SettingsRow::YtDlp => app.settings_ytdlp_value.clone(),
        SettingsRow::Ffmpeg => app.settings_ffmpeg_value.clone(),
        SettingsRow::DownloadDir => app.settings_download_dir.clone(),
    };
    one_effect(Effect::OpenPicker(row_target(row), open_dir, current))
}

fn settings_close(app: &mut AppState)
    ensures
        final(app)@ == (AppModel { show_settings: false, input_mode: InputMode::Normal, ..old(app)@ }),
{
    app.show_settings = false;
    app.input_mode = InputMode::Normal;
}

fn settings_move(app: &mut AppState, down: bool)
    ensures
        final(app)@ == (AppModel {
            settings_row: if down {
                spec_row_down(old(app).settings_row)
            } else {
                spec_row_up(old(app).settings_row)
            },
            ..old(app)@
        }),
{
    app.settings_row = match app.settings_row {
        SettingsRow::YtDlp => if down { SettingsRow::Ffmpeg } else { SettingsRow::YtDlp },
        SettingsRow::Ffmpeg => if down { SettingsRow::DownloadDir } else { SettingsRow::YtDlp },
        SettingsRow::DownloadDir => if down { SettingsRow::DownloadDir } else { SettingsRow::Ffmpeg },
    };
}

/// Handle a key in the Settings overlay.
pub fn settings_key(app: &mut AppState, key: KeyPress) -> (e: Vec<Effect>)
    ensures
        final(app)@ == spec_settings_key(old(app)@, key).0,
        effects_view(e@) == spec_settings_key(old(app)@, key).1,
{
    match settings_command(key.code) {
        SettingsCommand::Close => {
            settings_close(app);
            no_effects()
        },
        SettingsCommand::Up => {
            settings_move(app, false);
            no_effects()
        },
        SettingsCommand::Down => {
            settings_move(app, true);
            no_effects()
        },
        SettingsCommand::Reset => settings_reset(app),
        SettingsCommand::Pick(dir_key) => settings_pick(app, dir_key),
        SettingsCommand::Ignore => no_effects(),
    }
}

// ---------------------------------------------------------------------------------------
// Text entry: search box and the download / add-folder prompts
// ---------------------------------------------------------------------------------------

/// What a key means while text is being typed.
#[derive(Debug, Clone, Copy, PartialEq, Eq, Structural)]
pub enum TextCommand {
    Cancel,
    Submit,
    Erase,
    Type(char),
    Ignore,
}

pub open spec fn spec_text_command(code: Key) -> TextCommand {
    match code {
        Key::Esc => TextCommand::Cancel,
        Key::Enter => TextCommand::Submit,
        Key::Backspace => TextCommand::Erase,
        Key::Char(c) => TextCommand::Type(c),
        _ => TextCommand::Ignore,
    }
}

/// Classify a key pressed while text is being typed.
pub fn text_command(code: Key) -> (c: TextCommand)
    ensures
        c == spec_text_command(code),
{
    match code {
        Key::Esc => TextCommand::Cancel,
        Key::Enter => TextCommand::Submit,
        Key::Backspace => TextCommand::Erase,
        Key::Char(c) => TextCommand::Type(c),
        _ => TextCommand::Ignore,
    }
}

/// The text without its last character (unchanged when empty).
pub open spec fn spec_erase(s: Seq<char>) -> Seq<char> {
    if s.len() > 0 {
        s.drop_last()
    } else {
        s
    }
}

/// A key in the search box: the filter follows every edit.
pub open spec fn spec_search_key(m: AppModel, k: KeyPress) -> (AppModel, Seq<EffectModel>) {
    match spec_text_command(k.code) {
        TextCommand::Cancel => (
            AppModel {
                input_buffer: Seq::empty(),
                search_query: None,
                filtered_indices: Seq::empty(),
                input_mode: InputMode::Normal,
                ..m
            },
            seq![],
        ),
        TextCommand::Submit => (
            AppModel {
                search_query: Some(m.input_buffer),
                input_mode: InputMode::Normal,
                ..m
            },
            seq![],
        ),
        TextCommand::Erase => (
            spec_recompute_filter(AppModel { input_buffer: spec_erase(m.input_buffer), ..m }),
            seq![],
        ),
        TextCommand::Type(c) => (
            spec_recompute_filter(AppModel { input_buffer: m.input_buffer.push(c), ..m }),
            seq![],
        ),
        TextCommand::Ignore => (m, seq![]),
    }
}

fn search_cancel(app: &mut AppState)
    ensures
        final(app)@ == (AppModel {
            input_buffer: Seq::empty(),
            search_query: None,
            filtered_indices: Seq::empty(),
            input_mode: InputMode::Normal,
            ..old(app)@
        }),
{
    app.input_buffer = String::new();
    app.search_query = None;
    app.filtered_indices = Vec::new();
    app.input_mode = InputMode::Normal;
    assert(app.filtered_indices@ =~= Seq::<usize>::empty());
}

fn search_submit(app: &mut AppState)
    ensures
        final(app)@ == (AppModel {
            search_query: Some(old(app)@.input_buffer),
            input_mode: InputMode::Normal,
            ..old(app)@
        }),
{
    app.search_query = Some(app.input_buffer.clone());
    app.input_mode = InputMode::Normal;
}

fn erase_input(app: &mut AppState)
    ensures
        final(app)@ == (AppModel { input_buffer: spec_erase(old(app)@.input_buffer), ..old(app)@ }),
{
    let _ = pop_char(&mut app.input_buffer);
}

fn type_input(app: &mut AppState, c: char)
    ensures
        final(app)@ == (AppModel { input_buffer: old(app)@.input_buffer.push(c), ..old(app)@ }),
{
    push_char(&mut app.input_buffer, c);
}

/// Handle a key in the search box.
pub fn search_key(app: &mut AppState, key: KeyPress) -> (e: Vec<Effect>)
    ensures
        final(app)@ == spec_search_key(old(app)@, key).0,
        effects_view(e@) == spec_search_key(old(app)@, key).1,
{
    match text_command(key.code) {
        TextCommand::Cancel => search_cancel(app),
        TextCommand::Submit => search_submit(app),
        TextCommand::Erase => {
            erase_input(app);
            recompute_filter(app);
        },
        TextCommand::Type(c) => {
            type_input(app, c);
            recompute_filter(app);
        },
        TextCommand::Ignore => {},
    }
    no_effects()
}

/// The mode a prompt returns to: the library manager when it is open.
pub open spec fn spec_prompt_return_mode(m: AppModel) -> InputMode {
    if m.show_library_manager {
        InputMode::LibraryManager
    } else {
        InputMode::Normal
    }
}

/// A key in the download-URL or add-folder prompt. `Enter` hands the trimmed text on.
pub open spec fn spec_prompt_key(m: AppModel, k: KeyPress) -> (AppModel, Seq<EffectModel>) {
    match spec_text_command(k.code) {
        TextCommand::Cancel => (
            AppModel {
                input_buffer: Seq::empty(),
                input_mode: spec_prompt_return_mode(m),
                ..m
            },
            seq![],
        ),
        TextCommand::Submit => (
            AppModel {
                input_buffer: Seq::empty(),
                input_mode: spec_prompt_return_mode(m),
                ..m
            },
            if m.input_mode == InputMode::DownloadUrl {
                seq![EffectModel::SubmitDownload(spec_trim(m.input_buffer))]
            } else {
                seq![EffectModel::AddFolder(spec_trim(m.input_buffer))]
            },
        ),
        TextCommand::Erase => (
            AppModel { input_buffer: spec_erase(m.input_buffer), ..m },
            seq![],
        ),
        TextCommand::Type(c) => (AppModel { input_buffer: m.input_buffer.push(c), ..m }, seq![]),
        TextCommand::Ignore => (m, seq![]),
    }
}

fn set_mode_clearing_input(app: &mut AppState, mode: InputMode)
    ensures
        final(app)@ == (AppModel { input_buffer: Seq::empty(), input_mode: mode, ..old(app)@ }),
{
    app.input_buffer = String::new();
    app.input_mode = mode;
}

fn prompt_return_mode(app: &AppState) -> (r: InputMode)
    ensures
        r == spec_prompt_return_mode(app@),
{
    if app.show_library_manager {
        InputMode::LibraryManager
    } else {
        InputMode::Normal
    }
}

fn trimmed(s: &String) -> (r: String)
    ensures
        r@ == spec_trim(s@),
{
    string_of(&trim_chars(&chars_of(s.as_str())))
}

fn prompt_submit(app: &mut AppState) -> (e: Vec<Effect>)
    ensures
        final(app)@ == spec_prompt_key(old(app)@, KeyPress { code: Key::Enter, shift: false, ctrl: false }).0,
        effects_view(e@) == spec_prompt_key(old(app)@, KeyPress { code: Key::Enter, shift: false, ctrl: false }).1,
{
    let is_download = app.input_mode == InputMode::DownloadUrl;
    let text = trimmed(&app.input_buffer);
    let back = prompt_return_mode(app);
    set_mode_clearing_input(app, back);
    if is_download {
        one_effect(Effect::SubmitDownload(text))
    } else {
        one_effect(Effect::AddFolder(text))
    }
}

/// Handle a key in the download-URL or add-folder prompt.
pub fn prompt_key(app: &mut AppState, key: KeyPress) -> (e: Vec<Effect>)
    ensures
        final(app)@ == spec_prompt_key(old(app)@, key).0,
        effects_view(e@) == spec_prompt_key(old(app)@, key).1,
{
    match text_command(key.code) {
        TextCommand::Cancel => {
            let back = prompt_return_mode(app);
            set_mode_clearing_input(app, back);
            no_effects()
        },
        TextCommand::Submit => prompt_submit(app),
        TextCommand::Erase => {
            erase_input(app);
            no_effects()
        },
        TextCommand::Type(c) => {
            type_input(app, c);
            no_effects()
        },
        TextCommand::Ignore => no_effects(),
    }
}

// ---------------------------------------------------------------------------------------
// Library manager overlay
// ---------------------------------------------------------------------------------------

/// What a key means in the library manager.
#[derive(Debug, Clone, Copy, PartialEq, Eq, Structural)]
pub enum ManagerCommand {
    Close,
    Up,
    Down,
    Add,
    Remove,
    Rescan,
    Ignore,
}

pub open spec fn spec_manager_command(code: Key) -> ManagerCommand {
    match code {
        Key::Esc => ManagerCommand::Close,
        Key::Up | Key::Char('k') => ManagerCommand::Up,
        Key::Down | Key::Char('j') => ManagerCommand::Down,
        Key::Char('a') => ManagerCommand::Add,
        Key::Char('x') | Key::Delete => ManagerCommand::Remove,
        Key::Char('R') => ManagerCommand::Rescan,
        _ => ManagerCommand::Ignore,
    }
}

/// Classify a key pressed in the library manager.
pub fn manager_command(code: Key) -> (c: ManagerCommand)
    ensures
        c == spec_manager_command(code),
{
    match code {
        Key::Esc => ManagerCommand::Close,
        Key::Up | Key::Char('k') => ManagerCommand::Up,
        Key::Down | Key::Char('j') => ManagerCommand::Down,
        Key::Char('a') => ManagerCommand::Add,
        Key::Char('x') | Key::Delete => ManagerCommand::Remove,
        Key::Char('R') => ManagerCommand::Rescan,
        _ => ManagerCommand::Ignore,
    }
}

/// One row up, stopping at the first.
pub open spec fn spec_row_before(sel: usize) -> usize {
    if sel > 0 {
        (sel - 1) as usize
    } else {
        0
    }
}

/// One row down in a list of `len` rows, stopping at the last.
pub open spec fn spec_row_after(sel: usize, len: nat) -> usize {
    let last: int = if len > 0 {
        len - 1
    } else {
        0
    };
    if sel < last {
        (sel + 1) as usize
    } else {
        last as usize
    }
}

fn row_before(sel: usize) -> (r: usize)
    ensures
        r == spec_row_before(sel),
{
    if sel > 0 {
        sel - 1
    } else {
        0
    }
}

fn row_after(sel: usize, len: usize) -> (r: usize)
    ensures
        r == spec_row_after(sel, len as nat),
{
    let last = if len > 0 {
        len - 1
    } else {
        0
    };
    if sel < last {
        sel + 1
    } else {
        last
    }
}

/// A key in the library manager.
pub open spec fn spec_manager_key(m: AppModel, k: KeyPress) -> (AppModel, Seq<EffectModel>) {
    match spec_manager_command(k.code) {
        ManagerCommand::Close => (
            AppModel { show_library_manager: false, input_mode: InputMode::Normal, ..m },
            seq![],
        ),
        ManagerCommand::Up => (
            AppModel { selected_folder: spec_row_before(m.selected_folder), ..m },
            seq![],
        ),
        ManagerCommand::Down => (
            AppModel {
                selected_folder: spec_row_after(m.selected_folder, m.library_folders.len()),
                ..m
            },
            seq![],
        ),
        ManagerCommand::Add => (
            AppModel { input_mode: InputMode::AddLibraryPath, input_buffer: Seq::empty(), ..m },
            seq![],
        ),
        ManagerCommand::Remove => if m.selected_folder < m.library_folders.len() {
            (m, seq![EffectModel::RemoveFolder(m.library_folders[m.selected_folder as int].path)])
        } else {
            (AppModel { message: Some("No folder selected."@), ..m }, seq![EffectModel::ToastShown])
        },
        ManagerCommand::Rescan => (m, seq![EffectModel::Rescan]),
        ManagerCommand::Ignore => (m, seq![]),
    }
}

fn set_manager_open(app: &mut AppState, open: bool, mode: InputMode)
    ensures
        final(app)@ == (AppModel { show_library_manager: open, input_mode: mode, ..old(app)@ }),
{
    app.show_library_manager = open;
    app.input_mode = mode;
}

fn set_selected_folder(app: &mut AppState, sel: usize)
    ensures
        final(app)@ == (AppModel { selected_folder: sel, ..old(app)@ }),
{
    app.selected_folder = sel;
}

fn manager_remove(app: &mut AppState) -> (e: Vec<Effect>)
    ensures
        final(app)@ == spec_manager_key(old(app)@, KeyPress { code: Key::Delete, shift: false, ctrl: false }).0,
        effects_view(e@) == spec_manager_key(old(app)@, KeyPress { code: Key::Delete, shift: false, ctrl: false }).1,
{
    if app.selected_folder < app.library_folders.len() {
        let path = app.library_folders[app.selected_folder].path.clone();
        one_effect(Effect::RemoveFolder(path))
    } else {
        set_message(app, String::from_str("No folder selected."));
        one_effect(Effect::ToastShown)
    }
}

/// Handle a key in the library manager.
pub fn manager_key(app: &mut AppState, key: KeyPress) -> (e: Vec<Effect>)
    ensures
        final(app)@ == spec_manager_key(old(app)@, key).0,
        effects_view(e@) == spec_manager_key(old(app)@, key).1,
{
    match manager_command(key.code) {
        ManagerCommand::Close => {
            set_manager_open(app, false, InputMode::Normal);
            no_effects()
        },
        ManagerCommand::Up => {
            let sel = row_before(app.selected_folder);
            set_selected_folder(app, sel);
            no_effects()
        },
        ManagerCommand::Down => {
            let sel = row_after(app.selected_folder, app.library_folders.len());
            set_selected_folder(app, sel);
            no_effects()
        },
        ManagerCommand::Add => {
            set_mode_clearing_input(app, InputMode::AddLibraryPath);
            no_effects()
        },
        ManagerCommand::Remove => manager_remove(app),
        ManagerCommand::Rescan => one_effect(Effect::Rescan),
        ManagerCommand::Ignore => no_effects(),
    }
}

// ---------------------------------------------------------------------------------------
// Missing-tools consent prompt
// ---------------------------------------------------------------------------------------

/// What a key means while the missing-tools prompt is shown.
#[derive(Debug, Clone, Copy, PartialEq, Eq, Structural)]
pub enum ConsentCommand {
    Accept,
    Decline,
    Ignore,
}

pub open spec fn spec_consent_command(code: Key) -> ConsentCommand {
    match code {
        Key::Char('y') | Key::Char('Y') => ConsentCommand::Accept,
        Key::Char('n') | Key::Char('N') | Key::Esc => ConsentCommand::Decline,
        _ => ConsentCommand::Ignore,
    }
}

/// Classify a key pressed while the missing-tools prompt is shown.
pub fn consent_command(code: Key) -> (c: ConsentCommand)
    ensures
        c == spec_consent_command(code),
{
    match code {
        Key::Char('y') | Key::Char('Y') => ConsentCommand::Accept,
        Key::Char('n') | Key::Char('N') | Key::Esc => ConsentCommand::Decline,
        _ => ConsentCommand::Ignore,
    }
}

/// A key while the missing-tools prompt is shown (every other key is swallowed).
pub open spec fn spec_consent_key(m: AppModel, k: KeyPress) -> (AppModel, Seq<EffectModel>) {
    match spec_consent_command(k.code) {
        ConsentCommand::Accept => (
            AppModel {
                deps_prompt: None,
                pending_fetch: None,
                download_stage: Some("Preparing dep download\u{2026}"@),
                ..m
            },
            seq![
                EffectModel::StartDepsDownload(
                    match m.deps_prompt {
                        Some(v) => v,
                        None => Seq::empty(),
                    },
                    m.pending_fetch,
                ),
            ],
        ),
        ConsentCommand::Decline => (
            AppModel {
                deps_prompt: None,
                pending_fetch: None,
                message: Some(
                    "Download cancelled. Install yt-dlp/ffmpeg or use F2 to set paths."@,
                ),
                ..m
            },
            seq![EffectModel::ToastShown],
        ),
        ConsentCommand::Ignore => (m, seq![]),
    }
}

fn take_prompt(app: &mut AppState) -> (r: (Vec<crate::fetcher::MissingTool>, Option<(url::Url, crate::fetcher::FetchOpts)>))
    ensures
        final(app)@ == (AppModel { deps_prompt: None, pending_fetch: None, ..old(app)@ }),
        r.0@ == (match old(app)@.deps_prompt {
            Some(v) => v,
            None => Seq::empty(),
        }),
        crate::events::pending_view(r.1) == old(app)@.pending_fetch,
{
    let missing = app.deps_prompt.take();
    let pending = app.pending_fetch.take();
    let v = match missing {
        Some(v) => v,
        None => Vec::new(),
    };
    (v, pending)
}

fn set_download_stage(app: &mut AppState, stage: String)
    ensures
        final(app)@ == (AppModel { download_stage: Some(stage@), ..old(app)@ }),
{
    app.download_stage = Some(stage);
}

fn consent_accept(app: &mut AppState) -> (e: Vec<Effect>)
    ensures
        final(app)@ == spec_consent_key(old(app)@, KeyPress { code: Key::Char('y'), shift: false, ctrl: false }).0,
        effects_view(e@) == spec_consent_key(old(app)@, KeyPress { code: Key::Char('y'), shift: false, ctrl: false }).1,
{
    let (missing, pending) = take_prompt(app);
    set_download_stage(app, String::from_str("Preparing dep download\u{2026}"));
    one_effect(Effect::StartDepsDownload(missing, pending))
}

fn consent_decline(app: &mut AppState) -> (e: Vec<Effect>)
    ensures
        final(app)@ == spec_consent_key(old(app)@, KeyPress { code: Key::Esc, shift: false, ctrl: false }).0,
        effects_view(e@) == spec_consent_key(old(app)@, KeyPress { code: Key::Esc, shift: false, ctrl: false }).1,
{
    let _ = take_prompt(app);
    set_message(
        app,
        String::from_str("Download cancelled. Install yt-dlp/ffmpeg or use F2 to set paths."),
    );
    one_effect(Effect::ToastShown)
}

/// Handle a key while the missing-tools prompt is shown.
pub fn consent_key(app: &mut AppState, key: KeyPress) -> (e: Vec<Effect>)
    ensures
        final(app)@ == spec_consent_key(old(app)@, key).0,
        effects_view(e@) == spec_consent_key(old(app)@, key).1,
{
    match consent_command(key.code) {
        ConsentCommand::Accept => consent_accept(app),
        ConsentCommand::Decline => consent_decline(app),
        ConsentCommand::Ignore => no_effects(),
    }
}

// ---------------------------------------------------------------------------------------
// Normal mode
// ---------------------------------------------------------------------------------------

/// What a key means in normal mode (when no prompt or overlay takes it first).
#[derive(Debug, Clone, Copy, PartialEq, Eq, Structural)]
pub enum NormalCommand {
    CycleFocus,
    ToggleHelp,
    TogglePlay,
    Next,
    Prev,
    /// Seek by this many seconds.
    Seek(i32),
    OpenLibraryManager,
    VolumeUp,
    VolumeDown,
    CycleSpectrogram,
    ToggleMute,
    ToggleShuffle,
    Rescan,
    CycleRepeat,
    SelectUp,
    SelectDown,
    PlaySelected,
    StartSearch,
    /// Step the visualizer; `true` steps backward.
    CycleVisualizer(bool),
    /// A digit picks a visualizer by its position.
    PickVisualizer(char),
    CycleTheme,
    ToggleNeon,
    ToggleFullscreen,
    ReconnectAudio,
    StartDownload,
    StartAddFolder,
    Ignore,
}

/// Classification of a normal-mode key; `spectrogram_active` tells whether the Spectrogram
/// visualizer is shown (`Shift+M` only acts then).
pub open spec fn spec_normal_command(k: KeyPress, spectrogram_active: bool) -> NormalCommand {
    let fwd: i32 = if k.shift {
        30i32
    } else {
        5i32
    };
    let back: i32 = if k.shift {
        -30i32
    } else {
        -5i32
    };
    match k.code {
        Key::Tab => NormalCommand::CycleFocus,
        Key::Right => NormalCommand::Seek(fwd),
        Key::Left => NormalCommand::Seek(back),
        Key::Up => NormalCommand::SelectUp,
        Key::Down => NormalCommand::SelectDown,
        Key::Enter => NormalCommand::PlaySelected,
        Key::Char(c) => if c == '?' {
            NormalCommand::ToggleHelp
        } else if c == ' ' {
            NormalCommand::TogglePlay
        } else if c == 'n' {
            NormalCommand::Next
        } else if c == 'p' {
            NormalCommand::Prev
        } else if c == 'l' {
            if k.ctrl {
                NormalCommand::OpenLibraryManager
            } else {
                NormalCommand::Seek(fwd)
            }
        } else if c == 'L' {
            if k.ctrl {
                NormalCommand::OpenLibraryManager
            } else {
                NormalCommand::Seek(30i32)
            }
        } else if c == 'h' {
            NormalCommand::Seek(back)
        } else if c == 'H' {
            NormalCommand::Seek(-30i32)
        } else if c == '+' || c == '=' {
            NormalCommand::VolumeUp
        } else if c == '-' {
            NormalCommand::VolumeDown
        } else if c == 'M' {
            if k.shift && spectrogram_active {
                NormalCommand::CycleSpectrogram
            } else {
                NormalCommand::Ignore
            }
        } else if c == 'm' {
            NormalCommand::ToggleMute
        } else if c == 's' {
            NormalCommand::ToggleShuffle
        } else if c == 'R' {
            NormalCommand::Rescan
        } else if c == 'r' {
            NormalCommand::CycleRepeat
        } else if c == 'k' {
            NormalCommand::SelectUp
        } else if c == 'j' {
            NormalCommand::SelectDown
        } else if c == '/' {
            NormalCommand::StartSearch
        } else if c == 'v' {
            NormalCommand::CycleVisualizer(k.shift)
        } else if c == 'V' {
            NormalCommand::CycleVisualizer(true)
        } else if '1' <= c && c <= '9' {
            NormalCommand::PickVisualizer(c)
        } else if c == 't' {
            NormalCommand::CycleTheme
        } else if c == 'g' {
            NormalCommand::ToggleNeon
        } else if c == 'f' {
            NormalCommand::ToggleFullscreen
        } else if c == 'd' {
            if k.ctrl {
                NormalCommand::ReconnectAudio
            } else {
                NormalCommand::StartDownload
            }
        } else if c == 'a' {
            NormalCommand::StartAddFolder
        } else {
            NormalCommand::Ignore
        },
        _ => NormalCommand::Ignore,
    }
}

fn char_command(c: char, shift: bool, ctrl: bool, spectrogram_active: bool) -> (r: NormalCommand)
    ensures
        r == spec_normal_command(
            KeyPress { code: Key::Char(c), shift, ctrl },
            spectrogram_active,
        ),
{
    let fwd: i32 = if shift {
        30
    } else {
        5
    };
    let back: i32 = if shift {
        -30
    } else {
        -5
    };
    if c == '?' {
        NormalCommand::ToggleHelp
    } else if c == ' ' {
        NormalCommand::TogglePlay
    } else if c == 'n' {
        NormalCommand::Next
    } else if c == 'p' {
        NormalCommand::Prev
    } else if c == 'l' {
        if ctrl {
            NormalCommand::OpenLibraryManager
        } else {
            NormalCommand::Seek(fwd)
        }
    } else if c == 'L' {
        if ctrl {
            NormalCommand::OpenLibraryManager
        } else {
            NormalCommand::Seek(30)
        }
    } else if c == 'h' {
        NormalCommand::Seek(back)
    } else if c == 'H' {
        NormalCommand::Seek(-30)
    } else if c == '+' || c == '=' {
        NormalCommand::VolumeUp
    } else if c == '-' {
        NormalCommand::VolumeDown
    } else if c == 'M' {
        if shift && spectrogram_active {
            NormalCommand::CycleSpectrogram
        } else {
            NormalCommand::Ignore
        }
    } else if c == 'm' {
        NormalCommand::ToggleMute
    } else if c == 's' {
        NormalCommand::ToggleShuffle
    } else if c == 'R' {
        NormalCommand::Rescan
    } else if c == 'r' {
        NormalCommand::CycleRepeat
    } else if c == 'k' {
        NormalCommand::SelectUp
    } else if c == 'j' {
        NormalCommand::SelectDown
    } else if c == '/' {
        NormalCommand::StartSearch
    } else if c == 'v' {
        NormalCommand::CycleVisualizer(shift)
    } else if c == 'V' {
        NormalCommand::CycleVisualizer(true)
    } else if '1' <= c && c <= '9' {
        NormalCommand::PickVisualizer(c)
    } else if c == 't' {
        NormalCommand::CycleTheme
    } else if c == 'g' {
        NormalCommand::ToggleNeon
    } else if c == 'f' {
        NormalCommand::ToggleFullscreen
    } else if c == 'd' {
        if ctrl {
            NormalCommand::ReconnectAudio
        } else {
            NormalCommand::StartDownload
        }
    } else if c == 'a' {
        NormalCommand::StartAddFolder
    } else {
        NormalCommand::Ignore
    }
}

/// Classify a normal-mode key.
pub fn normal_command(k: KeyPress, spectrogram_active: bool) -> (r: NormalCommand)
    ensures
        r == spec_normal_command(k, spectrogram_active),
{
    let fwd: i32 = if k.shift {
        30
    } else {
        5
    };
    let back: i32 = if k.shift {
        -30
    } else {
        -5
    };
    match k.code {
        Key::Tab => NormalCommand::CycleFocus,
        Key::Right => NormalCommand::Seek(fwd),
        Key::Left => NormalCommand::Seek(back),
        Key::Up => NormalCommand::SelectUp,
        Key::Down => NormalCommand::SelectDown,
        Key::Enter => NormalCommand::PlaySelected,
        Key::Char(c) => char_command(c, k.shift, k.ctrl, spectrogram_active),
        _ => NormalCommand::Ignore,
    }
}

/// How a spectrogram layout is named in toasts.
pub open spec fn spec_spectrogram_label(m: SpectrogramMode) -> Seq<char> {
    match m {
        SpectrogramMode::Standard => "Standard"@,
        SpectrogramMode::Inverted => "Inverted"@,
        SpectrogramMode::Mirrored => "Mirrored"@,
    }
}

/// `Tab`: list + visualizer → visualizer only → full screen → back; overlays keep it.
pub open spec fn spec_tab_layout(m: AppModel) -> (bool, PanelFocus) {
    if m.show_help || m.show_library_manager {
        (m.is_fullscreen, m.panel_focus)
    } else if m.is_fullscreen {
        (false, PanelFocus::Normal)
    } else {
        match m.panel_focus {
            PanelFocus::Normal => (false, PanelFocus::TransportOnly),
            PanelFocus::TransportOnly => (true, PanelFocus::TransportOnly),
        }
    }
}

/// `f`: toggle full screen; leaving it restores the normal layout.
pub open spec fn spec_fullscreen_layout(m: AppModel) -> (bool, PanelFocus) {
    if m.is_fullscreen {
        (false, PanelFocus::Normal)
    } else {
        (true, m.panel_focus)
    }
}

/// The state with a new player record.
pub open spec fn spec_with_player(m: AppModel, p: PlayerState) -> AppModel {
    AppModel { player: p, ..m }
}

/// What a normal-mode command does.
pub open spec fn spec_run_normal(m: AppModel, cmd: NormalCommand) -> (AppModel, Seq<EffectModel>) {
    match cmd {
        NormalCommand::CycleFocus => {
            let (fs, focus) = spec_tab_layout(m);
            (AppModel { is_fullscreen: fs, panel_focus: focus, ..m }, seq![])
        },
        NormalCommand::ToggleHelp => (AppModel { show_help: !m.show_help, ..m }, seq![]),
        NormalCommand::TogglePlay => (
            spec_with_player(m, PlayerState { is_playing: !m.player.is_playing, ..m.player }),
            seq![],
        ),
        NormalCommand::Next => match spec_next_track(m) {
            Some(m2) => (m2, seq![EffectModel::PositionReset]),
            None => (m, seq![]),
        },
        NormalCommand::Prev => match spec_prev_track(m) {
            Some(m2) => (m2, seq![EffectModel::PositionReset]),
            None => (m, seq![]),
        },
        NormalCommand::Seek(d) => (m, seq![EffectModel::SeekBy(d)]),
        NormalCommand::OpenLibraryManager => (
            AppModel {
                show_library_manager: true,
                input_mode: InputMode::LibraryManager,
                ..m
            },
            seq![],
        ),
        NormalCommand::VolumeUp => (
            m,
            seq![EffectModel::VolumeStep(true), EffectModel::Persist(ConfigChange::Volume)],
        ),
        NormalCommand::VolumeDown => (
            m,
            seq![EffectModel::VolumeStep(false), EffectModel::Persist(ConfigChange::Volume)],
        ),
        NormalCommand::CycleSpectrogram => {
            let next = spec_next_spectrogram(m.spectrogram_mode);
            (
                AppModel {
                    spectrogram_mode: next,
                    message: Some("Spectrogram: "@ + spec_spectrogram_label(next)),
                    ..m
                },
                seq![
                    EffectModel::ToastShown,
                    EffectModel::Persist(ConfigChange::Spectrogram(next)),
                ],
            )
        },
        NormalCommand::ToggleMute => (
            spec_with_player(m, PlayerState { muted: !m.player.muted, ..m.player }),
            seq![],
        ),
        NormalCommand::ToggleShuffle => {
            let on = !m.player.shuffle;
            (
                AppModel {
                    player: PlayerState { shuffle: on, ..m.player },
                    message: Some(
                        if on {
                            "Shuffle ON"@
                        } else {
                            "Shuffle OFF"@
                        },
                    ),
                    ..m
                },
                seq![EffectModel::ToastShown, EffectModel::Persist(ConfigChange::Shuffle(on))],
            )
        },
        NormalCommand::Rescan => (m, seq![EffectModel::Rescan]),
        NormalCommand::CycleRepeat => {
            let next = spec_next_repeat(m.player.repeat);
            (
                AppModel {
                    player: PlayerState { repeat: next, ..m.player },
                    message: Some("Repeat: "@ + crate::state::spec_repeat_str(next)),
                    ..m
                },
                seq![EffectModel::ToastShown, EffectModel::Persist(ConfigChange::Repeat(next))],
            )
        },
        NormalCommand::SelectUp => (
            AppModel { selected_track: spec_row_before(m.selected_track), ..m },
            seq![],
        ),
        NormalCommand::SelectDown => {
            let n = spec_visible(m).len();
            if n > 0 {
                (AppModel { selected_track: spec_row_after(m.selected_track, n), ..m }, seq![])
            } else {
                (m, seq![])
            }
        },
        NormalCommand::PlaySelected => match spec_enter_play(m) {
            Some((m2, d)) => (
                m2,
                seq![EffectModel::PositionReset, EffectModel::DurationFromTrack(d)],
            ),
            None => (m, seq![]),
        },
        NormalCommand::StartSearch => (
            spec_recompute_filter(
                AppModel { input_mode: InputMode::Search, input_buffer: Seq::empty(), ..m },
            ),
            seq![],
        ),
        NormalCommand::CycleVisualizer(backward) => {
            let v = spec_cycle_visualizer(m.visualizer_mode, backward);
            (
                AppModel { visualizer_mode: v, ..m },
                seq![EffectModel::Persist(ConfigChange::Visualizer(v))],
            )
        },
        NormalCommand::PickVisualizer(c) => match spec_visualizer_from_digit(c) {
            Some(v) => (
                AppModel { visualizer_mode: v, ..m },
                seq![EffectModel::Persist(ConfigChange::Visualizer(v))],
            ),
            None => (m, seq![]),
        },
        NormalCommand::CycleTheme => (m, seq![EffectModel::CycleTheme]),
        NormalCommand::ToggleNeon => {
            let on = !m.neon_enabled;
            (
                AppModel {
                    neon_enabled: on,
                    message: Some(
                        if on {
                            "Neon ON"@
                        } else {
                            "Neon OFF"@
                        },
                    ),
                    ..m
                },
                seq![EffectModel::ToastShown, EffectModel::Persist(ConfigChange::Neon(on))],
            )
        },
        NormalCommand::ToggleFullscreen => {
            let (fs, focus) = spec_fullscreen_layout(m);
            (AppModel { is_fullscreen: fs, panel_focus: focus, ..m }, seq![])
        },
        NormalCommand::ReconnectAudio => (
            AppModel {
                player: PlayerState { force_reconnect: true, ..m.player },
                message: Some("Reconnecting audio device\u{2026}"@),
                ..m
            },
            seq![EffectModel::ToastShown],
        ),
        NormalCommand::StartDownload => (
            AppModel { input_mode: InputMode::DownloadUrl, input_buffer: Seq::empty(), ..m },
            seq![],
        ),
        NormalCommand::StartAddFolder => (
            AppModel { input_mode: InputMode::AddLibraryPath, input_buffer: Seq::empty(), ..m },
            seq![],
        ),
        NormalCommand::Ignore => (m, seq![]),
    }
}

fn set_layout(app: &mut AppState, fullscreen: bool, focus: PanelFocus)
    ensures
        final(app)@ == (AppModel { is_fullscreen: fullscreen, panel_focus: focus, ..old(app)@ }),
{
    app.is_fullscreen = fullscreen;
    app.panel_focus = focus;
}

fn set_show_help(app: &mut AppState, show: bool)
    ensures
        final(app)@ == (AppModel { show_help: show, ..old(app)@ }),
{
    app.show_help = show;
}

fn set_player(app: &mut AppState, p: PlayerState)
    ensures
        final(app)@ == spec_with_player(old(app)@, p),
{
    app.player = p;
}

fn set_spectrogram(app: &mut AppState, mode: SpectrogramMode)
    ensures
        final(app)@ == (AppModel { spectrogram_mode: mode, ..old(app)@ }),
{
    app.spectrogram_mode = mode;
}

fn set_visualizer(app: &mut AppState, v: VisualizerMode)
    ensures
        final(app)@ == (AppModel { visualizer_mode: v, ..old(app)@ }),
{
    app.visualizer_mode = v;
}

fn set_neon(app: &mut AppState, on: bool)
    ensures
        final(app)@ == (AppModel { neon_enabled: on, ..old(app)@ }),
{
    app.neon_enabled = on;
}

fn set_selected_track(app: &mut AppState, sel: usize)
    ensures
        final(app)@ == (AppModel { selected_track: sel, ..old(app)@ }),
{
    app.selected_track = sel;
}

fn tab_layout(app: &AppState) -> (r: (bool, PanelFocus))
    ensures
        r == spec_tab_layout(app@),
{
    if app.show_help || app.show_library_manager {
        (app.is_fullscreen, app.panel_focus)
    } else if app.is_fullscreen {
        (false, PanelFocus::Normal)
    } else {
        match app.panel_focus {
            PanelFocus::Normal => (false, PanelFocus::TransportOnly),
            PanelFocus::TransportOnly => (true, PanelFocus::TransportOnly),
        }
    }
}

fn fullscreen_layout(app: &AppState) -> (r: (bool, PanelFocus))
    ensures
        r == spec_fullscreen_layout(app@),
{
    if app.is_fullscreen {
        (false, PanelFocus::Normal)
    } else {
        (true, app.panel_focus)
    }
}

fn spectrogram_label(m: SpectrogramMode) -> (r: &'static str)
    ensures
        r@ == spec_spectrogram_label(m),
{
    match m {
        SpectrogramMode::Standard => "Standard",
        SpectrogramMode::Inverted => "Inverted",
        SpectrogramMode::Mirrored => "Mirrored",
    }
}

fn visible_len(app: &AppState) -> (r: usize)
    ensures
        r == spec_visible(app@).len(),
{
    if app.filtered_indices.len() > 0 {
        app.filtered_indices.len()
    } else {
        app.library.len()
    }
}

fn run_spectrogram(app: &mut AppState) -> (e: Vec<Effect>)
    ensures
        final(app)@ == spec_run_normal(old(app)@, NormalCommand::CycleSpectrogram).0,
        effects_view(e@) == spec_run_normal(old(app)@, NormalCommand::CycleSpectrogram).1,
{
    let next = match app.spectrogram_mode {
        SpectrogramMode::Standard => SpectrogramMode::Inverted,
        SpectrogramMode::Inverted => SpectrogramMode::Mirrored,
        SpectrogramMode::Mirrored => SpectrogramMode::Standard,
    };
    set_spectrogram(app, next);
    set_message(app, String::from_str("Spectrogram: ").concat(spectrogram_label(next)));
    two_effects(Effect::ToastShown, Effect::Persist(ConfigChange::Spectrogram(next)))
}

fn run_shuffle(app: &mut AppState) -> (e: Vec<Effect>)
    ensures
        final(app)@ == spec_run_normal(old(app)@, NormalCommand::ToggleShuffle).0,
        effects_view(e@) == spec_run_normal(old(app)@, NormalCommand::ToggleShuffle).1,
{
    let on = !app.player.shuffle;
    set_player(app, PlayerState { shuffle: on, ..app.player });
    let msg = if on {
        "Shuffle ON"
    } else {
        "Shuffle OFF"
    };
    set_message(app, String::from_str(msg));
    two_effects(Effect::ToastShown, Effect::Persist(ConfigChange::Shuffle(on)))
}

fn run_repeat(app: &mut AppState) -> (e: Vec<Effect>)
    ensures
        final(app)@ == spec_run_normal(old(app)@, NormalCommand::CycleRepeat).0,
        effects_view(e@) == spec_run_normal(old(app)@, NormalCommand::CycleRepeat).1,
{
    cycle_repeat(app);
    two_effects(Effect::ToastShown, Effect::Persist(ConfigChange::Repeat(app.player.repeat)))
}

fn run_neon(app: &mut AppState) -> (e: Vec<Effect>)
    ensures
        final(app)@ == spec_run_normal(old(app)@, NormalCommand::ToggleNeon).0,
        effects_view(e@) == spec_run_normal(old(app)@, NormalCommand::ToggleNeon).1,
{
    let on = !app.neon_enabled;
    set_neon(app, on);
    let msg = if on {
        "Neon ON"
    } else {
        "Neon OFF"
    };
    set_message(app, String::from_str(msg));
    two_effects(Effect::ToastShown, Effect::Persist(ConfigChange::Neon(on)))
}

fn run_reconnect(app: &mut AppState) -> (e: Vec<Effect>)
    ensures
        final(app)@ == spec_run_normal(old(app)@, NormalCommand::ReconnectAudio).0,
        effects_view(e@) == spec_run_normal(old(app)@, NormalCommand::ReconnectAudio).1,
{
    set_player(app, PlayerState { force_reconnect: true, ..app.player });
    set_message(app, String::from_str("Reconnecting audio device\u{2026}"));
    one_effect(Effect::ToastShown)
}

fn run_select_down(app: &mut AppState)
    ensures
        final(app)@ == spec_run_normal(old(app)@, NormalCommand::SelectDown).0,
{
    let n = visible_len(app);
    if n > 0 {
        let sel = row_after(app.selected_track, n);
        set_selected_track(app, sel);
    }
}

fn run_visualizer(app: &mut AppState, v: VisualizerMode) -> (e: Vec<Effect>)
    ensures
        final(app)@ == (AppModel { visualizer_mode: v, ..old(app)@ }),
        effects_view(e@) == seq![EffectModel::Persist(ConfigChange::Visualizer(v))],
{
    set_visualizer(app, v);
    one_effect(Effect::Persist(ConfigChange::Visualizer(v)))
}

fn run_step(app: &mut AppState, forward: bool) -> (e: Vec<Effect>)
    requires
        !forward ==> spec_prev_track_safe(old(app)@),
    ensures
        forward ==> final(app)@ == spec_run_normal(old(app)@, NormalCommand::Next).0
            && effects_view(e@) == spec_run_normal(old(app)@, NormalCommand::Next).1,
        !forward ==> final(app)@ == spec_run_normal(old(app)@, NormalCommand::Prev).0
            && effects_view(e@) == spec_run_normal(old(app)@, NormalCommand::Prev).1,
{
    let moved = if forward {
        next_track(app)
    } else {
        prev_track(app)
    };
    if moved {
        one_effect(Effect::PositionReset)
    } else {
        no_effects()
    }
}

fn run_play_selected(app: &mut AppState) -> (e: Vec<Effect>)
    ensures
        final(app)@ == spec_run_normal(old(app)@, NormalCommand::PlaySelected).0,
        effects_view(e@) == spec_run_normal(old(app)@, NormalCommand::PlaySelected).1,
{
    match enter_play_selected(app) {
        Some(d) => two_effects(Effect::PositionReset, Effect::DurationFromTrack(d)),
        None => no_effects(),
    }
}

/// Commands that move the selection, the playback position or the layout.
pub open spec fn spec_is_navigation(cmd: NormalCommand) -> bool {
    match cmd {
        NormalCommand::CycleFocus | NormalCommand::ToggleHelp | NormalCommand::TogglePlay
        | NormalCommand::Seek(_) | NormalCommand::OpenLibraryManager | NormalCommand::SelectUp
        | NormalCommand::SelectDown | NormalCommand::ToggleFullscreen => true,
        _ => false,
    }
}

/// Commands that change a saved preference.
pub open spec fn spec_is_preference(cmd: NormalCommand) -> bool {
    match cmd {
        NormalCommand::VolumeUp | NormalCommand::VolumeDown | NormalCommand::CycleSpectrogram
        | NormalCommand::ToggleMute | NormalCommand::ToggleShuffle | NormalCommand::CycleRepeat
        | NormalCommand::CycleVisualizer(_) | NormalCommand::PickVisualizer(_)
        | NormalCommand::ToggleNeon => true,
        _ => false,
    }
}

fn run_navigation(app: &mut AppState, cmd: NormalCommand) -> (e: Vec<Effect>)
    requires
        spec_is_navigation(cmd),
    ensures
        final(app)@ == spec_run_normal(old(app)@, cmd).0,
        effects_view(e@) == spec_run_normal(old(app)@, cmd).1,
{
    match cmd {
        NormalCommand::CycleFocus => {
            let (fs, focus) = tab_layout(app);
            set_layout(app, fs, focus);
        },
        NormalCommand::ToggleHelp => {
            let show = !app.show_help;
            set_show_help(app, show);
        },
        NormalCommand::TogglePlay => {
            set_player(app, PlayerState { is_playing: !app.player.is_playing, ..app.player });
        },
        NormalCommand::Seek(d) => {
            return one_effect(Effect::SeekBy(d));
        },
        NormalCommand::OpenLibraryManager => {
            set_manager_open(app, true, InputMode::LibraryManager);
        },
        NormalCommand::SelectUp => {
            let sel = row_before(app.selected_track);
            set_selected_track(app, sel);
        },
        NormalCommand::SelectDown => {
            run_select_down(app);
        },
        _ => {
            let (fs, focus) = fullscreen_layout(app);
            set_layout(app, fs, focus);
        },
    }
    no_effects()
}

fn run_preference(app: &mut AppState, cmd: NormalCommand) -> (e: Vec<Effect>)
    requires
        spec_is_preference(cmd),
    ensures
        final(app)@ == spec_run_normal(old(app)@, cmd).0,
        effects_view(e@) == spec_run_normal(old(app)@, cmd).1,
{
    match cmd {
        NormalCommand::VolumeUp => two_effects(
            Effect::VolumeStep(true),
            Effect::Persist(ConfigChange::Volume),
        ),
        NormalCommand::VolumeDown => two_effects(
            Effect::VolumeStep(false),
            Effect::Persist(ConfigChange::Volume),
        ),
        NormalCommand::CycleSpectrogram => run_spectrogram(app),
        NormalCommand::ToggleMute => {
            set_player(app, PlayerState { muted: !app.player.muted, ..app.player });
            no_effects()
        },
        NormalCommand::ToggleShuffle => run_shuffle(app),
        NormalCommand::CycleRepeat => run_repeat(app),
        NormalCommand::CycleVisualizer(backward) => {
            let v = cycle_visualizer(app.visualizer_mode, backward);
            run_visualizer(app, v)
        },
        NormalCommand::PickVisualizer(c) => match visualizer_from_digit(c) {
            Some(v) => run_visualizer(app, v),
            None => no_effects(),
        },
        _ => run_neon(app),
    }
}

fn run_other(app: &mut AppState, cmd: NormalCommand) -> (e: Vec<Effect>)
    requires
        !spec_is_navigation(cmd),
        !spec_is_preference(cmd),
        cmd == NormalCommand::Prev ==> spec_prev_track_safe(old(app)@),
    ensures
        final(app)@ == spec_run_normal(old(app)@, cmd).0,
        effects_view(e@) == spec_run_normal(old(app)@, cmd).1,
{
    match cmd {
        NormalCommand::Next => run_step(app, true),
        NormalCommand::Prev => run_step(app, false),
        NormalCommand::Rescan => one_effect(Effect::Rescan),
        NormalCommand::PlaySelected => run_play_selected(app),
        NormalCommand::StartSearch => {
            set_mode_clearing_input(app, InputMode::Search);
            recompute_filter(app);
            no_effects()
        },
        NormalCommand::CycleTheme => one_effect(Effect::CycleTheme),
        NormalCommand::ReconnectAudio => run_reconnect(app),
        NormalCommand::StartDownload => {
            set_mode_clearing_input(app, InputMode::DownloadUrl);
            no_effects()
        },
        NormalCommand::StartAddFolder => {
            set_mode_clearing_input(app, InputMode::AddLibraryPath);
            no_effects()
        },
        _ => no_effects(),
    }
}

/// Carry out a normal-mode command.
pub fn run_normal(app: &mut AppState, cmd: NormalCommand) -> (e: Vec<Effect>)
    requires
        cmd == NormalCommand::Prev ==> spec_prev_track_safe(old(app)@),
    ensures
        final(app)@ == spec_run_normal(old(app)@, cmd).0,
        effects_view(e@) == spec_run_normal(old(app)@, cmd).1,
{
    if is_navigation(cmd) {
        run_navigation(app, cmd)
    } else if is_preference(cmd) {
        run_preference(app, cmd)
    } else {
        run_other(app, cmd)
    }
}

fn is_navigation(cmd: NormalCommand) -> (r: bool)
    ensures
        r == spec_is_navigation(cmd),
{
    match cmd {
        NormalCommand::CycleFocus | NormalCommand::ToggleHelp | NormalCommand::TogglePlay
        | NormalCommand::Seek(_) | NormalCommand::OpenLibraryManager | NormalCommand::SelectUp
        | NormalCommand::SelectDown | NormalCommand::ToggleFullscreen => true,
        _ => false,
    }
}

fn is_preference(cmd: NormalCommand) -> (r: bool)
    ensures
        r == spec_is_preference(cmd),
{
    match cmd {
        NormalCommand::VolumeUp | NormalCommand::VolumeDown | NormalCommand::CycleSpectrogram
        | NormalCommand::ToggleMute | NormalCommand::ToggleShuffle | NormalCommand::CycleRepeat
        | NormalCommand::CycleVisualizer(_) | NormalCommand::PickVisualizer(_)
        | NormalCommand::ToggleNeon => true,
        _ => false,
    }
}

/// A key in normal mode: the missing-tools prompt takes every key first, then `Esc`
/// closes the help or library overlay (or quits), then the key's command runs.
pub open spec fn spec_normal_key(m: AppModel, k: KeyPress) -> (AppModel, Seq<EffectModel>) {
    if m.deps_prompt is Some {
        spec_consent_key(m, k)
    } else if m.show_help && (k.code == Key::Esc || k.code == Key::Char('?')) {
        (AppModel { show_help: false, ..m }, seq![])
    } else if k.code == Key::Esc {
        if m.show_library_manager {
            (AppModel { show_library_manager: false, ..m }, seq![])
        } else {
            (AppModel { quit: true, ..m }, seq![])
        }
    } else {
        spec_run_normal(
            m,
            spec_normal_command(k, m.visualizer_mode == VisualizerMode::Spectrogram),
        )
    }
}

/// The key steps back through the track list.
pub open spec fn spec_steps_back(m: AppModel, k: KeyPress) -> bool {
    &&& m.input_mode == InputMode::Normal
    &&& m.deps_prompt is None
    &&& k.code == Key::Char('p')
}

/// Keys the handler can take in this state: stepping back needs the selected row to lie
/// within one past the end of the list when the playing track is not listed.
pub open spec fn spec_key_acceptable(m: AppModel, k: KeyPress) -> bool {
    spec_steps_back(m, k) ==> spec_prev_track_safe(m)
}

/// Whether [`dispatch_key`] is defined for this key in this state (see
/// [`spec_key_acceptable`]).
pub fn key_acceptable(app: &AppState, key: KeyPress) -> (r: bool)
    ensures
        r == spec_key_acceptable(app@, key),
{
    let steps_back = app.input_mode == InputMode::Normal && app.deps_prompt.is_none() && key.code
        == Key::Char('p');
    !steps_back || crate::events::prev_track_safe(app)
}

fn set_quit(app: &mut AppState)
    ensures
        final(app)@ == (AppModel { quit: true, ..old(app)@ }),
{
    app.quit = true;
}

fn set_show_library_manager(app: &mut AppState, show: bool)
    ensures
        final(app)@ == (AppModel { show_library_manager: show, ..old(app)@ }),
{
    app.show_library_manager = show;
}

fn close_overlay_or_quit(app: &mut AppState)
    ensures
        final(app)@ == (if old(app)@.show_library_manager {
            AppModel { show_library_manager: false, ..old(app)@ }
        } else {
            AppModel { quit: true, ..old(app)@ }
        }),
{
    if app.show_library_manager {
        set_show_library_manager(app, false);
    } else {
        set_quit(app);
    }
}

/// Handle a key in normal mode.
pub fn normal_key(app: &mut AppState, key: KeyPress) -> (e: Vec<Effect>)
    requires
        old(app)@.input_mode == InputMode::Normal,
        spec_key_acceptable(old(app)@, key),
    ensures
        final(app)@ == spec_normal_key(old(app)@, key).0,
        effects_view(e@) == spec_normal_key(old(app)@, key).1,
{
    if app.deps_prompt.is_some() {
        consent_key(app, key)
    } else if app.show_help && (key.code == Key::Esc || key.code == Key::Char('?')) {
        set_show_help(app, false);
        no_effects()
    } else if key.code == Key::Esc {
        close_overlay_or_quit(app);
        no_effects()
    } else {
        let active = app.visualizer_mode == VisualizerMode::Spectrogram;
        let cmd = normal_command(key, active);
        run_normal(app, cmd)
    }
}

/// The Settings overlay as opened with `F2`: the config's current tool paths, first row.
pub open spec fn spec_open_settings(m: AppModel, cfg: ConfigPaths) -> AppModel {
    AppModel {
        show_settings: true,
        settings_ytdlp_value: cfg.ytdlp_path@,
        settings_ffmpeg_value: cfg.ffmpeg_path@,
        settings_download_dir: cfg.download_dir@,
        settings_row: SettingsRow::YtDlp,
        input_mode: InputMode::Settings,
        ..m
    }
}

/// One key press: `q` quits from normal mode (without Ctrl), `F2` opens the settings from
/// any mode, and otherwise the current input mode decides.
pub open spec fn spec_dispatch(m: AppModel, k: KeyPress, cfg: ConfigPaths) -> (
    AppModel,
    Seq<EffectModel>,
) {
    if m.input_mode == InputMode::Normal && k.code == Key::Char('q') && !k.ctrl {
        (AppModel { quit: true, ..m }, seq![])
    } else if k.code == Key::F(2) {
        (spec_open_settings(m, cfg), seq![])
    } else {
        match m.input_mode {
            InputMode::Settings => spec_settings_key(m, k),
            InputMode::Search => spec_search_key(m, k),
            InputMode::DownloadUrl | InputMode::AddLibraryPath => spec_prompt_key(m, k),
            InputMode::LibraryManager => spec_manager_key(m, k),
            InputMode::Normal => spec_normal_key(m, k),
        }
    }
}

fn open_settings(app: &mut AppState, cfg: &ConfigPaths)
    ensures
        final(app)@ == spec_open_settings(old(app)@, *cfg),
{
    app.show_settings = true;
    app.settings_ytdlp_value = cfg.ytdlp_path.clone();
    app.settings_ffmpeg_value = cfg.ffmpeg_path.clone();
    app.settings_download_dir = cfg.download_dir.clone();
    app.settings_row = SettingsRow::YtDlp;
    app.input_mode = InputMode::Settings;
}

/// Apply one key press to the application state. Returns the follow-up work for the
/// caller (saving config, seeking, opening pickers, starting downloads, …), in order.
pub fn dispatch_key(app: &mut AppState, key: KeyPress, cfg: &ConfigPaths) -> (e: Vec<Effect>)
    requires
        spec_key_acceptable(old(app)@, key),
    ensures
        final(app)@ == spec_dispatch(old(app)@, key, *cfg).0,
        effects_view(e@) == spec_dispatch(old(app)@, key, *cfg).1,
{
    if app.input_mode == InputMode::Normal && key.code == Key::Char('q') && !key.ctrl {
        set_quit(app);
        return no_effects();
    }
    if key.code == Key::F(2) {
        open_settings(app, cfg);
        return no_effects();
    }
    match app.input_mode {
        InputMode::Settings => settings_key(app, key),
        InputMode::Search => search_key(app, key),
        InputMode::DownloadUrl | InputMode::AddLibraryPath => prompt_key(app, key),
        InputMode::LibraryManager => manager_key(app, key),
        InputMode::Normal => normal_key(app, key),
    }
}

} // verus!
