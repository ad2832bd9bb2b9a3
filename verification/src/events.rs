//! Keyboard handling: the application state the keys act on, and the transition taken for
//! each key press together with the follow-up work (persisting config, seeking, starting a
//! download, …) that the caller performs.

use vstd::prelude::*;

use crate::fetcher::{FetchOpts, MissingTool, PickerTarget};
use crate::state::{
    FolderModel, InputMode, LibraryFolder, PanelFocus, RepeatMode, SettingsRow, SpectrogramMode,
    Track, TrackModel, VisualizerMode,
};
use crate::text::{
    chars_of, push_char, spec_contains, spec_lowercase, string_of, to_lowercase,
};
use crate::theme::first_where;

verus! {

/// Playback fields shared with the audio worker (the floating-point position, duration and
/// volume are kept by the caller).
#[derive(Debug, Clone, Copy, PartialEq, Eq, Structural)]
pub struct PlayerState {
    pub is_playing: bool,
    pub muted: bool,
    pub current_index: Option<usize>,
    pub shuffle: bool,
    pub repeat: RepeatMode,
    /// Set by the UI to ask the audio worker to reconnect the output device immediately.
    pub force_reconnect: bool,
    /// Written by the audio worker; `true` when no output device is available.
    pub silent_mode: bool,
}

impl Default for PlayerState {
    /// Stopped, unmuted, nothing selected, shuffle and repeat off, a working output.
    fn default() -> (r: Self)
        ensures
            r == (PlayerState {
                is_playing: false,
                muted: false,
                current_index: None,
                shuffle: false,
                repeat: RepeatMode::Off,
                force_reconnect: false,
                silent_mode: false,
            }),
    {
        PlayerState {
            is_playing: false,
            muted: false,
            current_index: None,
            shuffle: false,
            repeat: RepeatMode::Off,
            force_reconnect: false,
            silent_mode: false,
        }
    }
}

/// Central application state that key presses act on.
pub struct AppState {
    pub library: Vec<Track>,
    pub filtered_indices: Vec<usize>,
    pub search_query: Option<String>,
    pub input_mode: InputMode,
    pub input_buffer: String,
    pub player: PlayerState,
    pub visualizer_mode: VisualizerMode,
    pub is_fullscreen: bool,
    pub panel_focus: PanelFocus,
    pub neon_enabled: bool,
    pub spectrogram_mode: SpectrogramMode,
    pub selected_track: usize,
    pub message: Option<String>,
    pub download_stage: Option<String>,
    pub show_help: bool,
    pub show_library_manager: bool,
    pub library_folders: Vec<LibraryFolder>,
    pub selected_folder: usize,
    pub is_rescanning: bool,
    pub rescan_pending: bool,
    pub show_settings: bool,
    pub settings_row: SettingsRow,
    pub settings_ytdlp_value: String,
    pub settings_ffmpeg_value: String,
    pub settings_download_dir: String,
    pub quit: bool,
    pub deps_prompt: Option<Vec<MissingTool>>,
    pub pending_fetch: Option<(url::Url, FetchOpts)>,
}

/// [`AppState`] with strings and vectors as sequences.
pub struct AppModel {
    pub library: Seq<TrackModel>,
    pub filtered_indices: Seq<usize>,
    pub search_query: Option<Seq<char>>,
    pub input_mode: InputMode,
    pub input_buffer: Seq<char>,
    pub player: PlayerState,
    pub visualizer_mode: VisualizerMode,
    pub is_fullscreen: bool,
    pub panel_focus: PanelFocus,
    pub neon_enabled: bool,
    pub spectrogram_mode: SpectrogramMode,
    pub selected_track: usize,
    pub message: Option<Seq<char>>,
    pub download_stage: Option<Seq<char>>,
    pub show_help: bool,
    pub show_library_manager: bool,
    pub library_folders: Seq<FolderModel>,
    pub selected_folder: usize,
    pub is_rescanning: bool,
    pub rescan_pending: bool,
    pub show_settings: bool,
    pub settings_row: SettingsRow,
    pub settings_ytdlp_value: Seq<char>,
    pub settings_ffmpeg_value: Seq<char>,
    pub settings_download_dir: Seq<char>,
    pub quit: bool,
    pub deps_prompt: Option<Seq<MissingTool>>,
    pub pending_fetch: Option<(url::Url, (Seq<char>, Seq<char>))>,
}

pub open spec fn opt_seq_chars(o: Option<String>) -> Option<Seq<char>> {
    match o {
        Some(s) => Some(s@),
        None => None,
    }
}

pub open spec fn pending_view(p: Option<(url::Url, FetchOpts)>) -> Option<
    (url::Url, (Seq<char>, Seq<char>)),
> {
    match p {
        Some(x) => Some((x.0, (x.1.format@, x.1.output_dir@))),
        None => None,
    }
}

pub open spec fn deps_view(d: Option<Vec<MissingTool>>) -> Option<Seq<MissingTool>> {
    match d {
        Some(v) => Some(v@),
        None => None,
    }
}

impl View for AppState {
    type V = AppModel;

    open spec fn view(&self) -> AppModel {
        AppModel {
            library: self.library@.map_values(|t: Track| t@),
            filtered_indices: self.filtered_indices@,
            search_query: opt_seq_chars(self.search_query),
            input_mode: self.input_mode,
            input_buffer: self.input_buffer@,
            player: self.player,
            visualizer_mode: self.visualizer_mode,
            is_fullscreen: self.is_fullscreen,
            panel_focus: self.panel_focus,
            neon_enabled: self.neon_enabled,
            spectrogram_mode: self.spectrogram_mode,
            selected_track: self.selected_track,
            message: opt_seq_chars(self.message),
            download_stage: opt_seq_chars(self.download_stage),
            show_help: self.show_help,
            show_library_manager: self.show_library_manager,
            library_folders: self.library_folders@.map_values(|f: LibraryFolder| f@),
            selected_folder: self.selected_folder,
            is_rescanning: self.is_rescanning,
            rescan_pending: self.rescan_pending,
            show_settings: self.show_settings,
            settings_row: self.settings_row,
            settings_ytdlp_value: self.settings_ytdlp_value@,
            settings_ffmpeg_value: self.settings_ffmpeg_value@,
            settings_download_dir: self.settings_download_dir@,
            quit: self.quit,
            deps_prompt: deps_view(self.deps_prompt),
            pending_fetch: pending_view(self.pending_fetch),
        }
    }
}

/// Key identity, independent of the terminal backend.
#[derive(Debug, Clone, Copy, PartialEq, Eq, Structural)]
pub enum Key {
    Char(char),
    Esc,
    Enter,
    Backspace,
    Tab,
    Up,
    Down,
    Left,
    Right,
    Delete,
    F(u8),
    Other,
}

/// One key press with the modifiers the handler looks at.
#[derive(Debug, Clone, Copy, PartialEq, Eq, Structural)]
pub struct KeyPress {
    pub code: Key,
    pub shift: bool,
    pub ctrl: bool,
}

/// A config value to write back after a key changed it.
#[derive(Debug, Clone, Copy, PartialEq, Eq, Structural)]
pub enum ConfigChange {
    /// The (caller-held) playback volume.
    Volume,
    Spectrogram(SpectrogramMode),
    Shuffle(bool),
    Repeat(RepeatMode),
    Visualizer(VisualizerMode),
    Neon(bool),
    /// The fetcher path of this settings row was reset to its default (`auto`, `auto`, `~`).
    FetcherPathReset(SettingsRow),
}

/// Work the caller performs after a key press.
#[derive(Debug)]
pub enum Effect {
    /// `message` was (re)set: restart the toast timer.
    ToastShown,
    /// Save this setting to the config file.
    Persist(ConfigChange),
    /// Ask the player to seek by this many seconds (clamped to the track by the caller).
    SeekBy(i32),
    /// Raise (`true`) or lower the volume by one step and save it.
    VolumeStep(bool),
    /// Playback position back to zero and any pending seek dropped.
    PositionReset,
    /// Track duration (seconds) of the newly selected entry.
    DurationFromTrack(u64),
    /// Open a native picker: target, whether a folder is picked, current value.
    OpenPicker(PickerTarget, bool, String),
    /// Validate and enqueue this URL.
    SubmitDownload(String),
    /// Validate and add this folder to the library.
    AddFolder(String),
    /// Remove this library folder.
    RemoveFolder(String),
    /// Start a background rescan.
    Rescan,
    /// Switch to the next builtin theme, save it and announce it.
    CycleTheme,
    /// Download the missing tools, then retry the pending fetch.
    StartDepsDownload(Vec<MissingTool>, Option<(url::Url, FetchOpts)>),
}

/// [`Effect`] with strings as sequences.
pub enum EffectModel {
    ToastShown,
    Persist(ConfigChange),
    SeekBy(i32),
    VolumeStep(bool),
    PositionReset,
    DurationFromTrack(u64),
    OpenPicker(PickerTarget, bool, Seq<char>),
    SubmitDownload(Seq<char>),
    AddFolder(Seq<char>),
    RemoveFolder(Seq<char>),
    Rescan,
    CycleTheme,
    StartDepsDownload(Seq<MissingTool>, Option<(url::Url, (Seq<char>, Seq<char>))>),
}

impl View for Effect {
    type V = EffectModel;

    open spec fn view(&self) -> EffectModel {
        match self {
            Effect::ToastShown => EffectModel::ToastShown,
            Effect::Persist(c) => EffectModel::Persist(*c),
            Effect::SeekBy(d) => EffectModel::SeekBy(*d),
            Effect::VolumeStep(u) => EffectModel::VolumeStep(*u),
            Effect::PositionReset => EffectModel::PositionReset,
            Effect::DurationFromTrack(d) => EffectModel::DurationFromTrack(*d),
            Effect::OpenPicker(t, f, s) => EffectModel::OpenPicker(*t, *f, s@),
            Effect::SubmitDownload(s) => EffectModel::SubmitDownload(s@),
            Effect::AddFolder(s) => EffectModel::AddFolder(s@),
            Effect::RemoveFolder(s) => EffectModel::RemoveFolder(s@),
            Effect::Rescan => EffectModel::Rescan,
            Effect::CycleTheme => EffectModel::CycleTheme,
            Effect::StartDepsDownload(m, p) => EffectModel::StartDepsDownload(m@, pending_view(*p)),
        }
    }
}

pub open spec fn effects_view(v: Seq<Effect>) -> Seq<EffectModel> {
    v.map_values(|e: Effect| e@)
}

/// Config values the Settings overlay is opened with.
pub struct ConfigPaths {
    pub ytdlp_path: String,
    pub ffmpeg_path: String,
    pub download_dir: String,
}

// ---------------------------------------------------------------------------------------
// Track list navigation
// ---------------------------------------------------------------------------------------

/// The library indices shown in the list: the search hits, or the whole library when
/// there are none.
pub open spec fn spec_visible(m: AppModel) -> Seq<usize> {
    if m.filtered_indices.len() > 0 {
        m.filtered_indices
    } else {
        Seq::new(m.library.len(), |i: int| i as usize)
    }
}

/// Where the playing track sits in the visible list, else the selected row.
pub open spec fn spec_play_pos(m: AppModel) -> int {
    match first_where(spec_visible(m), |x: usize| Some(x) == m.player.current_index) {
        Some(j) => j,
        None => m.selected_track as int,
    }
}

/// Library indices currently listed.
pub fn visible_track_indices(app: &AppState) -> (r: Vec<usize>)
    ensures
        r@ == spec_visible(app@),
{
    if app.filtered_indices.len() > 0 {
        app.filtered_indices.clone()
    } else {
        let n = app.library.len();
        let mut v: Vec<usize> = Vec::new();
        let mut i: usize = 0;
        while i < n
            invariant
                i <= n,
                n == app.library@.len(),
                v@ == Seq::new(i as nat, |j: int| j as usize),
            decreases n - i,
        {
            v.push(i);
            assert(v@ =~= Seq::new((i + 1) as nat, |j: int| j as usize));
            i = i + 1;
        }
        v
    }
}

fn play_pos(app: &AppState, vis: &Vec<usize>) -> (r: usize)
    requires
        vis@ == spec_visible(app@),
    ensures
        r as int == spec_play_pos(app@),
{
    let ghost p = |x: usize| Some(x) == app.player.current_index;
    let mut i: usize = 0;
    while i < vis.len()
        invariant
            i <= vis@.len(),
            vis@ == spec_visible(app@),
            p == (|x: usize| Some(x) == app.player.current_index),
            forall|j: int| 0 <= j < i ==> !p(vis@[j]),
        decreases vis.len() - i,
    {
        if Some(vis[i]) == app.player.current_index {
            proof {
                crate::theme::lemma_first_where_found(vis@, p, i as int);
            }
            return i;
        }
        i = i + 1;
    }
    proof {
        crate::theme::lemma_first_where_none(vis@, p);
    }
    app.selected_track
}

/// Whether stepping back is defined here: the row it starts from lies at most one past the
/// end of the listed tracks.
pub fn prev_track_safe(app: &AppState) -> (r: bool)
    ensures
        r == spec_prev_track_safe(app@),
{
    if app.library.len() == 0 {
        return true;
    }
    let vis = visible_track_indices(app);
    if vis.len() == 0 {
        return true;
    }
    play_pos(app, &vis) <= vis.len()
}

/// Advance to the next visible track (wrapping); `None` when nothing is listed.
pub open spec fn spec_next_track(m: AppModel) -> Option<AppModel> {
    let vis = spec_visible(m);
    if m.library.len() == 0 || vis.len() == 0 {
        None
    } else {
        let np = (spec_play_pos(m) + 1) % (vis.len() as int);
        Some(
            AppModel {
                player: PlayerState { current_index: Some(vis[np]), ..m.player },
                selected_track: np as usize,
                ..m
            },
        )
    }
}

/// Step back to the previous visible track (wrapping only under repeat-all).
pub open spec fn spec_prev_track(m: AppModel) -> Option<AppModel> {
    let vis = spec_visible(m);
    if m.library.len() == 0 || vis.len() == 0 {
        None
    } else {
        let pos = spec_play_pos(m);
        let np = if pos == 0 {
            if m.player.repeat == RepeatMode::All {
                vis.len() - 1
            } else {
                0
            }
        } else {
            pos - 1
        };
        Some(
            AppModel {
                player: PlayerState { current_index: Some(vis[np]), ..m.player },
                selected_track: np as usize,
                ..m
            },
        )
    }
}

/// Stepping back indexes the visible list in range: with tracks listed, the selected row is
/// at most one past the end of the list whenever the playing track is not listed.
pub open spec fn spec_prev_track_safe(m: AppModel) -> bool {
    m.library.len() == 0 || spec_visible(m).len() == 0 || spec_play_pos(m) <= spec_visible(
        m,
    ).len()
}

/// `(pos + 1) % len`, computed without overflow.
pub fn wrap_next(pos: usize, len: usize) -> (r: usize)
    requires
        len > 0,
    ensures
        r as int == (pos as int + 1) % (len as int),
        r < len,
{
    let w = pos % len;
    let np = if w + 1 == len {
        0
    } else {
        w + 1
    };
    proof {
        let l = len as int;
        vstd::arithmetic::div_mod::lemma_fundamental_div_mod(pos as int, l);
        vstd::arithmetic::div_mod::lemma_mod_pos_bound(pos as int, l);
        vstd::arithmetic::div_mod::lemma_mod_multiples_vanish(pos as int / l, (w + 1) as int, l);
        crate::player::lemma_wrap_once(w as nat, 1, len as nat);
        assert(pos as int + 1 == l * (pos as int / l) + (w + 1));
    }
    np
}

/// Move playback to the next listed track.
pub fn next_track(app: &mut AppState) -> (r: bool)
    ensures
        r == spec_next_track(old(app)@) is Some,
        r ==> final(app)@ == spec_next_track(old(app)@)->0,
        !r ==> final(app)@ == old(app)@,
{
    if app.library.len() == 0 {
        return false;
    }
    let vis = visible_track_indices(app);
    if vis.len() == 0 {
        return false;
    }
    let pos = play_pos(app, &vis);
    let np = wrap_next(pos, vis.len());
    app.player.current_index = Some(vis[np]);
    app.selected_track = np;
    true
}

/// Move playback to the previous listed track.
pub fn prev_track(app: &mut AppState) -> (r: bool)
    requires
        spec_prev_track_safe(old(app)@),
    ensures
        r == spec_prev_track(old(app)@) is Some,
        r ==> final(app)@ == spec_prev_track(old(app)@)->0,
        !r ==> final(app)@ == old(app)@,
{
    if app.library.len() == 0 {
        return false;
    }
    let vis = visible_track_indices(app);
    if vis.len() == 0 {
        return false;
    }
    let pos = play_pos(app, &vis);
    let np = if pos == 0 {
        if app.player.repeat == RepeatMode::All {
            vis.len() - 1
        } else {
            0
        }
    } else {
        pos - 1
    };
    app.player.current_index = Some(vis[np]);
    app.selected_track = np;
    true
}

/// Play the selected row: `(new state, duration of the chosen track)`, or `None` when
/// nothing is listed or the listed index is not in the library.
pub open spec fn spec_enter_play(m: AppModel) -> Option<(AppModel, u64)> {
    let vis = spec_visible(m);
    if vis.len() == 0 {
        None
    } else {
        let st = if m.selected_track < vis.len() {
            m.selected_track as int
        } else {
            vis.len() - 1
        };
        let idx = vis[st];
        if idx < m.library.len() {
            Some(
                (
                    AppModel {
                        player: PlayerState {
                            current_index: Some(idx),
                            is_playing: true,
                            ..m.player
                        },
                        ..m
                    },
                    m.library[idx as int].duration_secs,
                ),
            )
        } else {
            None
        }
    }
}

/// Start playing the selected row; returns the chosen track's duration.
pub fn enter_play_selected(app: &mut AppState) -> (r: Option<u64>)
    ensures
        spec_enter_play(old(app)@) is None ==> final(app)@ == old(app)@ && r is None,
        spec_enter_play(old(app)@) is Some ==> final(app)@ == (spec_enter_play(old(app)@)->0).0 && r
            == Some((spec_enter_play(old(app)@)->0).1),
{
    let ghost m = app@;
    let vis = visible_track_indices(app);
    if vis.len() == 0 {
        return None;
    }
    let st = if app.selected_track < vis.len() {
        app.selected_track
    } else {
        vis.len() - 1
    };
    let idx = vis[st];
    if idx < app.library.len() {
        let d = app.library[idx].duration_secs;
        assert(d == m.library[idx as int].duration_secs);
        let p = PlayerState { current_index: Some(idx), is_playing: true, ..app.player };
        app.player = p;
        assert(app@ == AppModel { player: p, ..m });
        Some(d)
    } else {
        None
    }
}

// ---------------------------------------------------------------------------------------
// Search filter
// ---------------------------------------------------------------------------------------

/// The text searched for a track: `title artist album` (missing parts empty).
pub open spec fn spec_haystack(t: TrackModel) -> Seq<char> {
    t.title + " "@ + (match t.artist {
        Some(a) => a,
        None => Seq::empty(),
    }) + " "@ + (match t.album {
        Some(a) => a,
        None => Seq::empty(),
    })
}

/// Indices `i < n` (ascending) whose lowered haystack contains `q`.
pub open spec fn spec_hits(hays: Seq<Seq<char>>, q: Seq<char>, n: nat) -> Seq<usize>
    decreases n,
{
    if n == 0 {
        Seq::empty()
    } else if spec_contains(hays[n - 1], q) {
        spec_hits(hays, q, (n - 1) as nat).push((n - 1) as usize)
    } else {
        spec_hits(hays, q, (n - 1) as nat)
    }
}

/// The lowered haystack of every library track.
pub open spec fn spec_lowered_hays(lib: Seq<TrackModel>) -> Seq<Seq<char>> {
    lib.map_values(|t: TrackModel| spec_lowercase(spec_haystack(t)))
}

/// Positions (ascending) of the entries that contain `query`.
pub fn indices_containing(hays: &Vec<Vec<char>>, query: &Vec<char>) -> (r: Vec<usize>)
    ensures
        r@ == spec_hits(hays@.map_values(|h: Vec<char>| h@), query@, hays@.len()),
{
    let ghost hv = hays@.map_values(|h: Vec<char>| h@);
    let mut r: Vec<usize> = Vec::new();
    let mut i: usize = 0;
    while i < hays.len()
        invariant
            i <= hays@.len(),
            hv == hays@.map_values(|h: Vec<char>| h@),
            r@ == spec_hits(hv, query@, i as nat),
        decreases hays.len() - i,
    {
        assert(hv[i as int] == hays@[i as int]@);
        if crate::text::find_chars(&hays[i], query).is_some() {
            r.push(i);
        }
        i = i + 1;
    }
    r
}

/// The search hits for the input text: none for an empty (lowered) query.
pub open spec fn spec_filter_hits(lib: Seq<TrackModel>, buf: Seq<char>) -> Seq<usize> {
    let q = spec_lowercase(buf);
    if q.len() == 0 {
        Seq::empty()
    } else {
        spec_hits(spec_lowered_hays(lib), q, lib.len())
    }
}

/// The selected row after the filter changed.
pub open spec fn spec_filter_selection(lib: Seq<TrackModel>, buf: Seq<char>, sel: usize) -> usize {
    if spec_lowercase(buf).len() == 0 {
        if sel > 0 && lib.len() == 0 {
            0
        } else {
            sel
        }
    } else {
        spec_clamp_selection(sel, spec_filter_hits(lib, buf).len())
    }
}

/// The new filter and selection after the search text changed.
pub open spec fn spec_recompute_filter(m: AppModel) -> AppModel {
    AppModel {
        filtered_indices: spec_filter_hits(m.library, m.input_buffer),
        selected_track: spec_filter_selection(m.library, m.input_buffer, m.selected_track),
        ..m
    }
}

fn haystack(t: &Track) -> (r: String)
    ensures
        r@ == spec_haystack(t@),
{
    let mut s = t.title.clone();
    s.append(" ");
    match &t.artist {
        Some(a) => s.append(a.as_str()),
        None => {},
    }
    s.append(" ");
    match &t.album {
        Some(a) => s.append(a.as_str()),
        None => {},
    }
    assert(s@ =~= spec_haystack(t@));
    s
}

/// The lowered search text of every track.
pub fn lowered_haystacks(lib: &Vec<Track>) -> (hays: Vec<Vec<char>>)
    ensures
        hays@.map_values(|h: Vec<char>| h@) == spec_lowered_hays(lib@.map_values(|t: Track| t@)),
{
    let mut hays: Vec<Vec<char>> = Vec::new();
    let mut i: usize = 0;
    while i < lib.len()
        invariant
            i <= lib@.len(),
            hays@.len() == i,
            forall|j: int|
                0 <= j < i ==> #[trigger] hays@[j]@ == spec_lowercase(spec_haystack(lib@[j]@)),
        decreases lib.len() - i,
    {
        let h = haystack(&lib[i]);
        hays.push(chars_of(to_lowercase(h.as_str()).as_str()));
        i = i + 1;
    }
    assert(hays@.map_values(|h: Vec<char>| h@) =~= spec_lowered_hays(lib@.map_values(|t: Track| t@)));
    hays
}

/// The row kept selected when the list shrinks to `n` hits.
pub open spec fn spec_clamp_selection(sel: usize, n: nat) -> usize {
    if n == 0 {
        0
    } else if sel >= n {
        (n - 1) as usize
    } else {
        sel
    }
}

fn clamp_selection(sel: usize, n: usize) -> (r: usize)
    ensures
        r == spec_clamp_selection(sel, n as nat),
{
    if n == 0 {
        0
    } else if sel >= n {
        n - 1
    } else {
        sel
    }
}

fn filter_result(lib: &Vec<Track>, buf: &String, sel: usize) -> (r: (Vec<usize>, usize))
    ensures
        r.0@ == spec_filter_hits(lib@.map_values(|t: Track| t@), buf@),
        r.1 == spec_filter_selection(lib@.map_values(|t: Track| t@), buf@, sel),
{
    let ghost lm = lib@.map_values(|t: Track| t@);
    let q = chars_of(to_lowercase(buf.as_str()).as_str());
    if q.len() == 0 {
        let s = if sel > 0 && lib.len() == 0 {
            0
        } else {
            sel
        };
        return (Vec::new(), s);
    }
    let hays = lowered_haystacks(lib);
    let hits = indices_containing(&hays, &q);
    proof {
        assert(hays@.map_values(|h: Vec<char>| h@).len() == hays@.len());
    }
    let s = clamp_selection(sel, hits.len());
    (hits, s)
}

/// Live filter while typing in Search mode.
pub fn recompute_filter(app: &mut AppState)
    ensures
        final(app)@ == spec_recompute_filter(old(app)@),
{
    let (hits, sel) = filter_result(&app.library, &app.input_buffer, app.selected_track);
    app.filtered_indices = hits;
    app.selected_track = sel;
}

// ---------------------------------------------------------------------------------------
// Small cyclers
// ---------------------------------------------------------------------------------------

/// Cycle order of the visualizers (also the `1`…`8` key order).
pub const VIZ_ORDER: [VisualizerMode; 8] = [
    VisualizerMode::Spectrum,
    VisualizerMode::Spectrogram,
    VisualizerMode::Oscilloscope,
    VisualizerMode::Vectorscope,
    VisualizerMode::Supernova,
    VisualizerMode::PulseRings,
    VisualizerMode::BandMeter,
    VisualizerMode::Particles,
];

/// Position of a visualizer in [`VIZ_ORDER`].
pub open spec fn spec_viz_pos(m: VisualizerMode) -> int {
    match m {
        VisualizerMode::Spectrum => 0,
        VisualizerMode::Spectrogram => 1,
        VisualizerMode::Oscilloscope => 2,
        VisualizerMode::Vectorscope => 3,
        VisualizerMode::Supernova => 4,
        VisualizerMode::PulseRings => 5,
        VisualizerMode::BandMeter => 6,
        VisualizerMode::Particles => 7,
    }
}

/// The visualizer one step forward (or back) in the cycle.
pub open spec fn spec_cycle_visualizer(m: VisualizerMode, backward: bool) -> VisualizerMode {
    let i = spec_viz_pos(m);
    if backward {
        VIZ_ORDER[(i + 7) % 8]
    } else {
        VIZ_ORDER[(i + 1) % 8]
    }
}

/// Step the visualizer through [`VIZ_ORDER`].
pub fn cycle_visualizer(mode: VisualizerMode, backward: bool) -> (r: VisualizerMode)
    ensures
        r == spec_cycle_visualizer(mode, backward),
{
    let i: usize = match mode {
        VisualizerMode::Spectrum => 0,
        VisualizerMode::Spectrogram => 1,
        VisualizerMode::Oscilloscope => 2,
        VisualizerMode::Vectorscope => 3,
        VisualizerMode::Supernova => 4,
        VisualizerMode::PulseRings => 5,
        VisualizerMode::BandMeter => 6,
        VisualizerMode::Particles => 7,
    };
    if backward {
        VIZ_ORDER[(i + 7) % 8]
    } else {
        VIZ_ORDER[(i + 1) % 8]
    }
}

/// The visualizer a digit key selects (`1`…`8`); other characters select none.
pub open spec fn spec_visualizer_from_digit(c: char) -> Option<VisualizerMode> {
    if '1' <= c && c <= '8' {
        Some(VIZ_ORDER[(c as u32 - '1' as u32) as int])
    } else {
        None
    }
}

/// Visualizer selected by a digit key.
pub fn visualizer_from_digit(c: char) -> (r: Option<VisualizerMode>)
    ensures
        r == spec_visualizer_from_digit(c),
{
    if !('1' <= c && c <= '9') {
        return None;
    }
    let idx = (c as u32 - '1' as u32) as usize;
    if idx < 8 {
        Some(VIZ_ORDER[idx])
    } else {
        None
    }
}

/// The next repeat mode: off → all → one → off.
pub open spec fn spec_next_repeat(r: RepeatMode) -> RepeatMode {
    match r {
        RepeatMode::Off => RepeatMode::All,
        RepeatMode::All => RepeatMode::One,
        RepeatMode::One => RepeatMode::Off,
    }
}

/// The next spectrogram layout: standard → inverted → mirrored → standard.
pub open spec fn spec_next_spectrogram(m: SpectrogramMode) -> SpectrogramMode {
    match m {
        SpectrogramMode::Standard => SpectrogramMode::Inverted,
        SpectrogramMode::Inverted => SpectrogramMode::Mirrored,
        SpectrogramMode::Mirrored => SpectrogramMode::Standard,
    }
}

/// Advance the repeat mode and announce it (`Repeat: off|all|one`).
pub fn cycle_repeat(app: &mut AppState)
    ensures
        final(app)@ == (AppModel {
            player: PlayerState { repeat: spec_next_repeat(old(app).player.repeat), ..old(app)@.player },
            message: Some("Repeat: "@ + crate::state::spec_repeat_str(spec_next_repeat(old(app).player.repeat))),
            ..old(app)@
        }),
{
    app.player.repeat = match app.player.repeat {
        RepeatMode::Off => RepeatMode::All,
        RepeatMode::All => RepeatMode::One,
        RepeatMode::One => RepeatMode::Off,
    };
    let label = app.player.repeat.as_config_str();
    app.message = Some(String::from_str("Repeat: ").concat(label));
}

} // verus!
