//! Configuration values (as read from `config.yaml`), their defaults, and the application
//! state a session starts from.

use vstd::prelude::*;

use crate::events::{AppModel, AppState, ConfigChange, PlayerState};
use crate::library::spec_expansion_of;
use crate::paths::expand_path;
use crate::state::{
    spec_dash_to_underscore, spec_repeat_from_key, spec_repeat_str, spec_spectrogram_from_key,
    spec_spectrogram_str, spec_visualizer_from_key, spec_visualizer_name, InputMode, LibraryFolder, PanelFocus, RepeatMode, SettingsRow,
    SpectrogramMode, VisualizerMode,
};
use crate::text::{spec_lowercase, spec_trim};
use crate::theme::Theme;

verus! {

/// The `app:` section, without the playback volume (a floating-point value the caller
/// keeps).
#[derive(Debug)]
pub struct AppSettings {
    pub library_paths: Vec<String>,
    pub download_dir: String,
    pub fps: u8,
    pub default_visualizer: String,
    pub start_fullscreen: bool,
    pub log_level: String,
    /// `off`, `all`, or `one`.
    pub repeat: String,
    pub shuffle: bool,
    pub neon: bool,
    /// `standard`, `inverted`, or `mirrored` (spectrogram sub-mode).
    pub spectrogram_mode: String,
}

/// The `theme:` section: the active theme and optional custom themes by key (a table in
/// which no key occurs twice; see `theme::has_distinct_keys`).
#[derive(Debug)]
pub struct ThemeSettings {
    pub active: String,
    pub custom: Option<Vec<(String, Theme)>>,
}

/// The `fetcher:` section.
#[derive(Debug, Clone)]
pub struct FetcherSettings {
    pub ytdlp_path: String,
    pub ffmpeg_path: String,
    pub default_format: String,
    pub max_concurrent: u32,
}

/// The `audio:` section.
#[derive(Debug, Clone, Copy, PartialEq, Eq, Structural)]
pub struct AudioSettings {
    pub fft_window_size: u32,
    pub fft_hop_size: u32,
    pub fft_rate_hz: u32,
    pub ring_buffer_size: u32,
    /// PCM samples forwarded per FFT frame to the scope renderers.
    pub pcm_snapshot_samples: u32,
    /// Depth of the spectrogram waterfall history (rows).
    pub spectrogram_history_rows: u32,
}

/// Performance / quality knobs for the visualizer renderers.
#[derive(Debug, Clone, Copy, PartialEq, Eq, Structural)]
pub struct VisualizerSettings {
    /// Particle physics sub-steps per frame.
    pub particles_substeps: u32,
    /// Maximum live particle count.
    pub particles_max: u32,
}

/// Repeat mode written when the config has none.
pub fn default_repeat_str() -> (r: String)
    ensures
        r@ == "off"@,
{
    String::from_str("off")
}

/// Neon glow is on unless the config says otherwise.
pub fn default_neon() -> (r: bool)
    ensures
        r,
{
    true
}

/// Spectrogram layout written when the config has none.
pub fn default_spectrogram_mode_str() -> (r: String)
    ensures
        r@ == "standard"@,
{
    String::from_str("standard")
}

/// PCM samples per frame when the config has none.
pub fn default_pcm_snapshot_samples() -> (r: u32)
    ensures
        r == 1024,
{
    1024
}

/// Spectrogram history rows when the config has none.
pub fn default_spectrogram_history_rows() -> (r: u32)
    ensures
        r == 64,
{
    64
}

/// Particle sub-steps when the config has none.
pub fn default_particles_substeps() -> (r: u32)
    ensures
        r == 1,
{
    1
}

/// Particle cap when the config has none.
pub fn default_particles_max() -> (r: u32)
    ensures
        r == 250,
{
    250
}

impl Default for VisualizerSettings {
    fn default() -> (r: Self)
        ensures
            r == (VisualizerSettings { particles_substeps: 1, particles_max: 250 }),
    {
        VisualizerSettings {
            particles_substeps: default_particles_substeps(),
            particles_max: default_particles_max(),
        }
    }
}

/// The settings a key press can ask to save, as characters.
pub struct SavedSettings {
    pub spectrogram_mode: Seq<char>,
    pub shuffle: bool,
    pub repeat: Seq<char>,
    pub default_visualizer: Seq<char>,
    pub neon: bool,
    pub download_dir: Seq<char>,
    pub ytdlp_path: Seq<char>,
    pub ffmpeg_path: Seq<char>,
}

/// The savable settings held in the config sections.
pub open spec fn spec_saved_settings(app: AppSettings, fetcher: FetcherSettings) -> SavedSettings {
    SavedSettings {
        spectrogram_mode: app.spectrogram_mode@,
        shuffle: app.shuffle,
        repeat: app.repeat@,
        default_visualizer: app.default_visualizer@,
        neon: app.neon,
        download_dir: app.download_dir@,
        ytdlp_path: fetcher.ytdlp_path@,
        ffmpeg_path: fetcher.ffmpeg_path@,
    }
}

/// The savable settings after saving one change: each change writes its setting's config
/// spelling. The volume is a floating-point value the caller keeps, so saving it changes
/// nothing here.
pub open spec fn spec_after_save(s: SavedSettings, change: ConfigChange) -> SavedSettings {
    match change {
        ConfigChange::Volume => s,
        ConfigChange::Spectrogram(m) => SavedSettings { spectrogram_mode: spec_spectrogram_str(m), ..s },
        ConfigChange::Shuffle(on) => SavedSettings { shuffle: on, ..s },
        ConfigChange::Repeat(r) => SavedSettings { repeat: spec_repeat_str(r), ..s },
        ConfigChange::Visualizer(v) => SavedSettings { default_visualizer: spec_visualizer_name(v), ..s },
        ConfigChange::Neon(on) => SavedSettings { neon: on, ..s },
        ConfigChange::FetcherPathReset(row) => match row {
            SettingsRow::YtDlp => SavedSettings { ytdlp_path: "auto"@, ..s },
            SettingsRow::Ffmpeg => SavedSettings { ffmpeg_path: "auto"@, ..s },
            SettingsRow::DownloadDir => SavedSettings { download_dir: "~"@, ..s },
        },
    }
}

/// Write one changed setting into the config sections (what a key press asks to save).
pub fn save_change(app: &mut AppSettings, fetcher: &mut FetcherSettings, change: ConfigChange)
    ensures
        spec_saved_settings(*final(app), *final(fetcher)) == spec_after_save(
            spec_saved_settings(*old(app), *old(fetcher)),
            change,
        ),
        final(app).library_paths == old(app).library_paths,
        final(app).fps == old(app).fps,
        final(app).start_fullscreen == old(app).start_fullscreen,
        final(app).log_level == old(app).log_level,
        final(fetcher).default_format == old(fetcher).default_format,
        final(fetcher).max_concurrent == old(fetcher).max_concurrent,
{
    match change {
        ConfigChange::Volume => {},
        ConfigChange::Spectrogram(m) => {
            app.spectrogram_mode = String::from_str(m.as_config_str());
        },
        ConfigChange::Shuffle(on) => {
            app.shuffle = on;
        },
        ConfigChange::Repeat(r) => {
            app.repeat = String::from_str(r.as_config_str());
        },
        ConfigChange::Visualizer(v) => {
            app.default_visualizer = String::from_str(v.as_config_str());
        },
        ConfigChange::Neon(on) => {
            app.neon = on;
        },
        ConfigChange::FetcherPathReset(SettingsRow::YtDlp) => {
            fetcher.ytdlp_path = String::from_str("auto");
        },
        ConfigChange::FetcherPathReset(SettingsRow::Ffmpeg) => {
            fetcher.ffmpeg_path = String::from_str("auto");
        },
        ConfigChange::FetcherPathReset(SettingsRow::DownloadDir) => {
            app.download_dir = String::from_str("~");
        },
    }
}

/// `--config` wins when given; otherwise the default location.
pub fn resolved_config_path(cli_override: Option<&str>, default_path: &str) -> (r: String)
    ensures
        r@ == match cli_override {
            Some(p) => p@,
            None => default_path@,
        },
{
    match cli_override {
        Some(p) => String::from_str(p),
        None => String::from_str(default_path),
    }
}

/// Download workers: the configured count, at least one.
pub fn pool_size(max_concurrent: u32) -> (r: u32)
    ensures
        r == (if max_concurrent > 0 {
            max_concurrent
        } else {
            1
        }),
{
    if max_concurrent > 0 {
        max_concurrent
    } else {
        1
    }
}

/// Per-session options of the `tui` subcommand merged with the global flags: the
/// subcommand's theme and frame rate win, full screen if either asks for it.
pub fn merge_tui_options(
    sub_theme: Option<String>,
    sub_fps: Option<u8>,
    sub_fullscreen: bool,
    global_theme: Option<String>,
    global_fps: Option<u8>,
    global_fullscreen: bool,
) -> (r: (Option<String>, Option<u8>, bool))
    ensures
        crate::state::opt_chars(r.0) == match sub_theme {
            Some(t) => Some(t@),
            None => crate::state::opt_chars(global_theme),
        },
        r.1 == match sub_fps {
            Some(f) => Some(f),
            None => global_fps,
        },
        r.2 == (sub_fullscreen || global_fullscreen),
{
    let theme = match sub_theme {
        Some(t) => Some(t),
        None => global_theme,
    };
    let fps = match sub_fps {
        Some(f) => Some(f),
        None => global_fps,
    };
    (theme, fps, sub_fullscreen || global_fullscreen)
}

/// The frame rate a session asks for, kept within 30–60.
pub open spec fn spec_session_fps(f: u8) -> u8 {
    if f < 30 {
        30
    } else if f > 60 {
        60
    } else {
        f
    }
}

/// Apply the session options to the config: a theme replaces the active one, a frame rate
/// is clamped to 30–60, and full screen can only be switched on.
pub fn apply_session_options(
    app: &mut AppSettings,
    theme: &mut ThemeSettings,
    theme_opt: Option<String>,
    fps_opt: Option<u8>,
    fullscreen: bool,
)
    ensures
        final(theme).active@ == match theme_opt {
            Some(t) => t@,
            None => old(theme).active@,
        },
        final(theme).custom == old(theme).custom,
        final(app).fps == match fps_opt {
            Some(f) => spec_session_fps(f),
            None => old(app).fps,
        },
        final(app).start_fullscreen == (old(app).start_fullscreen || fullscreen),
        final(app).library_paths == old(app).library_paths,
        final(app).download_dir == old(app).download_dir,
        final(app).default_visualizer == old(app).default_visualizer,
        final(app).log_level == old(app).log_level,
        final(app).repeat == old(app).repeat,
        final(app).shuffle == old(app).shuffle,
        final(app).neon == old(app).neon,
        final(app).spectrogram_mode == old(app).spectrogram_mode,
{
    match theme_opt {
        Some(t) => {
            theme.active = t;
        },
        None => {},
    }
    match fps_opt {
        Some(f) => {
            app.fps = if f < 30 {
                30
            } else if f > 60 {
                60
            } else {
                f
            };
        },
        None => {},
    }
    if fullscreen {
        app.start_fullscreen = true;
    }
}

/// The visualizer a session starts with: the configured one, or Spectrum when the name is
/// unknown.
pub open spec fn spec_start_visualizer(name: Seq<char>) -> VisualizerMode {
    match spec_visualizer_from_key(spec_dash_to_underscore(spec_lowercase(spec_trim(name)))) {
        Some(m) => m,
        None => VisualizerMode::Spectrum,
    }
}

impl AppState {
    /// The state a session starts from: an empty library, the configured preferences and
    /// one (uncounted) folder per configured library path.
    pub fn new(app: &AppSettings, fetcher: &FetcherSettings) -> (r: AppState)
        ensures
            r@.library.len() == 0,
            r@.filtered_indices.len() == 0,
            r@.search_query is None,
            r@.input_mode == InputMode::Normal,
            r@.input_buffer.len() == 0,
            r@.player == (PlayerState {
                is_playing: false,
                muted: false,
                current_index: None,
                shuffle: app.shuffle,
                repeat: spec_repeat_from_key(spec_lowercase(spec_trim(app.repeat@))),
                force_reconnect: false,
                silent_mode: false,
            }),
            r@.visualizer_mode == spec_start_visualizer(app.default_visualizer@),
            r@.is_fullscreen == app.start_fullscreen,
            r@.panel_focus == PanelFocus::Normal,
            r@.neon_enabled == app.neon,
            r@.spectrogram_mode == spec_spectrogram_from_key(
                spec_lowercase(spec_trim(app.spectrogram_mode@)),
            ),
            r@.selected_track == 0,
            r@.message is None,
            r@.download_stage is None,
            !r@.show_help,
            !r@.show_library_manager,
            r@.library_folders.len() == app.library_paths@.len(),
            forall|i: int|
                0 <= i < app.library_paths@.len() ==> {
                    let f = #[trigger] r@.library_folders[i];
                    &&& spec_expansion_of(f.path, app.library_paths@[i]@)
                    &&& f.track_count == 0
                    &&& f.last_scanned is None
                },
            r@.selected_folder == 0,
            !r@.is_rescanning,
            !r@.rescan_pending,
            !r@.show_settings,
            r@.settings_row == SettingsRow::YtDlp,
            r@.settings_ytdlp_value == fetcher.ytdlp_path@,
            r@.settings_ffmpeg_value == fetcher.ffmpeg_path@,
            r@.settings_download_dir == app.download_dir@,
            !r@.quit,
            r@.deps_prompt is None,
            r@.pending_fetch is None,
            crate::laws::spec_well_formed(r@),
    {
        let visualizer_mode = match VisualizerMode::from_str(app.default_visualizer.as_str()) {
            Ok(v) => v,
            Err(_) => VisualizerMode::Spectrum,
        };
        let mut folders: Vec<LibraryFolder> = Vec::new();
        let mut i: usize = 0;
        while i < app.library_paths.len()
            invariant
                i <= app.library_paths@.len(),
                folders@.len() == i,
                forall|j: int|
                    0 <= j < i ==> {
                        let f = #[trigger] folders@[j];
                        &&& spec_expansion_of(f.path@, app.library_paths@[j]@)
                        &&& f.track_count == 0
                        &&& f.last_scanned is None
                    },
            decreases app.library_paths.len() - i,
        {
            let p = expand_path(app.library_paths[i].as_str());
            folders.push(LibraryFolder { path: p, track_count: 0, last_scanned: None });
            i = i + 1;
        }
        let player = PlayerState {
            is_playing: false,
            muted: false,
            current_index: None,
            shuffle: app.shuffle,
            repeat: RepeatMode::from_config_str(app.repeat.as_str()),
            force_reconnect: false,
            silent_mode: false,
        };
        let r = AppState {
            library: Vec::new(),
            filtered_indices: Vec::new(),
            search_query: None,
            input_mode: InputMode::Normal,
            input_buffer: String::new(),
            player,
            visualizer_mode,
            is_fullscreen: app.start_fullscreen,
            panel_focus: PanelFocus::Normal,
            neon_enabled: app.neon,
            spectrogram_mode: SpectrogramMode::from_config_str(app.spectrogram_mode.as_str()),
            selected_track: 0,
            message: None,
            download_stage: None,
            show_help: false,
            show_library_manager: false,
            library_folders: folders,
            selected_folder: 0,
            is_rescanning: false,
            rescan_pending: false,
            show_settings: false,
            settings_row: SettingsRow::YtDlp,
            settings_ytdlp_value: fetcher.ytdlp_path.clone(),
            settings_ffmpeg_value: fetcher.ffmpeg_path.clone(),
            settings_download_dir: app.download_dir.clone(),
            quit: false,
            deps_prompt: None,
            pending_fetch: None,
        };
        proof {
            assert forall|i: int| 0 <= i < app.library_paths@.len() implies {
                let f = #[trigger] r@.library_folders[i];
                &&& spec_expansion_of(f.path, app.library_paths@[i]@)
                &&& f.track_count == 0
                &&& f.last_scanned is None
            } by {
                assert(r@.library_folders[i] == r.library_folders@[i]@);
            }
        }
        r
    }
}

} // verus!
