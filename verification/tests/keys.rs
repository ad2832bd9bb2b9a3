use rtunes::config::{AppSettings, FetcherSettings};
use rtunes::dispatch::{dispatch_key, key_acceptable};
use rtunes::events::{
    cycle_repeat, prev_track_safe, recompute_filter, AppState, ConfigChange, ConfigPaths, Effect, Key, KeyPress,
};
use rtunes::fetcher::{validate_url, MissingTool, PickerTarget};
use rtunes::state::{
    InputMode, LibraryFolder, PanelFocus, RepeatMode, SettingsRow, SpectrogramMode, Track,
    VisualizerMode,
};
use rtunes::theme::{cycle_theme, normalize_theme_key, resolve_active_theme};

fn settings() -> AppSettings {
    AppSettings {
        library_paths: Vec::new(),
        download_dir: "~".to_string(),
        fps: 60,
        default_visualizer: "spectrum".to_string(),
        start_fullscreen: false,
        log_level: "warn".to_string(),
        repeat: "off".to_string(),
        shuffle: false,
        neon: true,
        spectrogram_mode: "standard".to_string(),
    }
}

fn fetcher() -> FetcherSettings {
    FetcherSettings {
        ytdlp_path: "auto".to_string(),
        ffmpeg_path: "auto".to_string(),
        default_format: "mp3".to_string(),
        max_concurrent: 3,
    }
}

fn paths() -> ConfigPaths {
    ConfigPaths {
        ytdlp_path: "auto".to_string(),
        ffmpeg_path: "/usr/bin/ffmpeg".to_string(),
        download_dir: "~/Music".to_string(),
    }
}

fn new_app() -> AppState {
    AppState::new(&settings(), &fetcher())
}

fn track(id: &str, title: &str, artist: Option<&str>, secs: u64) -> Track {
    Track {
        id: id.to_string(),
        filepath: format!("/music/{id}.mp3"),
        title: title.to_string(),
        artist: artist.map(|a| a.to_string()),
        album: None,
        duration_secs: secs,
    }
}

fn sample_app() -> AppState {
    let mut app = new_app();
    app.library.push(track("1", "Hello World", Some("Artist"), 120));
    app
}

fn press(app: &mut AppState, code: Key) -> Vec<Effect> {
    dispatch_key(app, KeyPress { code, shift: false, ctrl: false }, &paths())
}

fn press_mod(app: &mut AppState, code: Key, shift: bool, ctrl: bool) -> Vec<Effect> {
    dispatch_key(app, KeyPress { code, shift, ctrl }, &paths())
}

#[test]
fn recompute_filter_empty_query_clears() {
    let mut app = sample_app();
    app.input_buffer.clear();
    recompute_filter(&mut app);
    assert!(app.filtered_indices.is_empty());
}

#[test]
fn recompute_filter_matches_substring_case_insensitive() {
    let mut app = sample_app();
    app.input_buffer = "WORLD".into();
    recompute_filter(&mut app);
    assert_eq!(app.filtered_indices, vec![0]);
}

#[test]
fn recompute_filter_no_hits_resets_selection() {
    let mut app = sample_app();
    app.library.push(track("2", "Other", None, 10));
    app.selected_track = 1;
    app.input_buffer = "zzz".into();
    recompute_filter(&mut app);
    assert!(app.filtered_indices.is_empty());
    assert_eq!(app.selected_track, 0);
}

#[test]
fn cycle_repeat_off_to_one() {
    let mut app = sample_app();
    assert_eq!(app.player.repeat, RepeatMode::Off);
    cycle_repeat(&mut app);
    assert_eq!(app.player.repeat, RepeatMode::All);
    cycle_repeat(&mut app);
    assert_eq!(app.player.repeat, RepeatMode::One);
    cycle_repeat(&mut app);
    assert_eq!(app.player.repeat, RepeatMode::Off);
    assert_eq!(app.message.as_deref(), Some("Repeat: off"));
}

#[test]
fn escape_closes_help_then_quits() {
    let mut app = new_app();
    press(&mut app, Key::Char('?'));
    assert!(app.show_help);
    press(&mut app, Key::Esc);
    assert!(!app.show_help);
    assert!(!app.quit);
    press(&mut app, Key::Esc);
    assert!(app.quit);
}

#[test]
fn tab_cycles_panel_focus_in_normal_mode() {
    let mut app = new_app();
    assert_eq!(app.panel_focus, PanelFocus::Normal);
    assert!(!app.is_fullscreen);
    press(&mut app, Key::Tab);
    assert_eq!(app.panel_focus, PanelFocus::TransportOnly);
    assert!(!app.is_fullscreen);
    press(&mut app, Key::Tab);
    assert!(app.is_fullscreen);
    press(&mut app, Key::Tab);
    assert_eq!(app.panel_focus, PanelFocus::Normal);
    assert!(!app.is_fullscreen);
}

#[test]
fn theme_cycle_wraps() {
    let mut theme = resolve_active_theme("synthwave", None);
    let mut keys = Vec::new();
    for _ in 0..5 {
        let (t, key) = cycle_theme(&theme, None);
        theme = t;
        keys.push(key);
    }
    assert_eq!(keys, vec!["dracula", "nord", "tokyo_night", "monochrome", "synthwave"]);
    assert_eq!(normalize_theme_key(&theme.name), "synthwave");
}

#[test]
fn pressing_t_asks_for_a_theme_cycle() {
    let mut app = new_app();
    let effects = press(&mut app, Key::Char('t'));
    assert!(matches!(effects.as_slice(), [Effect::CycleTheme]));
    let (t, key) = cycle_theme(&resolve_active_theme("synthwave", None), None);
    assert_eq!(key, "dracula");
    assert_eq!(t.name, "Dracula");
}

#[test]
fn pressing_s_persists_shuffle() {
    let mut app = new_app();
    let effects = press(&mut app, Key::Char('s'));
    assert!(app.player.shuffle);
    assert_eq!(app.message.as_deref(), Some("Shuffle ON"));
    assert!(matches!(
        effects.as_slice(),
        [Effect::ToastShown, Effect::Persist(ConfigChange::Shuffle(true))]
    ));
}

#[test]
fn pressing_v_persists_visualizer() {
    let mut app = new_app();
    let effects = press(&mut app, Key::Char('v'));
    assert_eq!(app.visualizer_mode, VisualizerMode::Spectrogram);
    assert_eq!(app.visualizer_mode.as_config_str(), "spectrogram");
    assert!(matches!(
        effects.as_slice(),
        [Effect::Persist(ConfigChange::Visualizer(VisualizerMode::Spectrogram))]
    ));
    press_mod(&mut app, Key::Char('v'), true, false);
    assert_eq!(app.visualizer_mode, VisualizerMode::Spectrum);
    press(&mut app, Key::Char('V'));
    assert_eq!(app.visualizer_mode, VisualizerMode::Particles);
}

#[test]
fn digits_pick_visualizers() {
    let mut app = new_app();
    press(&mut app, Key::Char('6'));
    assert_eq!(app.visualizer_mode, VisualizerMode::PulseRings);
    let effects = press(&mut app, Key::Char('9'));
    assert!(effects.is_empty());
    assert_eq!(app.visualizer_mode, VisualizerMode::PulseRings);
}

#[test]
fn pressing_plus_persists_volume() {
    let mut app = new_app();
    let effects = press(&mut app, Key::Char('+'));
    assert!(matches!(
        effects.as_slice(),
        [Effect::VolumeStep(true), Effect::Persist(ConfigChange::Volume)]
    ));
    let effects = press(&mut app, Key::Char('-'));
    assert!(matches!(
        effects.as_slice(),
        [Effect::VolumeStep(false), Effect::Persist(ConfigChange::Volume)]
    ));
}

#[test]
fn pressing_shift_m_persists_spectrogram_mode() {
    let mut app = new_app();
    app.visualizer_mode = VisualizerMode::Spectrogram;
    let effects = press_mod(&mut app, Key::Char('M'), true, false);
    assert_eq!(app.spectrogram_mode, SpectrogramMode::Inverted);
    assert_eq!(app.spectrogram_mode.as_config_str(), "inverted");
    assert_eq!(app.message.as_deref(), Some("Spectrogram: Inverted"));
    assert!(matches!(
        effects.as_slice(),
        [Effect::ToastShown, Effect::Persist(ConfigChange::Spectrogram(SpectrogramMode::Inverted))]
    ));
}

#[test]
fn pressing_g_persists_neon() {
    let mut app = new_app();
    let effects = press(&mut app, Key::Char('g'));
    assert!(!app.neon_enabled);
    assert_eq!(app.message.as_deref(), Some("Neon OFF"));
    assert!(matches!(
        effects.as_slice(),
        [Effect::ToastShown, Effect::Persist(ConfigChange::Neon(false))]
    ));
}

#[test]
fn download_prompt_rejects_invalid_url() {
    let mut app = new_app();
    press(&mut app, Key::Char('d'));
    assert_eq!(app.input_mode, InputMode::DownloadUrl);
    for ch in "ftp://bad.example/x".chars() {
        press(&mut app, Key::Char(ch));
    }
    let effects = press(&mut app, Key::Enter);
    assert_eq!(app.input_mode, InputMode::Normal);
    let url = match effects.as_slice() {
        [Effect::SubmitDownload(u)] => u.clone(),
        _ => panic!("expected a download request"),
    };
    assert_eq!(url, "ftp://bad.example/x");
    let err = validate_url(&url).unwrap_err();
    rtunes::downloads::report_error(&mut app, &err);
    let msg = app.message.clone().expect("toast");
    assert!(
        msg.contains("http") || msg.contains("Download"),
        "unexpected message: {msg}"
    );
}

#[test]
fn shift_m_cycles_spectrogram_mode_only_when_spectrogram_active() {
    let mut app = new_app();
    assert_eq!(app.spectrogram_mode, SpectrogramMode::Standard);
    press_mod(&mut app, Key::Char('M'), true, false);
    assert_eq!(app.spectrogram_mode, SpectrogramMode::Standard);
    app.visualizer_mode = VisualizerMode::Spectrogram;
    press_mod(&mut app, Key::Char('M'), true, false);
    assert_eq!(app.spectrogram_mode, SpectrogramMode::Inverted);
    press_mod(&mut app, Key::Char('M'), true, false);
    assert_eq!(app.spectrogram_mode, SpectrogramMode::Mirrored);
}

#[test]
fn library_manager_remove_names_the_folder() {
    let mut app = new_app();
    app.library_folders = vec![LibraryFolder {
        path: "/music/a".to_string(),
        track_count: 0,
        last_scanned: None,
    }];
    app.show_library_manager = true;
    app.input_mode = InputMode::LibraryManager;
    app.selected_folder = 0;
    let effects = press(&mut app, Key::Char('x'));
    assert!(matches!(effects.as_slice(), [Effect::RemoveFolder(p)] if p == "/music/a"));
    app.library_folders.clear();
    let effects = press(&mut app, Key::Delete);
    assert!(matches!(effects.as_slice(), [Effect::ToastShown]));
    assert_eq!(app.message.as_deref(), Some("No folder selected."));
}

#[test]
fn add_library_path_prompt_hands_on_trimmed_text() {
    let mut app = new_app();
    press(&mut app, Key::Char('a'));
    assert_eq!(app.input_mode, InputMode::AddLibraryPath);
    for ch in "  /nonexistent/rtunes/folder/xyz ".chars() {
        press(&mut app, Key::Char(ch));
    }
    let effects = press(&mut app, Key::Enter);
    assert!(
        matches!(effects.as_slice(), [Effect::AddFolder(p)] if p == "/nonexistent/rtunes/folder/xyz")
    );
    rtunes::library::not_a_directory(&mut app, "/nonexistent/rtunes/folder/xyz");
    assert!(app.message.as_ref().unwrap().contains("Not a directory"));
}

#[test]
fn q_quits_only_in_normal_mode() {
    let mut app = new_app();
    press(&mut app, Key::Char('/'));
    assert_eq!(app.input_mode, InputMode::Search);
    press(&mut app, Key::Char('q'));
    assert!(!app.quit);
    assert_eq!(app.input_buffer, "q");
    press(&mut app, Key::Esc);
    press_mod(&mut app, Key::Char('q'), false, true);
    assert!(!app.quit);
    press(&mut app, Key::Char('q'));
    assert!(app.quit);
}

#[test]
fn f2_opens_settings_and_reset_persists() {
    let mut app = new_app();
    press(&mut app, Key::Char('/'));
    press(&mut app, Key::F(2));
    assert!(app.show_settings);
    assert_eq!(app.input_mode, InputMode::Settings);
    assert_eq!(app.settings_ffmpeg_value, "/usr/bin/ffmpeg");
    assert_eq!(app.settings_download_dir, "~/Music");
    press(&mut app, Key::Down);
    assert_eq!(app.settings_row, SettingsRow::Ffmpeg);
    let effects = press(&mut app, Key::Char('r'));
    assert_eq!(app.settings_ffmpeg_value, "auto");
    assert_eq!(app.message.as_deref(), Some("ffmpeg path reset"));
    assert!(matches!(
        effects.as_slice(),
        [Effect::Persist(ConfigChange::FetcherPathReset(SettingsRow::Ffmpeg)), Effect::ToastShown]
    ));
    press(&mut app, Key::Down);
    let effects = press(&mut app, Key::Enter);
    assert!(matches!(
        effects.as_slice(),
        [Effect::OpenPicker(PickerTarget::DownloadDir, true, v)] if v == "~/Music"
    ));
    press(&mut app, Key::Esc);
    assert!(!app.show_settings);
    assert_eq!(app.input_mode, InputMode::Normal);
}

#[test]
fn next_and_prev_follow_the_list() {
    let mut app = sample_app();
    app.library.push(track("2", "Second", None, 30));
    app.library.push(track("3", "Third", None, 40));
    let effects = press(&mut app, Key::Enter);
    assert_eq!(app.player.current_index, Some(0));
    assert!(app.player.is_playing);
    assert!(matches!(
        effects.as_slice(),
        [Effect::PositionReset, Effect::DurationFromTrack(120)]
    ));
    press(&mut app, Key::Char('n'));
    assert_eq!(app.player.current_index, Some(1));
    press(&mut app, Key::Char('n'));
    press(&mut app, Key::Char('n'));
    assert_eq!(app.player.current_index, Some(0));
    press(&mut app, Key::Char('p'));
    assert_eq!(app.player.current_index, Some(0));
    app.player.repeat = RepeatMode::All;
    press(&mut app, Key::Char('p'));
    assert_eq!(app.player.current_index, Some(2));
    assert_eq!(app.selected_track, 2);
}

#[test]
fn search_filters_while_typing() {
    let mut app = sample_app();
    app.library.push(track("2", "Goodbye", Some("World Band"), 30));
    app.library.push(track("3", "Third", None, 40));
    press(&mut app, Key::Char('/'));
    for ch in "world".chars() {
        press(&mut app, Key::Char(ch));
    }
    assert_eq!(app.filtered_indices, vec![0, 1]);
    press(&mut app, Key::Backspace);
    assert_eq!(app.input_buffer, "worl");
    press(&mut app, Key::Enter);
    assert_eq!(app.search_query.as_deref(), Some("worl"));
    assert_eq!(app.input_mode, InputMode::Normal);
    press(&mut app, Key::Down);
    assert_eq!(app.selected_track, 1);
    press(&mut app, Key::Down);
    assert_eq!(app.selected_track, 1);
}

#[test]
fn missing_tools_prompt_takes_keys_first() {
    let mut app = new_app();
    app.deps_prompt = Some(vec![MissingTool::Ffmpeg]);
    let effects = press(&mut app, Key::Char('q'));
    assert!(app.quit);
    assert!(effects.is_empty());
    let mut app = new_app();
    app.deps_prompt = Some(vec![MissingTool::Ffmpeg]);
    let effects = press(&mut app, Key::Char('v'));
    assert!(effects.is_empty());
    assert_eq!(app.visualizer_mode, VisualizerMode::Spectrum);
    let effects = press(&mut app, Key::Char('Y'));
    assert!(app.deps_prompt.is_none());
    assert_eq!(app.download_stage.as_deref(), Some("Preparing dep download\u{2026}"));
    assert!(matches!(
        effects.as_slice(),
        [Effect::StartDepsDownload(m, None)] if m == &vec![MissingTool::Ffmpeg]
    ));
    app.deps_prompt = Some(vec![MissingTool::YtDlp]);
    press(&mut app, Key::Char('n'));
    assert!(app.deps_prompt.is_none());
    assert_eq!(
        app.message.as_deref(),
        Some("Download cancelled. Install yt-dlp/ffmpeg or use F2 to set paths.")
    );
}

#[test]
fn ctrl_d_asks_for_reconnect_and_ctrl_l_opens_manager() {
    let mut app = new_app();
    let effects = press_mod(&mut app, Key::Char('d'), false, true);
    assert!(app.player.force_reconnect);
    assert!(matches!(effects.as_slice(), [Effect::ToastShown]));
    press_mod(&mut app, Key::Char('l'), false, true);
    assert!(app.show_library_manager);
    assert_eq!(app.input_mode, InputMode::LibraryManager);
    let effects = press_mod(&mut app, Key::Right, true, false);
    assert!(effects.is_empty());
    press(&mut app, Key::Esc);
    let effects = press_mod(&mut app, Key::Right, true, false);
    assert!(matches!(effects.as_slice(), [Effect::SeekBy(30)]));
    let effects = press(&mut app, Key::Char('h'));
    assert!(matches!(effects.as_slice(), [Effect::SeekBy(-5)]));
}

#[test]
fn stepping_back_is_defined_within_one_past_the_list() {
    let mut app = sample_app();
    app.library.push(track("2", "Second", None, 60));
    let p = KeyPress { code: Key::Char('p'), shift: false, ctrl: false };
    let n = KeyPress { code: Key::Char('n'), shift: false, ctrl: false };
    app.selected_track = 2;
    assert!(prev_track_safe(&app));
    assert!(key_acceptable(&app, p));
    app.selected_track = 3;
    assert!(!prev_track_safe(&app));
    assert!(!key_acceptable(&app, p));
    assert!(key_acceptable(&app, n));
    app.player.current_index = Some(1);
    assert!(prev_track_safe(&app));
    app.player.current_index = None;
    app.input_mode = InputMode::Search;
    assert!(key_acceptable(&app, p));
}

#[test]
fn mute_glow_and_shuffle_keys_undo_themselves() {
    let mut app = sample_app();
    let muted = app.player.muted;
    press(&mut app, Key::Char('m'));
    assert_ne!(app.player.muted, muted);
    press(&mut app, Key::Char('m'));
    assert_eq!(app.player.muted, muted);

    let neon = app.neon_enabled;
    press(&mut app, Key::Char('g'));
    assert_ne!(app.neon_enabled, neon);
    let effects = press(&mut app, Key::Char('g'));
    assert_eq!(app.neon_enabled, neon);
    assert!(matches!(effects.as_slice(), [Effect::ToastShown, Effect::Persist(ConfigChange::Neon(n))] if *n == neon));

    let shuffle = app.player.shuffle;
    press(&mut app, Key::Char('s'));
    let effects = press(&mut app, Key::Char('s'));
    assert_eq!(app.player.shuffle, shuffle);
    assert!(matches!(effects.as_slice(), [Effect::ToastShown, Effect::Persist(ConfigChange::Shuffle(s))] if *s == shuffle));
}

#[test]
fn escape_abandons_search_and_prompts() {
    let mut app = sample_app();
    app.library.push(track("2", "Other", None, 10));
    press(&mut app, Key::Char('/'));
    for c in "hello".chars() {
        press(&mut app, Key::Char(c));
    }
    assert_eq!(app.filtered_indices, vec![0]);
    let effects = press(&mut app, Key::Esc);
    assert!(effects.is_empty());
    assert_eq!(app.input_mode, InputMode::Normal);
    assert!(app.filtered_indices.is_empty());
    assert!(app.search_query.is_none());
    assert!(app.input_buffer.is_empty());

    press(&mut app, Key::Char('d'));
    assert_eq!(app.input_mode, InputMode::DownloadUrl);
    press(&mut app, Key::Char('x'));
    let effects = press(&mut app, Key::Esc);
    assert!(effects.is_empty());
    assert_eq!(app.input_mode, InputMode::Normal);
    assert!(app.input_buffer.is_empty());
}

#[test]
fn selected_row_stays_in_the_drawn_window() {
    let mut app = new_app();
    for i in 0..10 {
        app.library.push(track(&format!("{i}"), &format!("T{i}"), None, 61));
    }
    app.selected_track = 7;
    let (rows, total, sel) = rtunes::view::library_window(&app, 3);
    assert_eq!((total, sel), (10, 7));
    let idx: Vec<&str> = rows.iter().map(|r| r.idx_str.as_str()).collect();
    assert_eq!(idx, vec!["006", "007", "008"]);
    assert!(rows[2].is_selected && !rows[0].is_selected);
    assert_eq!(rows[0].duration_str, "1:01");
    app.selected_track = 50;
    let (rows, _, sel) = rtunes::view::library_window(&app, 0);
    assert_eq!(sel, 9);
    assert_eq!(rows.len(), 1);
    assert_eq!(rows[0].title_str, "T9");
}

#[test]
fn consent_hands_on_the_held_download() {
    let mut app = sample_app();
    let url = validate_url("https://example.com/watch?v=1").unwrap();
    let opts = rtunes::fetcher::FetchOpts { format: "mp3".to_string(), output_dir: "/music".to_string() };
    let held = rtunes::downloads::queue_download(&mut app, url, opts, Some(vec![MissingTool::Ffmpeg]));
    assert!(held.is_none());
    let effects = press(&mut app, Key::Char('y'));
    match effects.as_slice() {
        [Effect::StartDepsDownload(missing, Some((u, o)))] => {
            assert_eq!(missing, &vec![MissingTool::Ffmpeg]);
            assert_eq!(u.as_str(), "https://example.com/watch?v=1");
            assert_eq!((o.format.as_str(), o.output_dir.as_str()), ("mp3", "/music"));
        }
        other => panic!("unexpected effects {other:?}"),
    }
    assert!(app.deps_prompt.is_none() && app.pending_fetch.is_none());
}
