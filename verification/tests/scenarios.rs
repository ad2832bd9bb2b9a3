use rtunes::config::{AppSettings, FetcherSettings};
use rtunes::dispatch::dispatch_key;
use rtunes::events::{AppState, ConfigPaths, Effect, Key, KeyPress};
use rtunes::fetcher::validate_url;
use rtunes::player::{advance_after_track_end, AdvanceAction};
use rtunes::state::{track_id_for_path, InputMode, RepeatMode, Track};
use rtunes::theme::{cycle_theme, resolve_active_theme};

fn default_settings() -> AppSettings {
    AppSettings {
        library_paths: Vec::new(),
        download_dir: "~".to_string(),
        fps: 60,
        default_visualizer: "spectrum".to_string(),
        start_fullscreen: false,
        log_level: "warn".to_string(),
        repeat: "off".to_string(),
        shuffle: false,
        neon: true,
        spectrogram_mode: "standard".to_string(),
    }
}

fn default_fetcher() -> FetcherSettings {
    FetcherSettings {
        ytdlp_path: "auto".to_string(),
        ffmpeg_path: "auto".to_string(),
        default_format: "mp3".to_string(),
        max_concurrent: 3,
    }
}

fn cfg_paths() -> ConfigPaths {
    ConfigPaths { ytdlp_path: "auto".to_string(), ffmpeg_path: "auto".to_string(), download_dir: "~".to_string() }
}

fn key(app: &mut AppState, code: Key) -> Vec<Effect> {
    dispatch_key(app, KeyPress { code, shift: false, ctrl: false }, &cfg_paths())
}

/// The volume steps a key press asks for, applied as the player applies them.
fn apply(effects: Vec<Effect>, volume: &mut f32) {
    for e in effects {
        if let Effect::VolumeStep(up) = e {
            *volume = (*volume + if up { 0.05 } else { -0.05 }).clamp(0.0, 1.0);
        }
    }
}

fn track(id: &str, path: &str, title: &str) -> Track {
    Track {
        id: id.to_string(),
        filepath: path.to_string(),
        title: title.to_string(),
        artist: None,
        album: None,
        duration_secs: 1,
    }
}

#[test]
fn volume_plus_minus_and_theme_key() {
    let settings = default_settings();
    let mut app = AppState::new(&settings, &default_fetcher());
    let mut volume: f32 = 0.5;
    apply(key(&mut app, Key::Char('+')), &mut volume);
    assert!(volume > 0.5, "volume should increase");
    apply(key(&mut app, Key::Char('-')), &mut volume);
    assert!(volume <= 0.5, "volume should decrease");

    let theme = resolve_active_theme("synthwave", None);
    let before = theme.name.clone();
    let effects = key(&mut app, Key::Char('t'));
    assert!(matches!(effects.as_slice(), [Effect::CycleTheme]));
    let (next, _) = cycle_theme(&theme, None);
    assert_ne!(before, next.name, "theme should change on 't'");
}

#[test]
fn search_slash_type_enter_filters() {
    let mut app = AppState::new(&default_settings(), &default_fetcher());
    app.library.push(track("x", "a.mp3", "UniqueZebraTitle"));
    key(&mut app, Key::Char('/'));
    assert_eq!(app.input_mode, InputMode::Search);
    for ch in "Zebra".chars() {
        key(&mut app, Key::Char(ch));
    }
    key(&mut app, Key::Enter);
    assert_eq!(app.input_mode, InputMode::Normal);
    assert_eq!(app.filtered_indices.len(), 1);
}

#[test]
fn space_toggles_play_flag_when_track_selected() {
    let mut app = AppState::new(&default_settings(), &default_fetcher());
    app.library.push(track("y", "b.mp3", "T"));
    app.player.current_index = Some(0);
    app.player.is_playing = false;
    key(&mut app, Key::Char(' '));
    assert!(app.player.is_playing);
    key(&mut app, Key::Char(' '));
    assert!(!app.player.is_playing);
}

#[test]
fn n_key_advances_selection_with_library() {
    let mut app = AppState::new(&default_settings(), &default_fetcher());
    for i in 0..2 {
        app.library.push(track(&format!("{i}"), &format!("{i}.mp3"), &format!("Track{i}")));
    }
    app.player.current_index = Some(0);
    app.selected_track = 0;
    key(&mut app, Key::Char('n'));
    assert_eq!(app.player.current_index, Some(1));
}

#[test]
fn auto_advance_repeat_off_stops_at_last() {
    let mut rng: u64 = 1;
    let action = advance_after_track_end(&mut rng, RepeatMode::Off, false, Some(1), 2);
    assert_eq!(action, AdvanceAction::Stop);
}

#[test]
fn auto_advance_repeat_all_wraps() {
    let mut rng: u64 = 1;
    let action = advance_after_track_end(&mut rng, RepeatMode::All, false, Some(1), 2);
    assert_eq!(action, AdvanceAction::Play(0));
}

#[test]
fn auto_advance_repeat_one_reseeks() {
    let mut rng: u64 = 1;
    let action = advance_after_track_end(&mut rng, RepeatMode::One, false, Some(0), 2);
    assert_eq!(action, AdvanceAction::Restart);
}

#[test]
fn track_id_stable_for_same_file() {
    let p = "/tmp/rtunes-track/fixture.mp3";
    let id1 = track_id_for_path(p);
    let id2 = track_id_for_path(p);
    assert_eq!(id1, id2);
    assert_eq!(id1.len(), 64);
}

#[test]
fn validate_url_accepts_https_with_query() {
    let u = validate_url("https://www.youtube.com/watch?v=abc&list=xyz").unwrap();
    assert_eq!(u.scheme(), "https");
}

#[test]
fn validate_url_accepts_youtube_with_amp_query() {
    let u = validate_url("https://www.youtube.com/watch?v=abc&list=def").unwrap();
    assert_eq!(u.query_pairs().count(), 2);
    assert_eq!(u.scheme(), "https");
}

#[test]
fn validate_url_rejects_ftp() {
    assert!(validate_url("ftp://example.com/x").is_err());
}

#[test]
fn validate_url_rejects_file_scheme() {
    assert!(validate_url("file:///etc/passwd").is_err());
}

#[test]
fn validate_url_rejects_semicolon() {
    assert!(validate_url("https://a.com/x;rm -rf").is_err());
}

#[test]
fn validate_url_rejects_pipe() {
    assert!(validate_url("https://a.com/x|evil").is_err());
}
