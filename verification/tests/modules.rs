use rtunes::cli::{
    apply_binary_overrides, consent_given, download_output_dir, entry_to_remove,
    library_list_line, scan_summary, tool_list, Cli,
};
use rtunes::config::{
    apply_session_options, merge_tui_options, pool_size, resolved_config_path, AppSettings,
    FetcherSettings, ThemeSettings, VisualizerSettings,
};
use rtunes::downloads::{
    apply_picker_result, download_failed, download_finished, queue_download, report_error,
    show_stage,
};
use rtunes::error::RtunesError;
use rtunes::events::AppState;
use rtunes::fetcher::{
    download_percent_token, executable_name_candidates, failure_message, ffmpeg_archive,
    parse_destination, validate_url, ytdlp_download_url, FetchOpts, MissingTool, MockFetcher,
    PickerEvent, PickerTarget, Platform,
};
use rtunes::library::{
    admit_folder, apply_scan_done, count_under, plan_rescan, recompute_folder_counts,
    removed_message, retain_other_folders, sync_library_folders_from_config, RescanStart,
};
use rtunes::paths::{components, expand_path, path_starts_with, relative_path_problem};
use rtunes::player::{
    advance_after_track_end, reconnect_tick, seed_xorshift, track_to_load, xorshift64star,
    AdvanceAction,
};
use rtunes::scanner::{dedupe_paths, track_fields, TagFields};
use rtunes::state::{track_id_for_path, LibraryFolder, RepeatMode, SpectrogramMode, Track, VisualizerMode};
use rtunes::text::{decimal, is_whitespace};
use rtunes::theme::normalize_theme_key;
use rtunes::view::{
    announce_device_change, bars_for_width, bin_index, fmt_duration, frame_period_ms,
    library_view_height, library_window, now_playing, take_deferred_rescan, toast_expired,
    truncate_to_width,
};

fn app_settings(paths: Vec<&str>) -> AppSettings {
    AppSettings {
        library_paths: paths.into_iter().map(|p| p.to_string()).collect(),
        download_dir: "~".to_string(),
        fps: 60,
        default_visualizer: "Pulse-Rings".to_string(),
        start_fullscreen: true,
        log_level: "warn".to_string(),
        repeat: " ALL ".to_string(),
        shuffle: true,
        neon: false,
        spectrogram_mode: "mirrored".to_string(),
    }
}

fn fetcher_settings() -> FetcherSettings {
    FetcherSettings {
        ytdlp_path: "auto".to_string(),
        ffmpeg_path: "auto".to_string(),
        default_format: "mp3".to_string(),
        max_concurrent: 0,
    }
}

fn track(id: &str, path: &str, title: &str, secs: u64) -> Track {
    Track {
        id: id.to_string(),
        filepath: path.to_string(),
        title: title.to_string(),
        artist: None,
        album: Some(String::new()),
        duration_secs: secs,
    }
}

fn app() -> AppState {
    AppState::new(&app_settings(vec!["/music", "/other"]), &fetcher_settings())
}

#[test]
fn new_state_follows_the_config() {
    let a = app();
    assert_eq!(a.visualizer_mode, VisualizerMode::PulseRings);
    assert!(a.is_fullscreen);
    assert!(a.player.shuffle);
    assert_eq!(a.player.repeat, RepeatMode::All);
    assert!(!a.neon_enabled);
    assert_eq!(a.spectrogram_mode, SpectrogramMode::Mirrored);
    assert_eq!(a.library_folders.len(), 2);
    assert_eq!(a.library_folders[0].path, "/music");
    assert_eq!(a.settings_download_dir, "~");
    let mut s = app_settings(vec![]);
    s.default_visualizer = "nonsense".to_string();
    let b = AppState::new(&s, &fetcher_settings());
    assert_eq!(b.visualizer_mode, VisualizerMode::Spectrum);
}

#[test]
fn config_defaults_and_choices() {
    assert_eq!(rtunes::config::default_repeat_str(), "off");
    assert!(rtunes::config::default_neon());
    assert_eq!(rtunes::config::default_spectrogram_mode_str(), "standard");
    assert_eq!(rtunes::config::default_pcm_snapshot_samples(), 1024);
    assert_eq!(rtunes::config::default_spectrogram_history_rows(), 64);
    let v = VisualizerSettings::default();
    assert_eq!((v.particles_substeps, v.particles_max), (1, 250));
    assert_eq!(resolved_config_path(Some("/etc/r.yaml"), "/home/config.yaml"), "/etc/r.yaml");
    assert_eq!(resolved_config_path(None, "/home/config.yaml"), "/home/config.yaml");
    assert_eq!(pool_size(0), 1);
    assert_eq!(pool_size(3), 3);
    let (t, f, fs) = merge_tui_options(None, Some(45), false, Some("nord".into()), Some(50), true);
    assert_eq!(t.as_deref(), Some("nord"));
    assert_eq!(f, Some(45));
    assert!(fs);
    let mut s = app_settings(vec![]);
    let mut th = ThemeSettings { active: "synthwave".into(), custom: None };
    apply_session_options(&mut s, &mut th, Some("dracula".into()), Some(200), false);
    assert_eq!(th.active, "dracula");
    assert_eq!(s.fps, 60);
    apply_session_options(&mut s, &mut th, None, Some(10), false);
    assert_eq!(s.fps, 30);
    assert!(s.start_fullscreen);
}

#[test]
fn cli_helpers() {
    assert!(consent_given(""));
    assert!(consent_given("  Yes "));
    assert!(consent_given("Y"));
    assert!(!consent_given("no"));
    assert_eq!(tool_list(&vec![MissingTool::YtDlp, MissingTool::Ffmpeg]), "yt-dlp and ffmpeg");
    assert_eq!(tool_list(&vec![MissingTool::Ffmpeg]), "ffmpeg");
    let canon = vec![None, Some("/a".to_string()), Some("/b".to_string())];
    let expanded = vec!["x".to_string(), "/a".to_string(), "/b".to_string()];
    assert_eq!(entry_to_remove(&canon, Some("/b"), &expanded, "/b"), Some(2));
    assert_eq!(entry_to_remove(&canon, None, &expanded, "x"), Some(0));
    assert_eq!(entry_to_remove(&canon, Some("/c"), &expanded, "/c"), None);
    assert_eq!(download_output_dir(None, &vec!["/lib".to_string()], "/dl".into()), "/lib");
    assert_eq!(download_output_dir(None, &vec![], "/dl".into()), "/dl");
    assert_eq!(download_output_dir(Some("/o".into()), &vec![], "/dl".into()), "/o");
    assert_eq!(scan_summary(2, 10), "Scanned 2 folders. Found 10 tracks.");
    assert_eq!(library_list_line(0, "/music", 3), "  1. /music (3 tracks)");
    let cli = Cli {
        config: None,
        log_level: None,
        theme: None,
        fps: None,
        fullscreen: false,
        ytdlp_path: Some("/opt/yt-dlp".into()),
        ffmpeg_path: None,
        command: None,
    };
    let mut f = fetcher_settings();
    apply_binary_overrides(&cli, &mut f);
    assert_eq!(f.ytdlp_path, "/opt/yt-dlp");
    assert_eq!(f.ffmpeg_path, "auto");
}

#[test]
fn folder_counts_and_rescans() {
    let mut a = app();
    a.library = vec![
        track("1", "/music/a.mp3", "A", 1),
        track("2", "/music/sub/b.mp3", "B", 2),
        track("3", "/musical/c.mp3", "C", 3),
    ];
    assert_eq!(count_under(&a.library, "/music"), 2);
    recompute_folder_counts(&mut a, 77);
    assert_eq!(a.library_folders[0].track_count, 2);
    assert_eq!(a.library_folders[1].track_count, 0);
    assert_eq!(a.library_folders[0].last_scanned, Some(77));

    a.player.current_index = Some(1);
    assert!(matches!(plan_rescan(&mut a, true, 2), RescanStart::Busy));
    assert!(a.rescan_pending);
    assert!(matches!(plan_rescan(&mut a, false, 0), RescanStart::NoFolders));
    assert_eq!(a.message.as_deref(), Some("No library folders to scan."));
    let id = match plan_rescan(&mut a, false, 2) {
        RescanStart::Start(id) => id,
        _ => panic!("expected a start"),
    };
    assert_eq!(id.as_deref(), Some("2"));
    let tracks = vec![track("9", "/music/z.mp3", "Z", 1), track("2", "/music/sub/b.mp3", "B", 2)];
    apply_scan_done(&mut a, tracks, id, 99);
    assert_eq!(a.player.current_index, Some(1));
    assert_eq!(a.message.as_deref(), Some("Rescan complete. Found 2 tracks."));
    assert!(!a.is_rescanning);
    apply_scan_done(&mut a, vec![], Some("2".into()), 100);
    assert_eq!(a.player.current_index, None);
}

#[test]
fn folders_from_config_keep_selection_in_range() {
    let mut a = app();
    a.selected_folder = 5;
    sync_library_folders_from_config(&mut a, &vec!["/x".to_string()]);
    assert_eq!(a.library_folders.len(), 1);
    assert_eq!(a.selected_folder, 0);
    assert_eq!(a.library_folders[0].track_count, 0);
}

#[test]
fn adding_and_removing_folders() {
    let mut a = app();
    let mut paths = vec!["~/Music".to_string()];
    let canon = vec![Some("/home/u/Music".to_string())];
    assert!(!admit_folder(&mut a, "/home/u/Music", &canon, &mut paths));
    assert_eq!(a.message.as_deref(), Some("Folder already in library."));
    assert!(admit_folder(&mut a, "/data", &canon, &mut paths));
    assert_eq!(paths, vec!["~/Music".to_string(), "/data".to_string()]);
    let canon2 = vec![Some("/home/u/Music".to_string()), Some("/data".to_string())];
    assert!(retain_other_folders(&mut paths, &canon2, "/data"));
    assert_eq!(paths, vec!["~/Music".to_string()]);
    assert!(!retain_other_folders(&mut paths, &vec![None], "/data"));
    assert_eq!(removed_message(0, "/data"), "All library folders removed. Press 'a' to add a new one.");
    assert_eq!(removed_message(1, "/data"), "Removed: /data");
}

#[test]
fn downloads_update_the_state() {
    let mut a = app();
    let url = validate_url("https://example.com/watch?v=1").unwrap();
    let opts = FetchOpts { format: "mp3".into(), output_dir: "/dl".into() };
    let r = queue_download(&mut a, url, opts, Some(vec![MissingTool::YtDlp]));
    assert!(r.is_none());
    assert!(a.pending_fetch.is_some());
    assert_eq!(a.deps_prompt, Some(vec![MissingTool::YtDlp]));
    let url = validate_url("http://example.com/a").unwrap();
    let opts = FetchOpts { format: "mp3".into(), output_dir: "/dl".into() };
    let r = queue_download(&mut a, url, opts, None);
    assert!(r.is_some());
    assert_eq!(a.download_stage.as_deref(), Some("Starting\u{2026}"));
    let long = "x".repeat(80);
    show_stage(&mut a, &long);
    assert_eq!(a.download_stage.as_ref().unwrap().chars().count(), 73);
    show_stage(&mut a, "[download] 5%");
    assert_eq!(a.download_stage.as_deref(), Some("[download] 5%"));
    download_finished(&mut a, "song");
    assert_eq!(a.download_stage, None);
    assert_eq!(a.message.as_deref(), Some("New track found: song"));
    download_failed(&mut a, "boom".into());
    assert_eq!(a.message.as_deref(), Some("boom"));
    report_error(&mut a, &RtunesError::Fetcher("x".into()));
    assert_eq!(a.message.as_deref(), Some("Download failed: x"));
}

#[test]
fn picked_paths_are_shown() {
    let mut a = app();
    let none = apply_picker_result(&mut a, PickerEvent { target: PickerTarget::Ffmpeg, path: None });
    assert!(none.is_none());
    let got = apply_picker_result(
        &mut a,
        PickerEvent { target: PickerTarget::DownloadDir, path: Some("/dl".into()) },
    );
    assert!(matches!(got, Some((PickerTarget::DownloadDir, ref p)) if p == "/dl"));
    assert_eq!(a.settings_download_dir, "/dl");
    assert_eq!(a.message.as_deref(), Some("Download dir path saved"));
}

#[test]
fn error_messages_per_variant() {
    assert_eq!(RtunesError::Config("c".into()).message(), "Config error: c");
    assert_eq!(RtunesError::Audio("a".into()).message(), "Audio playback error: a");
    assert_eq!(RtunesError::Visualizer("v".into()).message(), "FFT processing error: v");
    assert_eq!(RtunesError::Fetcher("f".into()).message(), "Download failed: f");
    let io = RtunesError::Io(std::io::Error::other("disk"));
    assert_eq!(io.message(), "IO error: disk");
}

#[test]
fn url_validation() {
    assert!(validate_url("https://www.youtube.com/watch?v=abc&list=xyz").is_ok());
    assert!(validate_url("  http://a.com/x  ").is_ok());
    let e = validate_url("ftp://example.com/x").unwrap_err();
    assert_eq!(e.message(), "Download failed: only http(s) URLs are allowed");
    assert!(validate_url("file:///etc/passwd").is_err());
    let e = validate_url("https://a.com/x;rm -rf").unwrap_err();
    assert_eq!(e.message(), "Download failed: URL contains forbidden characters (; or |)");
    assert!(validate_url("https://a.com/x|evil").is_err());
    assert!(matches!(validate_url("not a url"), Err(RtunesError::Fetcher(_))));
}

#[test]
fn ytdlp_output_parsing() {
    assert_eq!(
        parse_destination("[ExtractAudio] Destination: \"/tmp/a b.mp3\"").as_deref(),
        Some("/tmp/a b.mp3")
    );
    assert_eq!(parse_destination("[download] Destination: x.webm").as_deref(), Some("x.webm"));
    assert_eq!(parse_destination("nothing"), None);
    assert_eq!(
        download_percent_token("[download]  42.5% of 3.00MiB at 1MiB/s").as_deref(),
        Some("42.5")
    );
    assert_eq!(download_percent_token("[info] 50%"), None);
    assert_eq!(download_percent_token("[download] no percent"), None);
    assert_eq!(failure_message("exit status: 1", "  \n"), "yt-dlp exited with exit status: 1");
    assert_eq!(
        failure_message("exit status: 2", "ERROR: boom\n"),
        "yt-dlp failed (exit status: 2): ERROR: boom"
    );
    let long = "e".repeat(900);
    assert_eq!(failure_message("s", &long).len(), "yt-dlp failed (s): ".len() + 800);
}

#[test]
fn tool_names_and_downloads() {
    assert_eq!(executable_name_candidates("yt-dlp", Platform::Windows), vec!["yt-dlp.exe", "yt-dlp.cmd", "yt-dlp"]);
    assert_eq!(executable_name_candidates("tool.EXE", Platform::Windows), vec!["tool.EXE"]);
    assert_eq!(executable_name_candidates("yt-dlp", Platform::MacOs), vec!["yt-dlp", "yt-dlp_macos"]);
    assert_eq!(executable_name_candidates("ffmpeg", Platform::Linux), vec!["ffmpeg"]);
    assert_eq!(
        ytdlp_download_url(Platform::Linux),
        "https://github.com/yt-dlp/yt-dlp/releases/latest/download/yt-dlp_linux"
    );
    assert!(ffmpeg_archive(Platform::MacOs).is_none());
    let (url, name) = ffmpeg_archive(Platform::LinuxArm64).unwrap();
    assert_eq!(name, "ffmpeg-master-latest-linuxarm64-gpl.tar.xz");
    assert!(url.ends_with(&name));
    let m = MockFetcher;
    assert_eq!(m.track_name(Some("stub")), "stub");
    assert_eq!(m.track_name(Some("a b?c")), "abc");
    assert_eq!(m.track_name(Some("")), "mock_track");
    assert_eq!(m.track_name(Some("???")), "mock_track");
    assert_eq!(m.track_name(None), "mock_track");
    assert_eq!(m.track_name(Some(&"x".repeat(100))).len(), 64);
}

#[test]
fn paths_compare_by_component() {
    assert!(path_starts_with("/music/a.mp3", "/music"));
    assert!(path_starts_with("/music/a.mp3", "/music/"));
    assert!(path_starts_with("/music//sub/./a.mp3", "/music/sub"));
    assert!(!path_starts_with("/musical/a.mp3", "/music"));
    assert!(!path_starts_with("music/a.mp3", "/music"));
    assert!(path_starts_with("./a/b", "./a"));
    assert_eq!(components("/a//b/./c/"), vec![vec!['/'], vec!['a'], vec!['b'], vec!['c']]);
    assert_eq!(relative_path_problem("sub/x.txt"), None);
    assert_eq!(relative_path_problem("/etc/passwd"), Some("path must be relative to the trusted root"));
    assert_eq!(
        relative_path_problem("../etc/passwd"),
        Some("path must not contain parent-dir (..) components")
    );
    assert_eq!(expand_path("/abs/path"), "/abs/path");
    assert_eq!(expand_path("~other/x"), "~other/x");
    let home = expand_path("~/Music");
    assert!(home.ends_with("/Music"));
    assert!(!home.starts_with('~'), "the home directory replaces the tilde");
}

#[test]
fn player_decisions() {
    let mut s = 1u64;
    let a = xorshift64star(&mut s);
    let mut t = 1u64;
    assert_eq!(xorshift64star(&mut t), a);
    assert_eq!(s, t);
    assert_ne!(seed_xorshift(0), 0);
    let mut rng = 7u64;
    assert_eq!(advance_after_track_end(&mut rng, RepeatMode::One, false, Some(0), 3), AdvanceAction::Restart);
    assert_eq!(advance_after_track_end(&mut rng, RepeatMode::Off, false, Some(2), 3), AdvanceAction::Stop);
    assert_eq!(advance_after_track_end(&mut rng, RepeatMode::Off, false, Some(0), 3), AdvanceAction::Play(1));
    assert_eq!(advance_after_track_end(&mut rng, RepeatMode::All, false, Some(2), 3), AdvanceAction::Play(0));
    assert_eq!(advance_after_track_end(&mut rng, RepeatMode::All, false, Some(0), 1), AdvanceAction::Restart);
    match advance_after_track_end(&mut rng, RepeatMode::Off, true, Some(1), 3) {
        AdvanceAction::Play(i) => assert!(i != 1 && i < 3),
        other => panic!("unexpected {other:?}"),
    }
    assert_eq!(reconnect_tick(0, false), (0, false));
    assert_eq!(reconnect_tick(10, true), (11, false));
    assert_eq!(reconnect_tick(199, true), (0, true));
    assert_eq!(track_to_load(3, Some(1), None), Some(1));
    assert_eq!(track_to_load(3, Some(1), Some(1)), None);
    assert_eq!(track_to_load(1, Some(1), None), None);
}

#[test]
fn scanning_helpers() {
    let v = vec!["/b".to_string(), "/a".to_string(), "/b".to_string(), "/a".to_string(), "/c".to_string()];
    assert_eq!(dedupe_paths(&v), vec!["/b".to_string(), "/a".to_string(), "/c".to_string()]);
    let (t, a, al) = track_fields("Artist - Song", None);
    assert_eq!((t.as_str(), a.as_deref(), al), ("Song", Some("Artist"), None));
    let tag = TagFields { title: Some("Real".into()), artist: None, album: Some("LP".into()) };
    let (t, a, al) = track_fields("Artist - Song", Some(tag));
    assert_eq!((t.as_str(), a, al.as_deref()), ("Real", None, Some("LP")));
    let tag = TagFields { title: Some(String::new()), artist: None, album: None };
    let (t, a, _) = track_fields("Artist - Song", Some(tag));
    assert_eq!((t.as_str(), a.as_deref()), ("Song", Some("Artist")));
    let id = track_id_for_path("abc");
    assert_eq!(id, "ba7816bf8f01cfea414140de5dae2223b00361a396177a9cb410ff61f20015ad");
    assert_eq!(track_id_for_path("/music/a.mp3").len(), 64);
}

#[test]
fn screen_text() {
    assert_eq!(fmt_duration(0), "0:00");
    assert_eq!(fmt_duration(65), "1:05");
    assert_eq!(fmt_duration(3725), "1:02:05");
    assert_eq!(truncate_to_width("hello", 5), "hello");
    assert_eq!(truncate_to_width("hello world", 5), "hell\u{2026}");
    assert_eq!(truncate_to_width("hello", 0), "\u{2026}");
    assert_eq!(bars_for_width(59), 32);
    assert_eq!(bars_for_width(60), 48);
    assert_eq!(bars_for_width(120), 64);
    assert_eq!(frame_period_ms(60), 16);
    assert_eq!(frame_period_ms(0), 1000);
    assert_eq!(frame_period_ms(200), 8);
    assert_eq!(library_view_height(24), 15);
    assert_eq!(library_view_height(10), 4);
    assert!(toast_expired(5001));
    assert!(!toast_expired(5000));
    assert_eq!(bin_index(9, 10, 64, SpectrogramMode::Standard), 57);
    assert_eq!(bin_index(0, 10, 64, SpectrogramMode::Mirrored), 32);
    assert_eq!(bin_index(0, 1, 64, SpectrogramMode::Mirrored), 0);
    assert_eq!(bin_index(3, 0, 64, SpectrogramMode::Standard), 0);
    assert_eq!(decimal(1234567890), "1234567890");
}

#[test]
fn library_card_window() {
    let mut a = app();
    for i in 0..20u64 {
        a.library.push(track(&i.to_string(), "/m/x.mp3", &format!("T{i}"), 61));
    }
    a.selected_track = 15;
    a.player.current_index = Some(14);
    let (rows, total, sel) = library_window(&a, 5);
    assert_eq!((total, sel), (20, 15));
    assert_eq!(rows.len(), 5);
    assert_eq!(rows[0].idx_str, "012");
    assert_eq!(rows[4].idx_str, "016");
    assert!(rows[4].is_selected);
    assert!(rows[3].is_playing);
    assert_eq!(rows[0].duration_str, "1:01");
    let (np, album) = now_playing(&a);
    assert_eq!(np, "\u{266a} T14 \u{2014} Unknown");
    assert_eq!(album, "\u{2014}");
    a.player.current_index = None;
    assert_eq!(now_playing(&a).0, "\u{2014} nothing playing \u{2014}");
}

#[test]
fn frame_bookkeeping() {
    let mut a = app();
    a.player.silent_mode = true;
    assert!(announce_device_change(&mut a, false));
    assert_eq!(a.message.as_deref(), Some("Audio device lost. Press Ctrl+D to reconnect."));
    a.player.silent_mode = false;
    assert!(announce_device_change(&mut a, true));
    assert_eq!(a.message.as_deref(), Some("Audio device reconnected."));
    assert!(!announce_device_change(&mut a, false));
    a.rescan_pending = true;
    assert!(!take_deferred_rescan(&mut a, false));
    assert!(take_deferred_rescan(&mut a, true));
    assert!(!a.rescan_pending);
}

#[test]
fn whitespace_matches_std() {
    for u in 0u32..0x11_0000 {
        if let Some(c) = char::from_u32(u) {
            assert_eq!(is_whitespace(c), c.is_whitespace(), "{u:x}");
        }
    }
}

#[test]
fn lowercase_and_theme_keys() {
    assert_eq!(normalize_theme_key("SynthWave"), "synthwave");
    assert_eq!(rtunes::cli::consent_given(" YES "), true);
    assert_eq!(normalize_theme_key("  Tokyo Night "), "tokyo_night");
    assert_eq!(normalize_theme_key("tokyo-night"), "tokyo_night");
    assert_eq!(VisualizerMode::from_str("band-meter").unwrap(), VisualizerMode::BandMeter);
    assert_eq!(VisualizerMode::from_str("x").unwrap_err(), "unknown visualizer: x");
    assert_eq!(RepeatMode::from_config_str("ONE"), RepeatMode::One);
    assert_eq!(SpectrogramMode::from_config_str("weird"), SpectrogramMode::Standard);
    let f = LibraryFolder { path: "/m".into(), track_count: 0, last_scanned: None };
    assert_eq!(f.path, "/m");
}

#[test]
fn download_folder_coverage() {
    let canon = vec![Some("/music".to_string()), None, Some("/data/audio".to_string())];
    assert!(rtunes::library::download_dir_covered(&canon, "/music/new"));
    assert!(rtunes::library::download_dir_covered(&canon, "/data/audio"));
    assert!(!rtunes::library::download_dir_covered(&canon, "/musical"));
    assert!(!rtunes::library::download_dir_covered(&Vec::new(), "/music"));
}

#[test]
fn saved_changes_write_config_spellings() {
    let mut a = app_settings(vec!["/music"]);
    let mut f = fetcher_settings();
    rtunes::config::save_change(&mut a, &mut f, rtunes::events::ConfigChange::Visualizer(VisualizerMode::PulseRings));
    assert_eq!(a.default_visualizer, "pulse_rings");
    rtunes::config::save_change(&mut a, &mut f, rtunes::events::ConfigChange::Repeat(RepeatMode::One));
    assert_eq!(a.repeat, "one");
    rtunes::config::save_change(&mut a, &mut f, rtunes::events::ConfigChange::Spectrogram(SpectrogramMode::Mirrored));
    assert_eq!(a.spectrogram_mode, "mirrored");
    rtunes::config::save_change(&mut a, &mut f, rtunes::events::ConfigChange::Shuffle(true));
    assert!(a.shuffle);
    rtunes::config::save_change(&mut a, &mut f, rtunes::events::ConfigChange::Neon(false));
    assert!(!a.neon);
    f.ytdlp_path = "/opt/yt-dlp".to_string();
    rtunes::config::save_change(&mut a, &mut f, rtunes::events::ConfigChange::FetcherPathReset(rtunes::state::SettingsRow::YtDlp));
    assert_eq!(f.ytdlp_path, "auto");
    a.download_dir = "/data".to_string();
    rtunes::config::save_change(&mut a, &mut f, rtunes::events::ConfigChange::FetcherPathReset(rtunes::state::SettingsRow::DownloadDir));
    assert_eq!(a.download_dir, "~");
    let before = a.default_visualizer.clone();
    rtunes::config::save_change(&mut a, &mut f, rtunes::events::ConfigChange::Volume);
    assert_eq!(a.default_visualizer, before);
    assert_eq!(a.library_paths, vec!["/music".to_string()]);
}

#[test]
fn player_defaults_to_stopped() {
    let p = rtunes::events::PlayerState::default();
    assert!(!p.is_playing && !p.muted && !p.shuffle && !p.force_reconnect && !p.silent_mode);
    assert_eq!(p.current_index, None);
    assert_eq!(p.repeat, RepeatMode::Off);
}

#[test]
fn download_queue_runs_at_most_the_limit_in_order() {
    let mut q = rtunes::pool::JobQueue::new(2);
    assert_eq!(q.submit("a"), Some("a"));
    assert_eq!(q.submit("b"), Some("b"));
    assert_eq!(q.submit("c"), None);
    assert_eq!(q.submit("d"), None);
    assert_eq!(q.finish(), Some("c"));
    assert_eq!(q.finish(), Some("d"));
    assert_eq!(q.finish(), None);
    assert_eq!(q.finish(), None);
    assert_eq!(q.submit("e"), Some("e"));
    let mut one = rtunes::pool::JobQueue::new(0);
    assert_eq!(one.submit(1), Some(1));
    assert_eq!(one.submit(2), None);
    assert_eq!(one.finish(), Some(2));
}

#[test]
fn validated_url_is_the_trimmed_text_parsed() {
    let url = validate_url("  https://a.com/x ").unwrap();
    assert_eq!(url, url::Url::parse("https://a.com/x").unwrap());
    assert_eq!(url.as_str(), "https://a.com/x");
}

#[test]
fn track_id_is_lowercase_hex_of_the_digest() {
    let id = track_id_for_path("/music/a.mp3");
    assert_eq!(id.len(), 64);
    assert!(id.chars().all(|c| c.is_ascii_digit() || ('a'..='f').contains(&c)));
    assert_eq!(id, track_id_for_path("/music/a.mp3"));
    assert_ne!(id, track_id_for_path("/music/b.mp3"));
    assert_eq!(
        track_id_for_path("abc"),
        "ba7816bf8f01cfea414140de5dae2223b00361a396177a9cb410ff61f20015ad"
    );
}

#[test]
fn normalizing_a_theme_key_twice_changes_nothing() {
    for s in ["  Tokyo-Night ", "Synthwave", "my theme", "\tA-b C\n", ""] {
        let once = normalize_theme_key(s);
        assert_eq!(normalize_theme_key(&once), once);
    }
    assert_eq!(normalize_theme_key("  Tokyo-Night "), "tokyo_night");
}

#[test]
fn builtin_theme_names_normalize_to_their_keys() {
    let themes = rtunes::theme::builtin_themes();
    assert_eq!(themes.len(), 5);
    for (key, theme) in themes.iter() {
        assert_eq!(&normalize_theme_key(&theme.name), key);
        assert_eq!(rtunes::theme::resolve_active_theme(key, None).name, theme.name);
    }
}

#[test]
fn config_spellings_lowercase_ascii() {
    assert_eq!(RepeatMode::from_config_str(" ALL "), RepeatMode::All);
    assert_eq!(SpectrogramMode::from_config_str("Mirrored"), SpectrogramMode::Mirrored);
    assert_eq!(VisualizerMode::from_str("SPECTRUM").unwrap(), VisualizerMode::Spectrum);
}

#[test]
fn refused_url_reports_the_parser_description() {
    let err = validate_url("  not a url ").unwrap_err();
    let expected = url::Url::parse("not a url").unwrap_err().to_string();
    assert!(matches!(err, RtunesError::Fetcher(ref m) if *m == expected));
}

#[test]
fn custom_theme_table_is_a_map() {
    let mut a = rtunes::theme::dracula();
    a.primary = "#0a0a0a".into();
    let mut b = rtunes::theme::nord();
    b.primary = "#0b0b0b".into();
    let table = vec![("mine".to_string(), a.clone()), ("tokyo_night".to_string(), b.clone())];
    assert!(rtunes::theme::has_distinct_keys(&table));
    assert_eq!(rtunes::theme::resolve_active_theme("Tokyo Night", Some(&table)).primary, "#0b0b0b");
    assert_eq!(rtunes::theme::resolve_active_theme(" MINE ", Some(&table)).primary, "#0a0a0a");
    let repeated = vec![("mine".to_string(), a), ("mine".to_string(), b)];
    assert!(!rtunes::theme::has_distinct_keys(&repeated));
    assert!(rtunes::theme::has_distinct_keys(&Vec::new()));
}
