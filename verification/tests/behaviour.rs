use rtunes::fetcher::{try_resolve_tools, MissingTool};
use rtunes::player::next_shuffled;
use rtunes::scanner::{clean_filename_title, is_audio_extension};
use rtunes::state::SpectrogramMode;
use rtunes::theme::{resolve_active_theme, synthwave};
use rtunes::view::bin_index;

#[test]
fn shuffle_next_avoids_current() {
    let mut st = 0xACE1u64;
    for _ in 0..50 {
        let n = next_shuffled(&mut st, 3, Some(1)).unwrap();
        assert_ne!(n, 1);
    }
}

#[test]
fn builtin_names_resolve() {
    assert_eq!(resolve_active_theme("synthwave", None).name, "Synthwave");
    assert_eq!(resolve_active_theme("dracula", None).name, "Dracula");
    assert_eq!(resolve_active_theme("nord", None).name, "Nord");
    assert_eq!(
        resolve_active_theme("tokyo_night", None).name,
        "Tokyo Night"
    );
    assert_eq!(resolve_active_theme("monochrome", None).name, "Monochrome");
}

#[test]
fn unknown_theme_falls_back_to_synthwave() {
    let t = resolve_active_theme("no_such_theme", None);
    assert_eq!(t.name, "Synthwave");
}

#[test]
fn custom_overrides_builtin_same_key() {
    let mut custom = Vec::new();
    let mut t = synthwave();
    t.primary = "#010101".into();
    custom.push(("synthwave".to_string(), t.clone()));
    let got = resolve_active_theme("synthwave", Some(&custom));
    assert_eq!(got.primary, "#010101");
}

#[test]
fn try_resolve_tools_reports_missing_when_both_absent() {
    // "/nonexistent/yt-dlp-xyzzy" and "/nonexistent/ffmpeg-xyzzy" resolve to nothing.
    let ytdlp: Option<String> = None;
    let ffmpeg: Option<String> = None;
    let result = try_resolve_tools(ytdlp, ffmpeg);
    assert!(result.is_err());
    let missing = result.unwrap_err();
    assert!(missing.contains(&MissingTool::YtDlp));
    assert!(missing.contains(&MissingTool::Ffmpeg));
}

#[test]
fn clean_filename_strips_yt_dlp_brackets() {
    let stem = "Hans Zimmer - Time (Inception Soundtrack) [1 Hour] [j1M9tZGznx0]";
    let (a, t) = clean_filename_title(stem);
    assert_eq!(a.as_deref(), Some("Hans Zimmer"));
    assert_eq!(t, "Time (Inception Soundtrack)");
}

#[test]
fn clean_filename_keeps_plain_title() {
    let (a, t) = clean_filename_title("weird");
    assert!(a.is_none());
    assert_eq!(t, "weird");
}

#[test]
fn clean_filename_strips_topic_suffix() {
    let (a, t) = clean_filename_title("Artist - Topic - Song");
    assert_eq!(a.as_deref(), Some("Artist"));
    assert_eq!(t, "Song");
}

#[test]
fn extension_filter() {
    assert!(is_audio_extension("mp3"));
    assert!(is_audio_extension("MP3"));
    assert!(!is_audio_extension("txt"));
    assert!(is_audio_extension("flac"));
}

#[test]
fn spectrogram_bin_mapping_modes() {
    assert_eq!(bin_index(0, 10, 64, SpectrogramMode::Standard), 0);
    assert_eq!(bin_index(9, 10, 64, SpectrogramMode::Inverted), 0);
    let m = bin_index(5, 10, 64, SpectrogramMode::Mirrored);
    assert!(m < 64);
}

#[test]
fn vectorscope_mono_vertical_line_centered() {
    let scale = 0.45 * 40.0f32;
    let l = 0.5f32;
    let r = 0.5f32;
    let vx = (l - r) * scale;
    let vy = (l + r) * scale;
    assert!(vx.abs() < 1e-3);
    assert!(vy > 0.0);
}
