use rtunes::state::{RepeatMode, VisualizerMode};
use rtunes::status::{
    now_playing_room, progress_cell, progress_room, status_items, status_layout, ProgressCell,
    StatusItem,
};

fn texts(items: &[StatusItem]) -> Vec<(String, bool)> {
    items.iter().map(|i| (i.text.clone(), i.accent)).collect()
}

#[test]
fn status_labels_in_display_order() {
    let items = status_items(VisualizerMode::Spectrum, "synthwave", 10, 2, 65, 3600, false, 70, true, RepeatMode::One, true);
    let expect: Vec<(String, bool)> = vec![
        ("spectrum".into(), true),
        ("synthwave".into(), true),
        ("3/10".into(), false),
        ("1:05/1:00:00".into(), false),
        ("70%".into(), false),
        ("SHUF".into(), true),
        ("REP\u{b9}".into(), true),
        ("NEON".into(), true),
    ];
    assert_eq!(texts(&items), expect);
}

#[test]
fn status_labels_when_empty_and_muted() {
    let items = status_items(VisualizerMode::BandMeter, "nord", 0, 0, 0, 0, true, 40, false, RepeatMode::Off, false);
    let got = texts(&items);
    assert_eq!(got.len(), 7);
    assert_eq!(got[0], ("band_meter".to_string(), true));
    assert_eq!(got[2], ("\u{2014}/\u{2014}".to_string(), false));
    assert_eq!(got[3], ("0:00/0:00".to_string(), false));
    assert_eq!(got[4], ("MUTED".to_string(), false));
    assert_eq!(got[5], ("shuf".to_string(), false));
    assert_eq!(got[6], ("rep".to_string(), false));
}

#[test]
fn status_strip_drops_labels_that_do_not_fit() {
    let items = status_items(VisualizerMode::Spectrum, "synthwave", 10, 2, 65, 3600, false, 70, true, RepeatMode::One, true);
    let (shown, title) = status_layout(&items, "\u{266a} Song \u{2014} Artist", 40);
    assert_eq!(shown, 1);
    assert_eq!(title, "\u{266a} Song \u{2014} Artist ");
    let (shown, title) = status_layout(&items, "Song", 10);
    assert_eq!(shown, 0);
    assert_eq!(title, "");
    let (shown, _) = status_layout(&items, "Song", 500);
    assert_eq!(shown, 8);
}

#[test]
fn status_title_is_cut_when_too_long() {
    let (shown, title) = status_layout(&Vec::new(), "abcdefghijklmnopqrstuvwxyz", 30);
    assert_eq!(shown, 0);
    assert_eq!(title, "abcdefghijklmnopq\u{2026}");
}

#[test]
fn transport_row_widths() {
    assert_eq!(now_playing_room(40, "Album"), 32);
    assert_eq!(now_playing_room(10, "Album"), 8);
    assert_eq!(progress_room(40, "1:05", "3:20"), 26);
    assert_eq!(progress_room(5, "1:05", "3:20"), 0);
}

#[test]
fn progress_cells() {
    assert_eq!(progress_cell(3, 3, 10), ProgressCell::Head);
    assert_eq!(progress_cell(2, 3, 10), ProgressCell::Filled);
    assert_eq!(progress_cell(5, 3, 10), ProgressCell::Empty);
    assert_eq!(progress_cell(9, 10, 10), ProgressCell::Filled);
    assert_eq!(progress_cell(0, 0, 10), ProgressCell::Empty);
}
