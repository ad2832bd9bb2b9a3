//! What the screen shows, as text and numbers: durations, truncated labels, the visible
//! window of the library list, the now-playing lines and the per-frame bookkeeping of the
//! terminal loop.

use vstd::prelude::*;

use crate::events::{spec_visible, AppModel, AppState};
use crate::state::{SpectrogramMode, TrackModel};
use crate::text::{chars_of, decimal, push_char, spec_decimal, string_of};

verus! {

// ---------------------------------------------------------------------------------------
// Durations and labels
// ---------------------------------------------------------------------------------------

/// Two-digit zero-padded decimal for `n < 100`.
pub open spec fn spec_two_digits(n: nat) -> Seq<char> {
    if n < 10 {
        seq!['0'] + spec_decimal(n)
    } else {
        spec_decimal(n)
    }
}

/// `h:mm:ss` when there are hours, else `m:ss`.
pub open spec fn spec_fmt_duration(s: nat) -> Seq<char> {
    let h = s / 3600;
    let m = (s % 3600) / 60;
    let sec = s % 60;
    if h > 0 {
        spec_decimal(h) + ":"@ + spec_two_digits(m) + ":"@ + spec_two_digits(sec)
    } else {
        spec_decimal(m) + ":"@ + spec_two_digits(sec)
    }
}

fn two_digits(n: u64) -> (r: String)
    requires
        n < 100,
    ensures
        r@ == spec_two_digits(n as nat),
{
    if n < 10 {
        let mut s = String::new();
        push_char(&mut s, '0');
        let d = decimal(n);
        let r = s.concat(d.as_str());
        assert(r@ =~= seq!['0'] + spec_decimal(n as nat));
        r
    } else {
        decimal(n)
    }
}

/// A whole number of seconds as `m:ss` or `h:mm:ss`.
pub fn fmt_duration(secs: u64) -> (r: String)
    ensures
        r@ == spec_fmt_duration(secs as nat),
{
    let h = secs / 3600;
    let m = (secs % 3600) / 60;
    let sec = secs % 60;
    if h > 0 {
        let r = decimal(h).concat(":").concat(two_digits(m).as_str()).concat(":").concat(
            two_digits(sec).as_str(),
        );
        r
    } else {
        decimal(m).concat(":").concat(two_digits(sec).as_str())
    }
}

/// Text of at most `max` characters: longer text keeps its first `max - 1` characters and
/// ends in `…`.
pub open spec fn spec_truncate_to_width(s: Seq<char>, max: nat) -> Seq<char> {
    if s.len() <= max {
        s
    } else {
        let take: int = if max > 0 {
            max - 1
        } else {
            0
        };
        s.subrange(0, take).push('\u{2026}')
    }
}

/// Shorten `s` to `max_chars` characters, marking the cut with `…`.
pub fn truncate_to_width(s: &str, max_chars: usize) -> (r: String)
    ensures
        r@ == spec_truncate_to_width(s@, max_chars as nat),
{
    let v = chars_of(s);
    if v.len() <= max_chars {
        return string_of(&v);
    }
    let take = if max_chars > 0 {
        max_chars - 1
    } else {
        0
    };
    let mut head: Vec<char> = Vec::new();
    let mut i: usize = 0;
    while i < take
        invariant
            i <= take < v@.len(),
            head@ == v@.subrange(0, i as int),
        decreases take - i,
    {
        head.push(v[i]);
        assert(head@ =~= v@.subrange(0, i + 1));
        i = i + 1;
    }
    let mut r = string_of(&head);
    push_char(&mut r, '\u{2026}');
    r
}

/// The spectrum bar count for a terminal width: 32, 48 or 64.
pub fn bars_for_width(w: u16) -> (r: usize)
    ensures
        r == (if w < 60 {
            32usize
        } else if w < 120 {
            48usize
        } else {
            64usize
        }),
{
    if w < 60 {
        32
    } else if w < 120 {
        48
    } else {
        64
    }
}

/// The renderer used before a visualizer has been chosen: it draws nothing.
#[derive(Debug, Clone, Copy)]
pub struct NoopVisualizer;

/// The spectrogram bin shown in column `x` of `w` columns over `n` bins: left to right
/// (Standard), right to left (Inverted), or by distance from the centre column over half the
/// bins (Mirrored, rounded down), always below `n`.
pub open spec fn spec_bin_index(x: nat, w: nat, n: nat, mode: SpectrogramMode) -> nat {
    if w == 0 || n == 0 {
        0
    } else {
        let raw: nat = match mode {
            SpectrogramMode::Standard => x * n / w,
            SpectrogramMode::Inverted => ((w - 1 - x) as nat) * n / w,
            SpectrogramMode::Mirrored => {
                let d: nat = if 2 * x >= w - 1 {
                    (2 * x - (w - 1)) as nat
                } else {
                    ((w - 1) - 2 * x) as nat
                };
                let half: nat = if n / 2 >= 1 {
                    n / 2
                } else {
                    1
                };
                let den: nat = if w >= 2 {
                    (w - 1) as nat
                } else {
                    1
                };
                d * half / den
            },
        };
        if raw < n {
            raw
        } else {
            (n - 1) as nat
        }
    }
}

/// Which frequency bin a spectrogram column shows.
pub fn bin_index(x: u16, w: u16, n: usize, mode: SpectrogramMode) -> (r: usize)
    requires
        mode == SpectrogramMode::Inverted && w > 0 ==> x < w,
    ensures
        r == spec_bin_index(x as nat, w as nat, n as nat, mode),
        w > 0 && n > 0 ==> r < n,
{
    if w == 0 || n == 0 {
        return 0;
    }
    let xx = x as u128;
    let ww = w as u128;
    let nn = n as u128;
    let raw: u128 = match mode {
        SpectrogramMode::Standard => {
            assert(xx * nn <= 65535 * 0x1_0000_0000_0000_0000) by (nonlinear_arith)
                requires
                    xx <= 65535,
                    nn < 0x1_0000_0000_0000_0000,
            ;
            xx * nn / ww
        },
        SpectrogramMode::Inverted => {
            let k = ww - 1 - xx;
            assert(k * nn <= 65535 * 0x1_0000_0000_0000_0000) by (nonlinear_arith)
                requires
                    k <= 65535,
                    nn < 0x1_0000_0000_0000_0000,
            ;
            k * nn / ww
        },
        SpectrogramMode::Mirrored => {
            let d: u128 = if 2 * xx >= ww - 1 {
                2 * xx - (ww - 1)
            } else {
                (ww - 1) - 2 * xx
            };
            let half: u128 = if nn / 2 >= 1 {
                nn / 2
            } else {
                1
            };
            let den: u128 = if ww >= 2 {
                ww - 1
            } else {
                1
            };
            assert(d * half <= 131070 * 0x1_0000_0000_0000_0000) by (nonlinear_arith)
                requires
                    d <= 131070,
                    half < 0x1_0000_0000_0000_0000,
            ;
            d * half / den
        },
    };
    if raw < nn {
        raw as usize
    } else {
        n - 1
    }
}

// ---------------------------------------------------------------------------------------
// Library list window
// ---------------------------------------------------------------------------------------

/// One row in the library card.
#[derive(Debug, Clone)]
pub struct LibraryRowSnap {
    pub idx_str: String,
    pub title_str: String,
    pub duration_str: String,
    pub is_selected: bool,
    pub is_playing: bool,
}

/// [`LibraryRowSnap`] with its text as characters.
pub struct RowModel {
    pub idx_str: Seq<char>,
    pub title_str: Seq<char>,
    pub duration_str: Seq<char>,
    pub is_selected: bool,
    pub is_playing: bool,
}

impl View for LibraryRowSnap {
    type V = RowModel;

    open spec fn view(&self) -> RowModel {
        RowModel {
            idx_str: self.idx_str@,
            title_str: self.title_str@,
            duration_str: self.duration_str@,
            is_selected: self.is_selected,
            is_playing: self.is_playing,
        }
    }
}

/// At least three digits, zero-padded.
pub open spec fn spec_three_digits(n: nat) -> Seq<char> {
    if n < 10 {
        "00"@ + spec_decimal(n)
    } else if n < 100 {
        seq!['0'] + spec_decimal(n)
    } else {
        spec_decimal(n)
    }
}

/// Row count of the list.
pub open spec fn spec_total(m: AppModel) -> nat {
    spec_visible(m).len()
}

/// The selected row, kept inside the list.
pub open spec fn spec_window_selection(m: AppModel) -> nat {
    let total = spec_total(m);
    let last: nat = if total > 0 {
        (total - 1) as nat
    } else {
        0
    };
    if m.selected_track < last {
        m.selected_track as nat
    } else {
        last
    }
}

/// First row shown: the window ends at the selection when it would not fit.
pub open spec fn spec_window_start(m: AppModel, height: nat) -> nat {
    let h: nat = if height > 0 {
        height
    } else {
        1
    };
    let sel = spec_window_selection(m);
    if sel >= h - 1 {
        (sel - (h - 1)) as nat
    } else {
        0
    }
}

/// One past the last row shown.
pub open spec fn spec_window_end(m: AppModel, height: nat) -> nat {
    let h: nat = if height > 0 {
        height
    } else {
        1
    };
    let e = spec_window_start(m, height) + h;
    if e < spec_total(m) {
        e
    } else {
        spec_total(m)
    }
}

/// The snapshot of list row `row`, showing library entry `t`.
pub open spec fn spec_row(m: AppModel, row: nat, t: TrackModel) -> RowModel {
    RowModel {
        idx_str: spec_three_digits(row + 1),
        title_str: t.title,
        duration_str: spec_fmt_duration(t.duration_secs as nat),
        is_selected: row == spec_window_selection(m),
        is_playing: m.player.current_index == Some(spec_visible(m)[row as int]),
    }
}

/// The shown rows in `[start, upto)` whose library entry exists.
pub open spec fn spec_rows(m: AppModel, start: nat, upto: nat) -> Seq<RowModel>
    decreases upto,
{
    if upto <= start {
        Seq::empty()
    } else {
        let r = spec_rows(m, start, (upto - 1) as nat);
        let idx = spec_visible(m)[upto - 1];
        if idx < m.library.len() {
            r.push(spec_row(m, (upto - 1) as nat, m.library[idx as int]))
        } else {
            r
        }
    }
}

/// The library card for a list `height` rows tall: the rows shown, the row count and the
/// selected row.
pub open spec fn spec_library_window(m: AppModel, height: nat) -> (Seq<RowModel>, nat, nat) {
    (
        spec_rows(m, spec_window_start(m, height), spec_window_end(m, height)),
        spec_total(m),
        spec_window_selection(m),
    )
}

fn three_digits(n: u64) -> (r: String)
    ensures
        r@ == spec_three_digits(n as nat),
{
    let d = decimal(n);
    if n < 10 {
        let r = String::from_str("00").concat(d.as_str());
        r
    } else if n < 100 {
        let mut s = String::new();
        push_char(&mut s, '0');
        let r = s.concat(d.as_str());
        assert(r@ =~= seq!['0'] + spec_decimal(n as nat));
        r
    } else {
        d
    }
}

/// The rows of the library card, the row count and the selected row.
pub fn library_window(app: &AppState, height: usize) -> (r: (Vec<LibraryRowSnap>, usize, usize))
    ensures
        r.0@.map_values(|s: LibraryRowSnap| s@) == spec_library_window(app@, height as nat).0,
        r.1 == spec_library_window(app@, height as nat).1,
        r.2 == spec_library_window(app@, height as nat).2,
{
    let ghost m = app@;
    let filtered = app.filtered_indices.len() > 0;
    let total = if filtered {
        app.filtered_indices.len()
    } else {
        app.library.len()
    };
    assert(total == spec_total(m));
    let last = if total > 0 {
        total - 1
    } else {
        0
    };
    let sel = if app.selected_track < last {
        app.selected_track
    } else {
        last
    };
    let h = if height > 0 {
        height
    } else {
        1
    };
    let start = if sel >= h - 1 {
        sel - (h - 1)
    } else {
        0
    };
    let end = if h <= total && start <= total - h {
        start + h
    } else {
        total
    };
    assert(end == spec_window_end(m, height as nat));
    let mut rows: Vec<LibraryRowSnap> = Vec::new();
    let mut row: usize = start;
    while row < end
        invariant
            start <= row <= end <= total,
            m == app@,
            total == spec_total(m),
            filtered == (app.filtered_indices@.len() > 0),
            sel == spec_window_selection(m),
            start == spec_window_start(m, height as nat),
            rows@.map_values(|s: LibraryRowSnap| s@) == spec_rows(m, start as nat, row as nat),
        decreases end - row,
    {
        let idx = if filtered {
            app.filtered_indices[row]
        } else {
            row
        };
        assert(idx == spec_visible(m)[row as int]);
        if idx < app.library.len() {
            let t = &app.library[idx];
            assert(m.library[idx as int] == t@);
            let snap = LibraryRowSnap {
                idx_str: three_digits((row + 1) as u64),
                title_str: t.title.clone(),
                duration_str: fmt_duration(t.duration_secs),
                is_selected: row == sel,
                is_playing: app.player.current_index == Some(idx),
            };
            let ghost before = rows@.map_values(|s: LibraryRowSnap| s@);
            let ghost sv = snap@;
            rows.push(snap);
            assert(rows@.map_values(|s: LibraryRowSnap| s@) =~= before.push(sv));
        }
        row = row + 1;
    }
    (rows, total, sel)
}

/// The now-playing line (`♪ Title — Artist`) and the album line of the transport.
pub open spec fn spec_now_playing(m: AppModel) -> (Seq<char>, Seq<char>) {
    match m.player.current_index {
        Some(i) if i < m.library.len() => {
            let t = m.library[i as int];
            let artist = match t.artist {
                Some(a) => a,
                None => "Unknown"@,
            };
            let album = match t.album {
                Some(a) => if a.len() > 0 {
                    a
                } else {
                    "\u{2014}"@
                },
                None => "\u{2014}"@,
            };
            ("\u{266a} "@ + t.title + " \u{2014} "@ + artist, album)
        },
        _ => ("\u{2014} nothing playing \u{2014}"@, "\u{2014}"@),
    }
}

/// The now-playing and album lines for the transport and status strip.
pub fn now_playing(app: &AppState) -> (r: (String, String))
    ensures
        r.0@ == spec_now_playing(app@).0,
        r.1@ == spec_now_playing(app@).1,
{
    match app.player.current_index {
        Some(i) => if i < app.library.len() {
            let t = &app.library[i];
            let artist = match &t.artist {
                Some(a) => a.clone(),
                None => String::from_str("Unknown"),
            };
            let album = match &t.album {
                Some(a) => if a.unicode_len() > 0 {
                    a.clone()
                } else {
                    String::from_str("\u{2014}")
                },
                None => String::from_str("\u{2014}"),
            };
            let line = String::from_str("\u{266a} ").concat(t.title.as_str()).concat(
                " \u{2014} ",
            ).concat(artist.as_str());
            (line, album)
        } else {
            (String::from_str("\u{2014} nothing playing \u{2014}"), String::from_str("\u{2014}"))
        },
        None => (
            String::from_str("\u{2014} nothing playing \u{2014}"),
            String::from_str("\u{2014}"),
        ),
    }
}

// ---------------------------------------------------------------------------------------
// Terminal loop bookkeeping
// ---------------------------------------------------------------------------------------

/// Milliseconds per frame for a frame rate (clamped to 1–120).
pub fn frame_period_ms(fps: u8) -> (r: u64)
    ensures
        r == 1000int / (if fps < 1 {
            1int
        } else if fps > 120 {
            120int
        } else {
            fps as int
        }),
{
    let f: u64 = if fps < 1 {
        1
    } else if fps > 120 {
        120
    } else {
        fps as u64
    };
    1000 / f
}

/// Rows available to the library list in a terminal `term_height` rows tall (status strip,
/// borders and transport take the rest; at least four).
pub fn library_view_height(term_height: usize) -> (r: usize)
    ensures
        r == (if term_height >= 9 && term_height - 9 >= 4 {
            term_height - 9
        } else {
            4
        }),
{
    let body = if term_height >= 5 {
        term_height - 5
    } else {
        0
    };
    let h = if body >= 4 {
        body - 4
    } else {
        0
    };
    if h >= 4 {
        h
    } else {
        4
    }
}

/// A toast is dismissed after five seconds.
pub fn toast_expired(elapsed_ms: u64) -> (r: bool)
    ensures
        r == (elapsed_ms > 5000),
{
    elapsed_ms > 5000
}

/// Announce audio-device transitions: losing the device (`was_silent` false, now silent) or
/// getting it back. Returns whether a toast was set.
pub fn announce_device_change(app: &mut AppState, was_silent: bool) -> (r: bool)
    ensures
        r == (old(app).player.silent_mode != was_silent),
        old(app)@.player.silent_mode && !was_silent ==> final(app)@ == (AppModel {
            message: Some("Audio device lost. Press Ctrl+D to reconnect."@),
            ..old(app)@
        }),
        !old(app)@.player.silent_mode && was_silent ==> final(app)@ == (AppModel {
            message: Some("Audio device reconnected."@),
            ..old(app)@
        }),
        old(app)@.player.silent_mode == was_silent ==> final(app)@ == old(app)@,
{
    if app.player.silent_mode && !was_silent {
        set_toast(app, String::from_str("Audio device lost. Press Ctrl+D to reconnect."));
        true
    } else if !app.player.silent_mode && was_silent {
        set_toast(app, String::from_str("Audio device reconnected."));
        true
    } else {
        false
    }
}

fn set_toast(app: &mut AppState, msg: String)
    ensures
        final(app)@ == (AppModel { message: Some(msg@), ..old(app)@ }),
{
    app.message = Some(msg);
}

fn clear_pending(app: &mut AppState)
    ensures
        final(app)@ == (AppModel { rescan_pending: false, ..old(app)@ }),
{
    app.rescan_pending = false;
}

/// A rescan asked for while another ran is due once that one finished (`was_rescanning`
/// and no longer rescanning); the request is then consumed.
pub fn take_deferred_rescan(app: &mut AppState, was_rescanning: bool) -> (r: bool)
    ensures
        r == (was_rescanning && !old(app)@.is_rescanning && old(app)@.rescan_pending),
        r ==> final(app)@ == (AppModel { rescan_pending: false, ..old(app)@ }),
        !r ==> final(app)@ == old(app)@,
{
    if was_rescanning && !app.is_rescanning && app.rescan_pending {
        clear_pending(app);
        true
    } else {
        false
    }
}

/// Dismiss the toast.
pub fn clear_toast(app: &mut AppState)
    ensures
        final(app)@ == (AppModel { message: None, ..old(app)@ }),
{
    app.message = None;
}

} // verus!
