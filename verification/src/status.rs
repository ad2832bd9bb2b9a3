//! The one-line status strip at the top of the screen: the labels on its right, how many of
//! them fit, and the title squeezed into what is left.

use vstd::prelude::*;

use vstd::string::StringSliceAdditionalSpecFns;

use crate::state::{spec_visualizer_name, RepeatMode, VisualizerMode};
use crate::text::{chars_of, decimal, push_char, spec_decimal, string_of};
use crate::view::{fmt_duration, spec_fmt_duration, spec_truncate_to_width, truncate_to_width};

verus! {

/// One label on the right of the status strip; accented labels are highlighted.
#[derive(Debug, Clone)]
pub struct StatusItem {
    pub text: String,
    pub accent: bool,
}

/// The labels as (characters, accent) pairs.
pub open spec fn items_view(items: Seq<StatusItem>) -> Seq<(Seq<char>, bool)> {
    items.map_values(|i: StatusItem| (i.text@, i.accent))
}

pub open spec fn spec_repeat_label(r: RepeatMode) -> Seq<char> {
    match r {
        RepeatMode::Off => "rep"@,
        RepeatMode::All => "REP"@,
        RepeatMode::One => "REP\u{b9}"@,
    }
}

pub open spec fn spec_shuffle_label(on: bool) -> Seq<char> {
    if on {
        "SHUF"@
    } else {
        "shuf"@
    }
}

/// `n + 1`, staying at the largest `usize`.
pub open spec fn spec_saturating_inc(n: usize) -> nat {
    if n < usize::MAX {
        (n + 1) as nat
    } else {
        n as nat
    }
}

/// `row/total` (row counted from one), or `—/—` when nothing is listed.
pub open spec fn spec_list_counter(total: usize, selected: usize) -> Seq<char> {
    if total > 0 {
        spec_decimal(spec_saturating_inc(selected)) + "/"@ + spec_decimal(total as nat)
    } else {
        "\u{2014}/\u{2014}"@
    }
}

/// `MUTED`, or the volume in percent.
pub open spec fn spec_volume_label(muted: bool, percent: u32) -> Seq<char> {
    if muted {
        "MUTED"@
    } else {
        spec_decimal(percent as nat) + "%"@
    }
}

/// The right-hand labels in display order: visualizer, theme, list position, time, volume,
/// shuffle, repeat, and `NEON` when the glow is on. They are shown from the first one on;
/// when space runs out, the later ones are left off.
pub open spec fn spec_status_items(
    viz: VisualizerMode,
    theme_key: Seq<char>,
    total: usize,
    selected: usize,
    pos: u64,
    dur: u64,
    muted: bool,
    volume_percent: u32,
    shuffle: bool,
    repeat: RepeatMode,
    neon: bool,
) -> Seq<(Seq<char>, bool)> {
    seq![
        (spec_visualizer_name(viz), true),
        (theme_key, true),
        (spec_list_counter(total, selected), false),
        (spec_fmt_duration(pos as nat) + "/"@ + spec_fmt_duration(dur as nat), false),
        (spec_volume_label(muted, volume_percent), false),
        (spec_shuffle_label(shuffle), shuffle),
        (spec_repeat_label(repeat), repeat != RepeatMode::Off),
    ] + if neon {
        seq![("NEON"@, true)]
    } else {
        Seq::empty()
    }
}

fn item(text: String, accent: bool) -> (r: StatusItem)
    ensures
        r.text@ == text@,
        r.accent == accent,
{
    StatusItem { text, accent }
}

fn list_counter(total: usize, selected: usize) -> (r: String)
    ensures
        r@ == spec_list_counter(total, selected),
{
    if total > 0 {
        let row: u64 = if selected < usize::MAX {
            (selected + 1) as u64
        } else {
            selected as u64
        };
        decimal(row).concat("/").concat(decimal(total as u64).as_str())
    } else {
        String::from_str("\u{2014}/\u{2014}")
    }
}

/// The right-hand labels of the status strip.
pub fn status_items(
    viz: VisualizerMode,
    theme_key: &str,
    total: usize,
    selected: usize,
    pos: u64,
    dur: u64,
    muted: bool,
    volume_percent: u32,
    shuffle: bool,
    repeat: RepeatMode,
    neon: bool,
) -> (r: Vec<StatusItem>)
    ensures
        items_view(r@) == spec_status_items(
            viz,
            theme_key@,
            total,
            selected,
            pos,
            dur,
            muted,
            volume_percent,
            shuffle,
            repeat,
            neon,
        ),
{
    let mut r: Vec<StatusItem> = Vec::new();
    r.push(item(String::from_str(viz.as_config_str()), true));
    r.push(item(String::from_str(theme_key), true));
    r.push(item(list_counter(total, selected), false));
    r.push(item(fmt_duration(pos).concat("/").concat(fmt_duration(dur).as_str()), false));
    let vol = if muted {
        String::from_str("MUTED")
    } else {
        decimal(volume_percent as u64).concat("%")
    };
    r.push(item(vol, false));
    let shuf = if shuffle {
        String::from_str("SHUF")
    } else {
        String::from_str("shuf")
    };
    r.push(item(shuf, shuffle));
    let rep = match repeat {
        RepeatMode::Off => String::from_str("rep"),
        RepeatMode::All => String::from_str("REP"),
        RepeatMode::One => String::from_str("REP\u{b9}"),
    };
    r.push(item(rep, repeat != RepeatMode::Off));
    if neon {
        r.push(item(String::from_str("NEON"), true));
    }
    assert(items_view(r@) =~= spec_status_items(
        viz,
        theme_key@,
        total,
        selected,
        pos,
        dur,
        muted,
        volume_percent,
        shuffle,
        repeat,
        neon,
    ));
    r
}

/// The UTF-8 length of a text: widths on the strip are counted in bytes.
pub open spec fn spec_byte_len(s: Seq<char>) -> nat {
    vstd::utf8::encode_utf8(s).len()
}

/// The room one label takes: the separator ` · ` (four bytes) and its text.
pub open spec fn spec_item_width(s: Seq<char>) -> nat {
    4 + spec_byte_len(s)
}

/// The room the first `k` labels take.
pub open spec fn spec_prefix_width(items: Seq<(Seq<char>, bool)>, k: nat) -> nat
    decreases k,
{
    if k == 0 {
        0
    } else {
        spec_prefix_width(items, (k - 1) as nat) + spec_item_width(items[k - 1].0)
    }
}

/// `k` is how many leading labels fit in `budget`: they fit, and one more would not.
pub open spec fn spec_fits(items: Seq<(Seq<char>, bool)>, budget: nat, k: nat) -> bool {
    &&& k <= items.len()
    &&& spec_prefix_width(items, k) <= budget
    &&& k < items.len() ==> spec_prefix_width(items, k + 1) > budget
}

/// `n` spaces.
pub open spec fn spec_spaces(n: nat) -> Seq<char> {
    Seq::new(n, |i: int| ' ')
}

/// The title in exactly `budget` characters: padded with spaces when shorter, cut with `…`
/// when longer; nothing when either is empty.
pub open spec fn spec_fit_title(title: Seq<char>, budget: nat) -> Seq<char> {
    if title.len() == 0 || budget == 0 {
        Seq::empty()
    } else if title.len() <= budget {
        title + spec_spaces((budget - title.len()) as nat)
    } else {
        spec_truncate_to_width(title, budget)
    }
}

/// `a - b`, or zero.
pub open spec fn spec_sat_sub(a: nat, b: nat) -> nat {
    if a >= b {
        (a - b) as nat
    } else {
        0
    }
}

/// Room for the labels in a strip `width` bytes wide: what is left after the ` RTUNES `
/// badge and its separator (12 bytes), keeping 8 for the title.
pub open spec fn spec_label_budget(width: nat) -> nat {
    spec_sat_sub(spec_sat_sub(width, 12), 8)
}

/// The status strip for a terminal `width` wide: how many labels are shown (from the
/// first), and the title text that fills the room between the badge and the labels.
pub open spec fn spec_status_layout(items: Seq<(Seq<char>, bool)>, title: Seq<char>, width: nat, k: nat) -> Seq<char> {
    spec_fit_title(title, spec_sat_sub(spec_sat_sub(width, 12), spec_prefix_width(items, k)))
}

fn byte_len(s: &String) -> (r: usize)
    ensures
        r == spec_byte_len(s@),
{
    s.as_str().as_bytes().len()
}

/// Lay out the status strip: how many of `items` are shown, and the title text.
pub fn status_layout(items: &Vec<StatusItem>, title: &str, width: usize) -> (r: (usize, String))
    ensures
        spec_fits(items_view(items@), spec_label_budget(width as nat), r.0 as nat),
        r.1@ == spec_status_layout(items_view(items@), title@, width as nat, r.0 as nat),
{
    let ghost iv = items_view(items@);
    let available: usize = if width >= 12 {
        width - 12
    } else {
        0
    };
    let budget: usize = if available >= 8 {
        available - 8
    } else {
        0
    };
    let mut used: usize = 0;
    let mut k: usize = 0;
    while k < items.len()
        invariant_except_break
            k <= items@.len(),
            iv == items_view(items@),
            used as nat == spec_prefix_width(iv, k as nat),
            used <= budget,
        ensures
            k <= items@.len(),
            used as nat == spec_prefix_width(iv, k as nat),
            used <= budget,
            k < items@.len() ==> spec_prefix_width(iv, (k + 1) as nat) > budget,
        decreases items.len() - k,
    {
        let blen = byte_len(&items[k].text);
        assert(iv[k as int].0 == items@[k as int].text@);
        let rem = budget - used;
        if blen > rem || rem - blen < 4 {
            break;
        }
        used = used + 4 + blen;
        k = k + 1;
    }
    let title_budget = available - used;
    let t = chars_of(title);
    let shown = if t.len() == 0 || title_budget == 0 {
        String::new()
    } else if t.len() <= title_budget {
        let mut s = string_of(&t);
        let pad = title_budget - t.len();
        let mut i: usize = 0;
        while i < pad
            invariant
                i <= pad,
                s@ == t@ + spec_spaces(i as nat),
            decreases pad - i,
        {
            push_char(&mut s, ' ');
            assert(s@ =~= t@ + spec_spaces((i + 1) as nat));
            i = i + 1;
        }
        s
    } else {
        truncate_to_width(title, title_budget)
    };
    (k, shown)
}


/// `max(w - (album + 3), 8)` with the subtraction stopping at zero.
pub open spec fn spec_now_playing_room(w: nat, album_len: nat) -> nat {
    let room = spec_sat_sub(w, album_len + 3);
    if room >= 8 {
        room
    } else {
        8
    }
}

/// Characters the now-playing text may take on a transport row `w` wide, beside the album
/// and its ` · ` separator; never fewer than eight.
pub fn now_playing_room(w: usize, album: &str) -> (r: usize)
    ensures
        r == spec_now_playing_room(w as nat, album@.len()),
{
    let a = album.unicode_len();
    let room = if w >= a && w - a >= 3 {
        w - a - 3
    } else {
        0
    };
    if room >= 8 {
        room
    } else {
        8
    }
}

/// Cells between the progress bar's brackets on a row `w` wide, after ` left ▏` and
/// `▕ right ` (six characters besides the two times).
pub open spec fn spec_progress_room(w: nat, left_len: nat, right_len: nat) -> nat {
    spec_sat_sub(w, 6 + left_len + right_len)
}

pub fn progress_room(w: usize, left: &str, right: &str) -> (r: usize)
    ensures
        r == spec_progress_room(w as nat, left@.len(), right@.len()),
{
    let l = left.unicode_len();
    let rr = right.unicode_len();
    if w >= 6 && w - 6 >= l && w - 6 - l >= rr {
        w - 6 - l - rr
    } else {
        0
    }
}

/// What one cell of the progress bar shows.
#[derive(Debug, Clone, Copy, PartialEq, Eq, Structural)]
pub enum ProgressCell {
    /// Played: a gradient block.
    Filled,
    /// The playhead, inside a partly filled bar.
    Head,
    /// Not yet played.
    Empty,
}

pub open spec fn spec_progress_cell(i: nat, fill: nat, inner: nat) -> ProgressCell {
    if fill > 0 && fill < inner && i == fill {
        ProgressCell::Head
    } else if i < fill {
        ProgressCell::Filled
    } else {
        ProgressCell::Empty
    }
}

/// Cell `i` of a bar with `inner` cells of which `fill` are played.
pub fn progress_cell(i: usize, fill: usize, inner: usize) -> (r: ProgressCell)
    ensures
        r == spec_progress_cell(i as nat, fill as nat, inner as nat),
{
    if fill > 0 && fill < inner && i == fill {
        ProgressCell::Head
    } else if i < fill {
        ProgressCell::Filled
    } else {
        ProgressCell::Empty
    }
}

} // verus!
