//! Library scanning rules: which files count as audio, how a filename stem becomes an
//! artist/title pair, how scanned paths are deduplicated, and the events a background
//! scan reports.

use vstd::prelude::*;

use crate::state::Track;
use crate::text::{
    ascii_lower_chars, chars_eq_str, chars_of, find_chars, replace_chars, spec_ascii_lower,
    spec_contains, spec_is_first_match, spec_matches_at, spec_replace, spec_trim, string_of,
    sub_chars, trim_chars,
};

verus! {

/// Recognized audio file extensions (lowercase, no leading dot).
pub const AUDIO_EXTENSIONS: [&'static str; 7] = ["mp3", "flac", "wav", "m4a", "opus", "ogg", "aac"];

/// `e` (already lowercased) is one of the recognized audio extensions.
pub open spec fn spec_is_known_extension(e: Seq<char>) -> bool {
    exists|i: int| 0 <= i < 7 && e == AUDIO_EXTENSIONS[i]@
}

/// Case-insensitive extension check (expects `ext` without leading `.`).
pub fn is_audio_extension(ext: &str) -> (r: bool)
    ensures
        r == spec_is_known_extension(spec_ascii_lower(ext@)),
{
    let e = ascii_lower_chars(&chars_of(ext));
    let mut i: usize = 0;
    while i < 7
        invariant
            i <= 7,
            e@ == spec_ascii_lower(ext@),
            forall|j: int| 0 <= j < i ==> e@ != AUDIO_EXTENSIONS[j]@,
        decreases 7 - i,
    {
        if chars_eq_str(&e, AUDIO_EXTENSIONS[i]) {
            return true;
        }
        i = i + 1;
    }
    false
}

/// The characters of `s` that are not inside `[...]`, given the current bracket depth.
/// A `]` never takes the depth below zero.
pub open spec fn spec_strip_from(s: Seq<char>, depth: nat) -> Seq<char>
    decreases s.len(),
{
    if s.len() == 0 {
        s
    } else if s[0] == '[' {
        spec_strip_from(s.drop_first(), depth + 1)
    } else if s[0] == ']' {
        spec_strip_from(s.drop_first(), if depth > 0 { (depth - 1) as nat } else { 0 })
    } else if depth == 0 {
        seq![s[0]] + spec_strip_from(s.drop_first(), 0)
    } else {
        spec_strip_from(s.drop_first(), depth)
    }
}

/// `s` with every `[...]` segment (brackets included) removed.
pub open spec fn spec_strip_brackets(s: Seq<char>) -> Seq<char> {
    spec_strip_from(s, 0)
}

/// Remove `[...]` segments (YouTube-style tags, ids).
pub fn strip_square_bracket_segments(s: &str) -> (r: String)
    ensures
        r@ == spec_strip_brackets(s@),
{
    let v = chars_of(s);
    let n = v.len();
    let mut out: Vec<char> = Vec::new();
    let mut depth: usize = 0;
    let mut i: usize = 0;
    assert(v@.subrange(0, n as int) =~= v@);
    assert(out@ + spec_strip_from(v@, 0) =~= spec_strip_from(v@, 0));
    while i < n
        invariant
            n == v@.len(),
            i <= n,
            depth <= i,
            out@ + spec_strip_from(v@.subrange(i as int, n as int), depth as nat)
                == spec_strip_from(v@, 0),
        decreases n - i,
    {
        let ghost t = v@.subrange(i as int, n as int);
        assert(t.drop_first() =~= v@.subrange(i + 1, n as int));
        let c = v[i];
        if c == '[' {
            depth = depth + 1;
        } else if c == ']' {
            if depth > 0 {
                depth = depth - 1;
            }
        } else if depth == 0 {
            let ghost before = out@;
            out.push(c);
            assert(out@ + spec_strip_from(t.drop_first(), 0) =~= before + (seq![t[0]]
                + spec_strip_from(t.drop_first(), 0)));
        }
        i = i + 1;
    }
    assert(out@ + spec_strip_from(v@.subrange(n as int, n as int), depth as nat) =~= out@);
    string_of(&out)
}

/// Collapse the first matching `Artist - Topic - Title` spelling to `Artist - Title`.
pub open spec fn spec_normalize_topic(s: Seq<char>) -> Seq<char> {
    if spec_contains(s, " - Topic - "@) {
        spec_replace(s, " - Topic - "@, " - "@)
    } else if spec_contains(s, " - topic - "@) {
        spec_replace(s, " - topic - "@, " - "@)
    } else if spec_contains(s, " - TOPIC - "@) {
        spec_replace(s, " - TOPIC - "@, " - "@)
    } else {
        s
    }
}

/// Collapse `Artist - Topic - Title` style filenames before splitting.
pub fn normalize_topic_dashes(s: &str) -> (r: String)
    ensures
        r@ == spec_normalize_topic(s@),
{
    let v = chars_of(s);
    let r = normalize_topic_chars(&v);
    string_of(&r)
}

fn normalize_topic_chars(v: &Vec<char>) -> (r: Vec<char>)
    ensures
        r@ == spec_normalize_topic(v@),
{
    proof {
        reveal_strlit(" - Topic - ");
        reveal_strlit(" - topic - ");
        reveal_strlit(" - TOPIC - ");
    }
    let dash = chars_of(" - ");
    let p1 = chars_of(" - Topic - ");
    if find_chars(v, &p1).is_some() {
        return replace_chars(v, &p1, &dash);
    }
    let p2 = chars_of(" - topic - ");
    if find_chars(v, &p2).is_some() {
        return replace_chars(v, &p2, &dash);
    }
    let p3 = chars_of(" - TOPIC - ");
    if find_chars(v, &p3).is_some() {
        return replace_chars(v, &p3, &dash);
    }
    v.clone()
}

/// Two first matches of the same needle coincide.
pub proof fn lemma_first_match_unique(hay: Seq<char>, needle: Seq<char>, i: int, j: int)
    requires
        spec_is_first_match(hay, needle, i),
        spec_is_first_match(hay, needle, j),
    ensures
        i == j,
{
    if i < j {
        assert(!spec_matches_at(hay, needle, i));
    } else if j < i {
        assert(!spec_matches_at(hay, needle, j));
    }
}

/// The cleaned stem that gets split: brackets stripped, topic dashes collapsed, trimmed.
pub open spec fn spec_clean_base(stem: Seq<char>) -> Seq<char> {
    spec_trim(spec_normalize_topic(spec_strip_brackets(stem)))
}

/// The `(artist, title)` pair derived from a filename stem: split at the first `" - "`
/// when both trimmed halves are non-empty, otherwise no artist and the whole cleaned stem.
pub open spec fn spec_clean_title(stem: Seq<char>) -> (Option<Seq<char>>, Seq<char>) {
    let s = spec_clean_base(stem);
    if spec_contains(s, " - "@) {
        let pos = choose|i: int| spec_is_first_match(s, " - "@, i);
        let left = spec_trim(s.subrange(0, pos));
        let right = spec_trim(s.subrange(pos + 3, s.len() as int));
        if left.len() > 0 && right.len() > 0 {
            (Some(left), right)
        } else {
            (None, s)
        }
    } else {
        (None, s)
    }
}

/// The character view of an optional string.
pub open spec fn opt_str_view(o: Option<String>) -> Option<Seq<char>> {
    match o {
        Some(s) => Some(s@),
        None => None,
    }
}

/// Parse `Artist - Title` from a filename stem; used when tags are missing.
pub fn clean_filename_title(stem: &str) -> (r: (Option<String>, String))
    ensures
        opt_str_view(r.0) == spec_clean_title(stem@).0,
        r.1@ == spec_clean_title(stem@).1,
{
    let stripped = strip_square_bracket_segments(stem);
    let normalized = normalize_topic_chars(&chars_of(stripped.as_str()));
    let s = trim_chars(&normalized);
    assert(s@ == spec_clean_base(stem@));
    proof {
        reveal_strlit(" - ");
    }
    let sep = chars_of(" - ");
    match find_chars(&s, &sep) {
        Some(pos) => {
            proof {
                let c = choose|i: int| spec_is_first_match(s@, " - "@, i);
                lemma_first_match_unique(s@, " - "@, c, pos as int);
                assert(sep@.len() == 3);
                assert(pos + 3 <= s@.len());
            }
            let n = s.len();
            assert(pos + 3 <= n);
            let left = trim_chars(&sub_chars(&s, 0, pos));
            let right = trim_chars(&sub_chars(&s, pos + 3, n));
            if left.len() > 0 && right.len() > 0 {
                return (Some(string_of(&left)), string_of(&right));
            }
            (None, string_of(&s))
        },
        None => (None, string_of(&s)),
    }
}

/// The entries with later repeats removed, first occurrences kept in order.
pub open spec fn spec_dedupe(s: Seq<Seq<char>>) -> Seq<Seq<char>>
    decreases s.len(),
{
    if s.len() == 0 {
        Seq::empty()
    } else {
        let r = spec_dedupe(s.drop_last());
        if r.contains(s.last()) {
            r
        } else {
            r.push(s.last())
        }
    }
}

fn contains_str(v: &Vec<String>, x: &String) -> (r: bool)
    ensures
        r == crate::theme::strings_view(v@).contains(x@),
{
    let ghost vv = crate::theme::strings_view(v@);
    let xc = chars_of(x.as_str());
    let mut i: usize = 0;
    while i < v.len()
        invariant
            i <= v@.len(),
            vv == crate::theme::strings_view(v@),
            xc@ == x@,
            forall|j: int| 0 <= j < i ==> vv[j] != x@,
        decreases v.len() - i,
    {
        assert(vv[i as int] == v@[i as int]@);
        if crate::text::chars_eq(&chars_of(v[i].as_str()), &xc) {
            return true;
        }
        i = i + 1;
    }
    false
}

/// Keep the first occurrence of every path (canonical roots and files are deduplicated
/// this way before scanning).
pub fn dedupe_paths(paths: &Vec<String>) -> (r: Vec<String>)
    ensures
        crate::theme::strings_view(r@) == spec_dedupe(crate::theme::strings_view(paths@)),
{
    let ghost pv = crate::theme::strings_view(paths@);
    let mut out: Vec<String> = Vec::new();
    let mut i: usize = 0;
    while i < paths.len()
        invariant
            i <= paths@.len(),
            pv == crate::theme::strings_view(paths@),
            crate::theme::strings_view(out@) == spec_dedupe(pv.subrange(0, i as int)),
        decreases paths.len() - i,
    {
        assert(pv.subrange(0, i + 1).drop_last() =~= pv.subrange(0, i as int));
        assert(pv[i as int] == paths@[i as int]@);
        if !contains_str(&out, &paths[i]) {
            let ghost before = crate::theme::strings_view(out@);
            out.push(paths[i].clone());
            assert(crate::theme::strings_view(out@) =~= before.push(pv[i as int]));
        }
        i = i + 1;
    }
    assert(pv.subrange(0, paths@.len() as int) =~= pv);
    out
}

/// Tag fields read from an audio file.
#[derive(Debug)]
pub struct TagFields {
    pub title: Option<String>,
    pub artist: Option<String>,
    pub album: Option<String>,
}

/// `(title, artist, album)` of a track: a non-empty tag title wins, with the tag's artist
/// (or the one parsed from the filename when the tag has none) and album; without a tag
/// title the filename supplies the title; without tags at all it supplies title and artist.
pub open spec fn spec_track_fields(
    stem: Seq<char>,
    tag: Option<(Option<Seq<char>>, Option<Seq<char>>, Option<Seq<char>>)>,
) -> (Seq<char>, Option<Seq<char>>, Option<Seq<char>>) {
    let (fa, ft) = spec_clean_title(stem);
    match tag {
        Some((title, artist, album)) => match title {
            Some(t) => if t.len() > 0 {
                (t, artist, album)
            } else {
                (
                    ft,
                    match artist {
                        Some(a) => Some(a),
                        None => fa,
                    },
                    album,
                )
            },
            None => (
                ft,
                match artist {
                    Some(a) => Some(a),
                    None => fa,
                },
                album,
            ),
        },
        None => (ft, fa, None),
    }
}

pub open spec fn tag_view(tag: Option<TagFields>) -> Option<
    (Option<Seq<char>>, Option<Seq<char>>, Option<Seq<char>>),
> {
    match tag {
        Some(t) => Some((opt_str_view(t.title), opt_str_view(t.artist), opt_str_view(t.album))),
        None => None,
    }
}

/// Title, artist and album of a track from its tags (if any) and its filename stem.
pub fn track_fields(stem: &str, tag: Option<TagFields>) -> (r: (String, Option<String>, Option<String>))
    ensures
        (r.0@, opt_str_view(r.1), opt_str_view(r.2)) == spec_track_fields(stem@, tag_view(tag)),
{
    let (fa, ft) = clean_filename_title(stem);
    match tag {
        Some(t) => {
            let has_title = match &t.title {
                Some(x) => x.unicode_len() > 0,
                None => false,
            };
            if has_title {
                match t.title {
                    Some(x) => (x, t.artist, t.album),
                    None => (ft, fa, None),
                }
            } else {
                let artist = match t.artist {
                    Some(a) => Some(a),
                    None => fa,
                };
                (ft, artist, t.album)
            }
        },
        None => (ft, fa, None),
    }
}

/// Progress and completion events from a background scan.
#[derive(Debug)]
pub enum ScanEvent {
    /// A library root is being walked.
    FolderStarted(String),
    /// Files read so far, out of the total.
    Progress(usize, usize),
    /// The scan finished with these tracks.
    Done(Vec<Track>),
}

} // verus!
