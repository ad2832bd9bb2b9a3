//! The command line: its parsed form and the decisions the subcommands take once the
//! file system has been asked.

use vstd::prelude::*;

use crate::config::FetcherSettings;
use crate::fetcher::MissingTool;
use crate::text::{chars_of, decimal, spec_decimal, spec_lowercase, spec_trim, string_of, to_lowercase, trim_chars};

verus! {

/// Parsed command line.
#[derive(Debug)]
pub struct Cli {
    /// Path to config.yaml (overrides the default location).
    pub config: Option<String>,
    /// Log level: error, warn, info, debug, trace.
    pub log_level: Option<String>,
    /// Theme name for the default TUI launch.
    pub theme: Option<String>,
    /// Target render FPS, 30–60, for the default TUI launch.
    pub fps: Option<u8>,
    /// Start in fullscreen visualizer mode.
    pub fullscreen: bool,
    /// Explicit path to the yt-dlp binary.
    pub ytdlp_path: Option<String>,
    /// Explicit path to the ffmpeg binary.
    pub ffmpeg_path: Option<String>,
    pub command: Option<Commands>,
}

/// Subcommands.
#[derive(Debug)]
pub enum Commands {
    /// Launch the terminal UI.
    Tui { theme: Option<String>, fps: Option<u8>, fullscreen: bool },
    /// Download audio from a URL via yt-dlp.
    Fetch { url: String, format: Option<String>, output: Option<String> },
    /// Rebuild the library index from all configured folders.
    Scan,
    /// Manage library folders.
    Library { cmd: LibraryCmd },
}

/// `library` subcommands.
#[derive(Debug)]
pub enum LibraryCmd {
    /// Add a folder to the library paths.
    Add { path: String },
    /// Remove a folder from the library paths.
    Remove { path: String },
    /// List configured library folders.
    List,
}

/// Binary paths given on the command line replace the configured ones.
pub fn apply_binary_overrides(cli: &Cli, fetcher: &mut FetcherSettings)
    ensures
        final(fetcher).ytdlp_path@ == match cli.ytdlp_path {
            Some(p) => p@,
            None => old(fetcher).ytdlp_path@,
        },
        final(fetcher).ffmpeg_path@ == match cli.ffmpeg_path {
            Some(p) => p@,
            None => old(fetcher).ffmpeg_path@,
        },
        final(fetcher).default_format == old(fetcher).default_format,
        final(fetcher).max_concurrent == old(fetcher).max_concurrent,
{
    match &cli.ytdlp_path {
        Some(p) => {
            fetcher.ytdlp_path = p.clone();
        },
        None => {},
    }
    match &cli.ffmpeg_path {
        Some(p) => {
            fetcher.ffmpeg_path = p.clone();
        },
        None => {},
    }
}

/// The answer to "Download automatically? [Y/n]" agrees: `y`, `yes` or nothing (trimmed,
/// any case).
pub open spec fn spec_consent_given(answer: Seq<char>) -> bool {
    let a = spec_lowercase(spec_trim(answer));
    a == "y"@ || a == "yes"@ || a.len() == 0
}

/// Whether the typed answer agrees to downloading the missing tools.
pub fn consent_given(answer: &str) -> (r: bool)
    ensures
        r == spec_consent_given(answer@),
{
    let a = chars_of(to_lowercase(string_of(&trim_chars(&chars_of(answer))).as_str()).as_str());
    crate::text::chars_eq_str(&a, "y") || crate::text::chars_eq_str(&a, "yes") || a.len() == 0
}

/// The name of a missing tool.
pub open spec fn spec_tool_name(t: MissingTool) -> Seq<char> {
    match t {
        MissingTool::YtDlp => "yt-dlp"@,
        MissingTool::Ffmpeg => "ffmpeg"@,
    }
}

/// The tool names joined with ` and `.
pub open spec fn spec_tool_list(ts: Seq<MissingTool>) -> Seq<char>
    decreases ts.len(),
{
    if ts.len() == 0 {
        Seq::empty()
    } else if ts.len() == 1 {
        spec_tool_name(ts[0])
    } else {
        spec_tool_list(ts.drop_last()) + " and "@ + spec_tool_name(ts.last())
    }
}

fn tool_name(t: MissingTool) -> (r: &'static str)
    ensures
        r@ == spec_tool_name(t),
{
    match t {
        MissingTool::YtDlp => "yt-dlp",
        MissingTool::Ffmpeg => "ffmpeg",
    }
}

/// `yt-dlp and ffmpeg`, or the one name that is missing.
pub fn tool_list(ts: &Vec<MissingTool>) -> (r: String)
    ensures
        r@ == spec_tool_list(ts@),
{
    let mut r = String::new();
    let mut i: usize = 0;
    while i < ts.len()
        invariant
            i <= ts@.len(),
            r@ == spec_tool_list(ts@.subrange(0, i as int)),
        decreases ts.len() - i,
    {
        let ghost sub = ts@.subrange(0, i + 1);
        assert(sub.drop_last() =~= ts@.subrange(0, i as int));
        if i == 0 {
            r = String::from_str(tool_name(ts[i]));
        } else {
            r = r.concat(" and ").concat(tool_name(ts[i]));
        }
        i = i + 1;
    }
    assert(ts@.subrange(0, ts@.len() as int) =~= ts@);
    r
}

/// First position whose value is `Some(target)`.
pub open spec fn spec_first_match(v: Seq<Option<Seq<char>>>, target: Seq<char>) -> Option<int> {
    crate::theme::first_where(v, |o: Option<Seq<char>>| o == Some(target))
}

pub open spec fn opt_views(v: Seq<Option<String>>) -> Seq<Option<Seq<char>>> {
    v.map_values(|o: Option<String>| crate::state::opt_chars(o))
}

/// Position of the first entry whose canonical form is `target`.
pub fn first_canonical_match(canon_of: &Vec<Option<String>>, target: &str) -> (r: Option<usize>)
    ensures
        match r {
            Some(i) => spec_first_match(opt_views(canon_of@), target@) == Some(i as int),
            None => spec_first_match(opt_views(canon_of@), target@) is None,
        },
{
    let ghost v = opt_views(canon_of@);
    let ghost p = |o: Option<Seq<char>>| o == Some(target@);
    let t = chars_of(target);
    let mut i: usize = 0;
    while i < canon_of.len()
        invariant
            i <= canon_of@.len(),
            v == opt_views(canon_of@),
            p == (|o: Option<Seq<char>>| o == Some(target@)),
            t@ == target@,
            forall|j: int| 0 <= j < i ==> !p(v[j]),
        decreases canon_of.len() - i,
    {
        assert(v[i as int] == crate::state::opt_chars(canon_of@[i as int]));
        let hit = match &canon_of[i] {
            Some(c) => crate::text::chars_eq(&chars_of(c.as_str()), &t),
            None => false,
        };
        if hit {
            proof {
                crate::theme::lemma_first_where_found(v, p, i as int);
            }
            return Some(i);
        }
        i = i + 1;
    }
    proof {
        crate::theme::lemma_first_where_none(v, p);
    }
    None
}

/// The entry `library remove` takes out: the first whose canonical form is the target's
/// (when the target could be canonicalized), else the first whose expansion equals the
/// target's expansion.
pub open spec fn spec_entry_to_remove(
    canon_of: Seq<Option<Seq<char>>>,
    target_canon: Option<Seq<char>>,
    expanded: Seq<Seq<char>>,
    target_expanded: Seq<char>,
) -> Option<int> {
    let by_canon = match target_canon {
        Some(t) => spec_first_match(canon_of, t),
        None => None,
    };
    match by_canon {
        Some(i) => Some(i),
        None => crate::theme::first_where(expanded, |e: Seq<char>| e == target_expanded),
    }
}

/// Which configured entry `library remove` deletes, if any.
pub fn entry_to_remove(
    canon_of: &Vec<Option<String>>,
    target_canon: Option<&str>,
    expanded: &Vec<String>,
    target_expanded: &str,
) -> (r: Option<usize>)
    ensures
        match r {
            Some(i) => spec_entry_to_remove(
                opt_views(canon_of@),
                match target_canon {
                    Some(t) => Some(t@),
                    None => None,
                },
                crate::theme::strings_view(expanded@),
                target_expanded@,
            ) == Some(i as int),
            None => spec_entry_to_remove(
                opt_views(canon_of@),
                match target_canon {
                    Some(t) => Some(t@),
                    None => None,
                },
                crate::theme::strings_view(expanded@),
                target_expanded@,
            ) is None,
        },
{
    match target_canon {
        Some(t) => match first_canonical_match(canon_of, t) {
            Some(i) => {
                return Some(i);
            },
            None => {},
        },
        None => {},
    }
    let ghost v = crate::theme::strings_view(expanded@);
    let ghost p = |e: Seq<char>| e == target_expanded@;
    let t = chars_of(target_expanded);
    let mut i: usize = 0;
    while i < expanded.len()
        invariant
            i <= expanded@.len(),
            v == crate::theme::strings_view(expanded@),
            p == (|e: Seq<char>| e == target_expanded@),
            t@ == target_expanded@,
            forall|j: int| 0 <= j < i ==> !p(v[j]),
            match target_canon {
                Some(tc) => spec_first_match(opt_views(canon_of@), tc@) is None,
                None => true,
            },
        decreases expanded.len() - i,
    {
        assert(v[i as int] == expanded@[i as int]@);
        if crate::text::chars_eq(&chars_of(expanded[i].as_str()), &t) {
            proof {
                crate::theme::lemma_first_where_found(v, p, i as int);
            }
            return Some(i);
        }
        i = i + 1;
    }
    proof {
        crate::theme::lemma_first_where_none(v, p);
    }
    None
}

/// The folder downloads go to: `--output` when given, else the first library folder, else
/// the configured download directory.
pub fn download_output_dir(output: Option<String>, roots: &Vec<String>, download_dir: String) -> (r: String)
    ensures
        r@ == match output {
            Some(o) => o@,
            None => if roots@.len() > 0 {
                roots@[0]@
            } else {
                download_dir@
            },
        },
{
    match output {
        Some(o) => o,
        None => if roots.len() > 0 {
            roots[0].clone()
        } else {
            download_dir
        },
    }
}

/// `Scanned N folders. Found M tracks.`
pub fn scan_summary(folders: usize, tracks: usize) -> (r: String)
    ensures
        r@ == "Scanned "@ + spec_decimal(folders as nat) + " folders. Found "@ + spec_decimal(
            tracks as nat,
        ) + " tracks."@,
{
    String::from_str("Scanned ").concat(decimal(folders as u64).as_str()).concat(
        " folders. Found ",
    ).concat(decimal(tracks as u64).as_str()).concat(" tracks.")
}

/// One line of `library list`: `  N. path (M tracks)`, numbered from one.
pub fn library_list_line(index: usize, path: &str, count: usize) -> (r: String)
    requires
        index < usize::MAX,
    ensures
        r@ == "  "@ + spec_decimal(index as nat + 1) + ". "@ + path@ + " ("@ + spec_decimal(
            count as nat,
        ) + " tracks)"@,
{
    String::from_str("  ").concat(decimal((index + 1) as u64).as_str()).concat(". ").concat(
        path,
    ).concat(" (").concat(decimal(count as u64).as_str()).concat(" tracks)")
}

} // verus!
