//! Download-side rules: URL screening, per-platform tool names, yt-dlp output parsing and
//! the bookkeeping of which helper tools are missing.

use vstd::prelude::*;

use crate::error::RtunesError;
use crate::text::{
    chars_eq_str, chars_of, matches_at, spec_ascii_lower, spec_contains, spec_matches_at,
    spec_lowercase, spec_trim, string_of, sub_chars, to_lowercase, trim_chars,
};

verus! {

#[verifier::external_type_specification]
#[verifier::external_body]
pub struct ExUrl(url::Url);

/// Whether `url::Url::parse` accepts the string as an absolute URL. A function of the
/// characters alone.
pub uninterp spec fn spec_url_parses(s: Seq<char>) -> bool;

/// The scheme `url::Url::scheme` reports for the URL parsed from the string (meaningful
/// when it parses). A function of the characters alone.
pub uninterp spec fn spec_url_scheme(s: Seq<char>) -> Seq<char>;

/// The URL `url::Url::parse` builds from the string (meaningful when it parses). A function
/// of the characters alone.
pub uninterp spec fn spec_parsed_url(s: Seq<char>) -> url::Url;

/// The text `url::ParseError` displays for the error `url::Url::parse` reports on the
/// string (meaningful when it does not parse). A function of the characters alone.
pub uninterp spec fn spec_url_error_text(s: Seq<char>) -> Seq<char>;

/// Calls `url::Url::parse`, then `url::Url::scheme` on the result: succeeds exactly when
/// [`spec_url_parses`] holds of the input, and then hands back the URL named by
/// [`spec_parsed_url`] with the scheme named by [`spec_url_scheme`]. On failure it hands
/// back the error's display text (`to_string`), named by [`spec_url_error_text`].
#[verifier::external_body]
fn url_parse(s: &str) -> (r: Result<(url::Url, String), String>)
    ensures
        r is Ok <==> spec_url_parses(s@),
        r matches Ok((_, scheme)) ==> scheme@ == spec_url_scheme(s@),
        r matches Ok((u, _)) ==> u == spec_parsed_url(s@),
        r matches Err(t) ==> t@ == spec_url_error_text(s@),
{
    match url::Url::parse(s) {
        Ok(u) => {
            let scheme = u.scheme().to_string();
            Ok((u, scheme))
        },
        Err(e) => Err(e.to_string()),
    }
}

/// Per-download options (format string passed to yt-dlp, output directory for artifacts).
#[derive(Debug)]
pub struct FetchOpts {
    pub format: String,
    pub output_dir: String,
}

/// Which binary is missing when tool resolution fails.
#[derive(Debug, Clone, Copy, PartialEq, Eq, Structural)]
pub enum MissingTool {
    YtDlp,
    Ffmpeg,
}

/// Which path a native picker dialog is configuring.
#[derive(Debug, Clone, Copy, PartialEq, Eq, Structural)]
pub enum PickerTarget {
    YtDlp,
    Ffmpeg,
    /// The default output directory for downloads.
    DownloadDir,
}

/// Result of one picker session: the chosen path, or `None` when cancelled.
#[derive(Debug)]
pub struct PickerEvent {
    pub target: PickerTarget,
    pub path: Option<String>,
}

/// Operating-system family and architecture the tool names depend on.
#[derive(Debug, Clone, Copy, PartialEq, Eq, Structural)]
pub enum Platform {
    Windows,
    MacOs,
    /// Linux and other Unix systems on aarch64.
    LinuxArm64,
    /// Linux and other Unix systems on other architectures.
    Linux,
}

/// Human label used in dialog titles.
pub fn label_for(target: PickerTarget) -> (r: &'static str)
    ensures
        r@ == (match target {
            PickerTarget::YtDlp => "yt-dlp"@,
            PickerTarget::Ffmpeg => "ffmpeg"@,
            PickerTarget::DownloadDir => "downloads"@,
        }),
{
    match target {
        PickerTarget::YtDlp => "yt-dlp",
        PickerTarget::Ffmpeg => "ffmpeg",
        PickerTarget::DownloadDir => "downloads",
    }
}

/// Whether ffmpeg can be auto-downloaded (no static single-binary build exists for macOS).
pub fn ffmpeg_auto_download_supported(platform: Platform) -> (r: bool)
    ensures
        r == (platform != Platform::MacOs),
{
    platform != Platform::MacOs
}

/// Instructions to install ffmpeg manually on the given platform.
pub fn ffmpeg_manual_instructions(platform: Platform) -> (r: &'static str)
    ensures
        r@ == (match platform {
            Platform::MacOs => "Install ffmpeg via Homebrew: brew install ffmpeg"@,
            Platform::Windows => "Install ffmpeg via winget: winget install Gyan.FFmpeg"@,
            _ => "Install ffmpeg via your package manager (e.g. sudo apt install ffmpeg)"@,
        }),
{
    match platform {
        Platform::MacOs => "Install ffmpeg via Homebrew: brew install ffmpeg",
        Platform::Windows => "Install ffmpeg via winget: winget install Gyan.FFmpeg",
        _ => "Install ffmpeg via your package manager (e.g. sudo apt install ffmpeg)",
    }
}

/// The yt-dlp release asset for a platform.
pub open spec fn spec_ytdlp_asset(platform: Platform) -> Seq<char> {
    match platform {
        Platform::Windows => "yt-dlp.exe"@,
        Platform::MacOs => "yt-dlp_macos"@,
        Platform::LinuxArm64 => "yt-dlp_linux_aarch64"@,
        Platform::Linux => "yt-dlp_linux"@,
    }
}

/// Platform-specific yt-dlp GitHub release asset name.
pub fn ytdlp_asset_name(platform: Platform) -> (r: &'static str)
    ensures
        r@ == spec_ytdlp_asset(platform),
{
    match platform {
        Platform::Windows => "yt-dlp.exe",
        Platform::MacOs => "yt-dlp_macos",
        Platform::LinuxArm64 => "yt-dlp_linux_aarch64",
        Platform::Linux => "yt-dlp_linux",
    }
}

/// Filename used when saving yt-dlp into `deps/`.
pub fn ytdlp_dest_filename(platform: Platform) -> (r: &'static str)
    ensures
        r@ == (if platform == Platform::Windows {
            "yt-dlp.exe"@
        } else {
            "yt-dlp"@
        }),
{
    if platform == Platform::Windows {
        "yt-dlp.exe"
    } else {
        "yt-dlp"
    }
}

/// BtbN ffmpeg archive asset name; `None` on macOS (auto-download not supported).
pub fn ffmpeg_btbn_asset(platform: Platform) -> (r: Option<&'static str>)
    ensures
        match platform {
            Platform::Windows => r matches Some(s) && s@ == "win64"@,
            Platform::LinuxArm64 => r matches Some(s) && s@ == "linuxarm64"@,
            Platform::Linux => r matches Some(s) && s@ == "linux64"@,
            Platform::MacOs => r is None,
        },
{
    match platform {
        Platform::Windows => Some("win64"),
        Platform::LinuxArm64 => Some("linuxarm64"),
        Platform::Linux => Some("linux64"),
        Platform::MacOs => None,
    }
}

/// The yt-dlp release download for the platform.
pub fn ytdlp_download_url(platform: Platform) -> (r: String)
    ensures
        r@ == "https://github.com/yt-dlp/yt-dlp/releases/latest/download/"@ + spec_ytdlp_asset(
            platform,
        ),
{
    String::from_str("https://github.com/yt-dlp/yt-dlp/releases/latest/download/").concat(
        ytdlp_asset_name(platform),
    )
}

/// Where the ffmpeg archive is fetched from and the archive's file name: the Windows zip,
/// or the `tar.xz` build for the platform's asset; `None` on macOS.
pub fn ffmpeg_archive(platform: Platform) -> (r: Option<(String, String)>)
    ensures
        platform == Platform::MacOs <==> r is None,
        platform == Platform::Windows ==> (r matches Some((url, name)) && url@
            == "https://github.com/BtbN/FFmpeg-Builds/releases/download/latest/ffmpeg-master-latest-win64-gpl.zip"@
            && name@ == "ffmpeg.zip"@),
        platform == Platform::Linux ==> (r matches Some((url, name)) && name@
            == "ffmpeg-master-latest-linux64-gpl.tar.xz"@ && url@
            == "https://github.com/BtbN/FFmpeg-Builds/releases/download/latest/"@ + name@),
        platform == Platform::LinuxArm64 ==> (r matches Some((url, name)) && name@
            == "ffmpeg-master-latest-linuxarm64-gpl.tar.xz"@ && url@
            == "https://github.com/BtbN/FFmpeg-Builds/releases/download/latest/"@ + name@),
{
    match ffmpeg_btbn_asset(platform) {
        None => None,
        Some(asset) => if platform == Platform::Windows {
            Some(
                (
                    String::from_str(
                        "https://github.com/BtbN/FFmpeg-Builds/releases/download/latest/ffmpeg-master-latest-win64-gpl.zip",
                    ),
                    String::from_str("ffmpeg.zip"),
                ),
            )
        } else {
            let name = String::from_str("ffmpeg-master-latest-").concat(asset).concat("-gpl.tar.xz");
            let url = String::from_str(
                "https://github.com/BtbN/FFmpeg-Builds/releases/download/latest/",
            ).concat(name.as_str());
            proof {
                reveal_strlit("ffmpeg-master-latest-");
                reveal_strlit("-gpl.tar.xz");
                reveal_strlit("linux64");
                reveal_strlit("linuxarm64");
                reveal_strlit("ffmpeg-master-latest-linux64-gpl.tar.xz");
                reveal_strlit("ffmpeg-master-latest-linuxarm64-gpl.tar.xz");
            }
            assert(platform == Platform::Linux ==> name@ =~= "ffmpeg-master-latest-linux64-gpl.tar.xz"@);
            assert(platform == Platform::LinuxArm64 ==> name@ =~= "ffmpeg-master-latest-linuxarm64-gpl.tar.xz"@);
            Some((url, name))
        },
    }
}

/// Filename used when saving ffmpeg into `deps/`.
pub fn ffmpeg_dest_filename(platform: Platform) -> (r: &'static str)
    ensures
        r@ == (if platform == Platform::Windows {
            "ffmpeg.exe"@
        } else {
            "ffmpeg"@
        }),
{
    if platform == Platform::Windows {
        "ffmpeg.exe"
    } else {
        "ffmpeg"
    }
}

/// `s` ends with `suffix`.
pub open spec fn spec_ends_with(s: Seq<char>, suffix: Seq<char>) -> bool {
    suffix.len() <= s.len() && s.subrange(s.len() - suffix.len(), s.len() as int) == suffix
}

fn ends_with_str(v: &Vec<char>, suffix: &str) -> (r: bool)
    ensures
        r == spec_ends_with(v@, suffix@),
{
    let s = chars_of(suffix);
    if s.len() > v.len() {
        return false;
    }
    let tail = sub_chars(v, v.len() - s.len(), v.len());
    crate::text::chars_eq(&tail, &s)
}

/// A lowercased name already carries a Windows executable extension.
pub open spec fn spec_has_windows_exe_suffix(lower: Seq<char>) -> bool {
    spec_ends_with(lower, ".exe"@) || spec_ends_with(lower, ".cmd"@) || spec_ends_with(
        lower,
        ".bat"@,
    ) || spec_ends_with(lower, ".ps1"@)
}

/// The file names under which a binary called `name` is looked for.
pub open spec fn spec_executable_candidates(name: Seq<char>, platform: Platform) -> Seq<
    Seq<char>,
> {
    match platform {
        Platform::Windows => if spec_has_windows_exe_suffix(spec_lowercase(name)) {
            seq![name]
        } else {
            seq![name + ".exe"@, name + ".cmd"@, name]
        },
        Platform::MacOs => seq![name, name + "_macos"@],
        _ => seq![name],
    }
}

/// Candidates from an already lowercased copy of the name (Windows suffix check).
pub fn executable_candidates_with_lower(name: &str, lower: &str, platform: Platform) -> (r: Vec<
    String,
>)
    ensures
        crate::theme::strings_view(r@) == (match platform {
            Platform::Windows => if spec_has_windows_exe_suffix(lower@) {
                seq![name@]
            } else {
                seq![name@ + ".exe"@, name@ + ".cmd"@, name@]
            },
            Platform::MacOs => seq![name@, name@ + "_macos"@],
            _ => seq![name@],
        }),
{
    let mut r: Vec<String> = Vec::new();
    match platform {
        Platform::Windows => {
            let l = chars_of(lower);
            if ends_with_str(&l, ".exe") || ends_with_str(&l, ".cmd") || ends_with_str(&l, ".bat")
                || ends_with_str(&l, ".ps1") {
                r.push(String::from_str(name));
            } else {
                r.push(String::from_str(name).concat(".exe"));
                r.push(String::from_str(name).concat(".cmd"));
                r.push(String::from_str(name));
            }
        },
        Platform::MacOs => {
            r.push(String::from_str(name));
            r.push(String::from_str(name).concat("_macos"));
        },
        _ => {
            r.push(String::from_str(name));
        },
    }
    proof {
        let v = crate::theme::strings_view(r@);
        assert(v.len() == r@.len());
    }
    assert(crate::theme::strings_view(r@) =~= (match platform {
        Platform::Windows => if spec_has_windows_exe_suffix(lower@) {
            seq![name@]
        } else {
            seq![name@ + ".exe"@, name@ + ".cmd"@, name@]
        },
        Platform::MacOs => seq![name@, name@ + "_macos"@],
        _ => seq![name@],
    }));
    r
}

/// File names to try for a binary called `name`, in order of preference.
pub fn executable_name_candidates(name: &str, platform: Platform) -> (r: Vec<String>)
    ensures
        crate::theme::strings_view(r@) == spec_executable_candidates(name@, platform),
{
    let lower = to_lowercase(name);
    executable_candidates_with_lower(name, lower.as_str(), platform)
}

/// `s` begins with `prefix`.
pub open spec fn spec_starts_with(s: Seq<char>, prefix: Seq<char>) -> bool {
    prefix.len() <= s.len() && s.subrange(0, prefix.len() as int) == prefix
}

/// Drop leading and trailing `"` characters.
pub open spec fn spec_trim_quotes(s: Seq<char>) -> Seq<char>
    decreases s.len(),
{
    if s.len() > 0 && s[0] == '"' {
        spec_trim_quotes(s.drop_first())
    } else if s.len() > 0 && s.last() == '"' {
        spec_trim_quotes(s.drop_last())
    } else {
        s
    }
}

/// The output path named by a yt-dlp destination line, for one prefix.
pub open spec fn spec_destination_after(line: Seq<char>, prefix: Seq<char>) -> Option<Seq<char>> {
    if spec_starts_with(line, prefix) {
        let p = spec_trim_quotes(spec_trim(line.subrange(prefix.len() as int, line.len() as int)));
        if p.len() > 0 {
            Some(p)
        } else {
            None
        }
    } else {
        None
    }
}

/// The output file a yt-dlp progress line announces, if it is a destination line.
pub open spec fn spec_parse_destination(line: Seq<char>) -> Option<Seq<char>> {
    match spec_destination_after(line, "[ExtractAudio] Destination: "@) {
        Some(p) => Some(p),
        None => spec_destination_after(line, "[download] Destination: "@),
    }
}

fn trim_quotes(v: &Vec<char>) -> (r: Vec<char>)
    ensures
        r@ == spec_trim_quotes(v@),
{
    let n = v.len();
    let mut lo: usize = 0;
    let mut hi: usize = n;
    assert(v@.subrange(0, n as int) =~= v@);
    while lo < hi && (v[lo] == '"' || v[hi - 1] == '"')
        invariant
            lo <= hi <= n,
            n == v@.len(),
            spec_trim_quotes(v@) == spec_trim_quotes(v@.subrange(lo as int, hi as int)),
        decreases hi - lo,
    {
        let ghost t = v@.subrange(lo as int, hi as int);
        if v[lo] == '"' {
            assert(t.drop_first() =~= v@.subrange(lo + 1, hi as int));
            lo = lo + 1;
        } else {
            assert(t.drop_last() =~= v@.subrange(lo as int, hi - 1));
            hi = hi - 1;
        }
    }
    sub_chars(v, lo, hi)
}

fn destination_after(line: &Vec<char>, prefix: &str) -> (r: Option<Vec<char>>)
    ensures
        match r {
            Some(p) => spec_destination_after(line@, prefix@) == Some(p@),
            None => spec_destination_after(line@, prefix@) is None,
        },
{
    let p = chars_of(prefix);
    if !matches_at(line, &p, 0) {
        assert(!spec_starts_with(line@, prefix@)) by {
            if spec_starts_with(line@, prefix@) {
                assert(spec_matches_at(line@, p@, 0));
            }
        }
        return None;
    }
    let rest = sub_chars(line, p.len(), line.len());
    let path = trim_quotes(&trim_chars(&rest));
    if path.len() > 0 {
        Some(path)
    } else {
        None
    }
}

/// Extract the output path from a yt-dlp `Destination:` line.
pub fn parse_destination(line: &str) -> (r: Option<String>)
    ensures
        crate::scanner::opt_str_view(r) == spec_parse_destination(line@),
{
    let v = chars_of(line);
    match destination_after(&v, "[ExtractAudio] Destination: ") {
        Some(p) => Some(string_of(&p)),
        None => match destination_after(&v, "[download] Destination: ") {
            Some(p) => Some(string_of(&p)),
            None => None,
        },
    }
}

/// Combine the two tool lookups (yt-dlp, ffmpeg): both paths when both were found, otherwise the missing
/// tools (yt-dlp before ffmpeg).
pub fn try_resolve_tools(ytdlp: Option<String>, ffmpeg: Option<String>) -> (r: Result<
    (String, String),
    Vec<MissingTool>,
>)
    ensures
        (ytdlp is Some && ffmpeg is Some) <==> r is Ok,
        r matches Ok(p) ==> ytdlp == Some(p.0) && ffmpeg == Some(p.1),
        r matches Err(m) ==> m@ == (if ytdlp is None {
            seq![MissingTool::YtDlp]
        } else {
            Seq::empty()
        }) + (if ffmpeg is None {
            seq![MissingTool::Ffmpeg]
        } else {
            Seq::empty()
        }),
{
    match (ytdlp, ffmpeg) {
        (Some(y), Some(f)) => Ok((y, f)),
        (yt, ff) => {
            let mut missing: Vec<MissingTool> = Vec::new();
            if yt.is_none() {
                missing.push(MissingTool::YtDlp);
            }
            if ff.is_none() {
                missing.push(MissingTool::Ffmpeg);
            }
            assert(missing@ =~= (if yt is None {
                seq![MissingTool::YtDlp]
            } else {
                Seq::empty()
            }) + (if ff is None {
                seq![MissingTool::Ffmpeg]
            } else {
                Seq::empty()
            }));
            Err(missing)
        },
    }
}

/// The trimmed URL contains `;` or `|`.
pub open spec fn spec_has_forbidden_url_char(s: Seq<char>) -> bool {
    exists|i: int| 0 <= i < s.len() && (s[i] == ';' || s[i] == '|')
}

/// Reject non-http(s) URLs and suspicious shell metacharacters (`;`, `|`).
///
/// Accepts typical streaming links with query strings (e.g. YouTube `watch?v=…&list=…`).
pub fn validate_url(raw: &str) -> (r: Result<url::Url, RtunesError>)
    ensures
        spec_has_forbidden_url_char(spec_trim(raw@)) ==> (r matches Err(RtunesError::Fetcher(m))
            && m@ == "URL contains forbidden characters (; or |)"@),
        !spec_has_forbidden_url_char(spec_trim(raw@)) && !spec_url_parses(spec_trim(raw@)) ==> (r
            matches Err(RtunesError::Fetcher(m)) && m@ == spec_url_error_text(spec_trim(raw@))),
        !spec_has_forbidden_url_char(spec_trim(raw@)) && spec_url_parses(spec_trim(raw@)) && !(
        spec_url_scheme(spec_trim(raw@)) == "http"@ || spec_url_scheme(spec_trim(raw@))
            == "https"@) ==> (r matches Err(RtunesError::Fetcher(m)) && m@
            == "only http(s) URLs are allowed"@),
        r is Ok <==> !spec_has_forbidden_url_char(spec_trim(raw@)) && spec_url_parses(
            spec_trim(raw@),
        ) && (spec_url_scheme(spec_trim(raw@)) == "http"@ || spec_url_scheme(spec_trim(raw@))
            == "https"@),
        r matches Ok(u) ==> u == spec_parsed_url(spec_trim(raw@)),
{
    let s = trim_chars(&chars_of(raw));
    let mut i: usize = 0;
    while i < s.len()
        invariant
            i <= s@.len(),
            s@ == spec_trim(raw@),
            forall|j: int| 0 <= j < i ==> !(s@[j] == ';' || s@[j] == '|'),
        decreases s.len() - i,
    {
        if s[i] == ';' || s[i] == '|' {
            assert(spec_has_forbidden_url_char(s@)) by {
                assert(s@[i as int] == ';' || s@[i as int] == '|');
            }
            return Err(RtunesError::Fetcher(String::from_str("URL contains forbidden characters (; or |)")));
        }
        i = i + 1;
    }
    let trimmed = string_of(&s);
    match url_parse(trimmed.as_str()) {
        Ok((u, sch)) => {
            let scheme = chars_of(sch.as_str());
            if chars_eq_str(&scheme, "http") || chars_eq_str(&scheme, "https") {
                Ok(u)
            } else {
                Err(RtunesError::Fetcher(String::from_str("only http(s) URLs are allowed")))
            }
        },
        Err(t) => Err(RtunesError::Fetcher(t)),
    }
}

/// The last `n` characters (all of them when there are fewer).
pub open spec fn spec_tail(s: Seq<char>, n: nat) -> Seq<char> {
    if s.len() <= n {
        s
    } else {
        s.subrange(s.len() - n, s.len() as int)
    }
}

/// The report for a failed yt-dlp run: the last 800 characters of its error output
/// (trimmed), or just the exit status when that output is blank.
pub open spec fn spec_failure_message(status: Seq<char>, stderr: Seq<char>) -> Seq<char> {
    let tail = spec_trim(spec_tail(stderr, 800));
    if tail.len() == 0 {
        "yt-dlp exited with "@ + status
    } else {
        "yt-dlp failed ("@ + status + "): "@ + tail
    }
}

/// Message for a yt-dlp run that exited unsuccessfully (`status` as displayed).
pub fn failure_message(status: &str, stderr: &str) -> (r: String)
    ensures
        r@ == spec_failure_message(status@, stderr@),
{
    let v = chars_of(stderr);
    let n = v.len();
    let from = if n > 800 {
        n - 800
    } else {
        0
    };
    let tail = sub_chars(&v, from, n);
    assert(tail@ == spec_tail(stderr@, 800)) by {
        if n <= 800 {
            assert(v@.subrange(0, n as int) =~= v@);
        }
    }
    let t = trim_chars(&tail);
    if t.len() == 0 {
        String::from_str("yt-dlp exited with ").concat(status)
    } else {
        String::from_str("yt-dlp failed (").concat(status).concat("): ").concat(
            string_of(&t).as_str(),
        )
    }
}

/// The number text before `%` on a yt-dlp `[download]` progress line: the last
/// whitespace-separated word before the first `%`.
pub open spec fn spec_percent_token(line: Seq<char>) -> Option<Seq<char>> {
    if !spec_contains(line, "[download]"@) {
        None
    } else {
        match crate::theme::first_where(line, |c: char| c == '%') {
            None => None,
            Some(idx) => {
                let head = crate::text::spec_trim_end(line.subrange(0, idx));
                spec_last_word(head)
            },
        }
    }
}

/// The last run of non-whitespace characters, if any.
pub open spec fn spec_last_word(s: Seq<char>) -> Option<Seq<char>> {
    let t = crate::text::spec_trim_end(s);
    if t.len() == 0 {
        None
    } else {
        match crate::theme::first_where(
            t.reverse(),
            |c: char| crate::text::spec_is_whitespace(c),
        ) {
            Some(k) => Some(t.subrange(t.len() - k, t.len() as int)),
            None => Some(t),
        }
    }
}

/// Index of the first `%`, if any.
fn find_percent(v: &Vec<char>) -> (r: Option<usize>)
    ensures
        match r {
            Some(i) => crate::theme::first_where(v@, |c: char| c == '%') == Some(i as int),
            None => crate::theme::first_where(v@, |c: char| c == '%') is None,
        },
        r matches Some(i) ==> i < v@.len(),
{
    let ghost p = |c: char| c == '%';
    let mut i: usize = 0;
    while i < v.len()
        invariant
            i <= v@.len(),
            p == (|c: char| c == '%'),
            forall|j: int| 0 <= j < i ==> !p(v@[j]),
        decreases v.len() - i,
    {
        if v[i] == '%' {
            proof {
                crate::theme::lemma_first_where_found(v@, p, i as int);
            }
            return Some(i);
        }
        i = i + 1;
    }
    proof {
        crate::theme::lemma_first_where_none(v@, p);
    }
    None
}

/// `s` without trailing whitespace.
fn trim_end_chars(v: &Vec<char>) -> (r: Vec<char>)
    ensures
        r@ == crate::text::spec_trim_end(v@),
{
    let mut hi: usize = v.len();
    assert(v@.subrange(0, hi as int) =~= v@);
    while hi > 0 && crate::text::is_whitespace(v[hi - 1])
        invariant
            hi <= v@.len(),
            crate::text::spec_trim_end(v@) == crate::text::spec_trim_end(v@.subrange(0, hi as int)),
        decreases hi,
    {
        assert(v@.subrange(0, hi as int).drop_last() =~= v@.subrange(0, hi - 1));
        hi = hi - 1;
    }
    sub_chars(v, 0, hi)
}

proof fn lemma_trim_end_idempotent(s: Seq<char>)
    ensures
        crate::text::spec_trim_end(crate::text::spec_trim_end(s)) == crate::text::spec_trim_end(s),
    decreases s.len(),
{
    if s.len() > 0 && crate::text::spec_is_whitespace(s.last()) {
        lemma_trim_end_idempotent(s.drop_last());
    }
}

/// The last word of `v`, if it has one.
fn last_word(v: &Vec<char>) -> (r: Option<Vec<char>>)
    ensures
        match r {
            Some(w) => spec_last_word(v@) == Some(w@),
            None => spec_last_word(v@) is None,
        },
{
    let t = trim_end_chars(v);
    let n = t.len();
    if n == 0 {
        return None;
    }
    let ghost rev = t@.reverse();
    let ghost p = |c: char| crate::text::spec_is_whitespace(c);
    let mut k: usize = 0;
    while k < n
        invariant
            k <= n == t@.len(),
            t@ == crate::text::spec_trim_end(v@),
            rev == t@.reverse(),
            p == (|c: char| crate::text::spec_is_whitespace(c)),
            forall|j: int| 0 <= j < k ==> !p(rev[j]),
        decreases n - k,
    {
        assert(rev[k as int] == t@[n - 1 - k]);
        if crate::text::is_whitespace(t[n - 1 - k]) {
            proof {
                crate::theme::lemma_first_where_found(rev, p, k as int);
            }
            return Some(sub_chars(&t, n - k, n));
        }
        k = k + 1;
    }
    proof {
        crate::theme::lemma_first_where_none(rev, p);
        assert(t@.subrange(0, n as int) =~= t@);
    }
    Some(sub_chars(&t, 0, n))
}

/// The progress number text of a `[download]` line, before it is read as a number.
pub fn download_percent_token(line: &str) -> (r: Option<String>)
    ensures
        crate::scanner::opt_str_view(r) == spec_percent_token(line@),
{
    let v = chars_of(line);
    if crate::text::find_chars(&v, &chars_of("[download]")).is_none() {
        return None;
    }
    match find_percent(&v) {
        None => None,
        Some(idx) => {
            let head = trim_end_chars(&sub_chars(&v, 0, idx));
            proof {
                lemma_trim_end_idempotent(v@.subrange(0, idx as int));
            }
            match last_word(&head) {
                Some(w) => Some(string_of(&w)),
                None => None,
            }
        },
    }
}

/// Whether a character is alphanumeric (Unicode alphabetic or numeric): a function of the
/// character alone.
pub uninterp spec fn spec_is_alphanumeric(c: char) -> bool;

/// Calls `char::is_alphanumeric`; named by [`spec_is_alphanumeric`]. ASCII letters and
/// digits are alphanumeric.
#[verifier::external_body]
fn is_alphanumeric(c: char) -> (r: bool)
    ensures
        r == spec_is_alphanumeric(c),
        ('a' <= c <= 'z' || 'A' <= c <= 'Z' || '0' <= c <= '9') ==> r,
{
    c.is_alphanumeric()
}

/// A character kept in a mock file name.
pub open spec fn spec_name_char(c: char) -> bool {
    spec_is_alphanumeric(c) || c == '-' || c == '_'
}

/// The kept characters, in order.
pub open spec fn spec_name_chars(s: Seq<char>) -> Seq<char>
    decreases s.len(),
{
    if s.len() == 0 {
        Seq::empty()
    } else {
        let r = spec_name_chars(s.drop_last());
        if spec_name_char(s.last()) {
            r.push(s.last())
        } else {
            r
        }
    }
}

/// The mock download's file stem: the URL's last path segment reduced to letters, digits,
/// `-` and `_` (at most 64), or `mock_track`.
pub open spec fn spec_mock_name(segment: Option<Seq<char>>) -> Seq<char> {
    let stem = match segment {
        Some(s) => if s.len() > 0 {
            s
        } else {
            "mock_track"@
        },
        None => "mock_track"@,
    };
    let kept = spec_name_chars(stem);
    let safe = if kept.len() > 64 {
        kept.subrange(0, 64)
    } else {
        kept
    };
    if safe.len() == 0 {
        "mock_track"@
    } else {
        safe
    }
}

/// Test fetcher: names its stub file after the URL and reports scripted progress.
#[derive(Debug)]
pub struct MockFetcher;

impl MockFetcher {
    /// The stub file's stem for a URL whose last path segment is `segment`.
    pub fn track_name(&self, segment: Option<&str>) -> (r: String)
        ensures
            r@ == spec_mock_name(match segment {
                Some(s) => Some(s@),
                None => None,
            }),
    {
        let stem: Vec<char> = match segment {
            Some(s) => if s.unicode_len() > 0 {
                chars_of(s)
            } else {
                chars_of("mock_track")
            },
            None => chars_of("mock_track"),
        };
        let mut kept: Vec<char> = Vec::new();
        let mut i: usize = 0;
        while i < stem.len()
            invariant
                i <= stem@.len(),
                kept@ == spec_name_chars(stem@.subrange(0, i as int)),
            decreases stem.len() - i,
        {
            assert(stem@.subrange(0, i + 1).drop_last() =~= stem@.subrange(0, i as int));
            let c = stem[i];
            if is_alphanumeric(c) || c == '-' || c == '_' {
                kept.push(c);
            }
            i = i + 1;
        }
        assert(stem@.subrange(0, stem@.len() as int) =~= stem@);
        let safe = if kept.len() > 64 {
            sub_chars(&kept, 0, 64)
        } else {
            kept
        };
        if safe.len() == 0 {
            String::from_str("mock_track")
        } else {
            string_of(&safe)
        }
    }
}

} // verus!
