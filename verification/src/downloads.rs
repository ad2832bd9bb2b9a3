//! State changes around downloads and the settings pickers: queueing a URL, the
//! missing-tools prompt, progress stages, completion and failure, and picked paths.

use vstd::prelude::*;

use crate::error::{spec_error_message, RtunesError};
use crate::events::{AppModel, AppState};
use crate::fetcher::{FetchOpts, MissingTool, PickerEvent, PickerTarget};
use crate::text::{chars_of, push_char, string_of};

verus! {

fn set_message(app: &mut AppState, msg: String)
    ensures
        final(app)@ == (AppModel { message: Some(msg@), ..old(app)@ }),
{
    app.message = Some(msg);
}

/// The prompt shown when a download needs tools that are missing.
pub open spec fn spec_missing_tools_prompt() -> Seq<char> {
    "yt-dlp/ffmpeg not found. Press Y to auto-download (~120MB) or N to cancel."@
}

fn hold_for_consent(
    app: &mut AppState,
    url: url::Url,
    opts: FetchOpts,
    missing: Vec<MissingTool>,
    msg: String,
)
    ensures
        final(app)@ == (AppModel {
            pending_fetch: crate::events::pending_view(Some((url, opts))),
            deps_prompt: Some(missing@),
            message: Some(msg@),
            ..old(app)@
        }),
{
    app.pending_fetch = Some((url, opts));
    app.deps_prompt = Some(missing);
    app.message = Some(msg);
}

fn set_stage(app: &mut AppState, stage: Option<String>)
    ensures
        final(app)@ == (AppModel { download_stage: crate::events::opt_seq_chars(stage), ..old(app)@ }),
{
    app.download_stage = stage;
}

/// A validated URL is ready to download. When tools are missing (`missing` is `Some`), the
/// download is parked and the consent prompt shown; otherwise the stage reads `Starting…`
/// and the download is handed back to be submitted.
pub fn queue_download(
    app: &mut AppState,
    url: url::Url,
    opts: FetchOpts,
    missing: Option<Vec<MissingTool>>,
) -> (r: Option<(url::Url, FetchOpts)>)
    ensures
        match missing {
            Some(m) => r is None && final(app)@ == (AppModel {
                pending_fetch: crate::events::pending_view(Some((url, opts))),
                deps_prompt: Some(m@),
                message: Some(spec_missing_tools_prompt()),
                ..old(app)@
            }),
            None => final(app)@ == (AppModel {
                download_stage: Some("Starting\u{2026}"@),
                ..old(app)@
            }) && crate::events::pending_view(r) == crate::events::pending_view(Some((url, opts))),
        },
{
    match missing {
        Some(m) => {
            hold_for_consent(
                app,
                url,
                opts,
                m,
                String::from_str(
                    "yt-dlp/ffmpeg not found. Press Y to auto-download (~120MB) or N to cancel.",
                ),
            );
            None
        },
        None => {
            set_stage(app, Some(String::from_str("Starting\u{2026}")));
            Some((url, opts))
        },
    }
}

/// A refused URL: its error text becomes the toast.
pub fn report_error(app: &mut AppState, e: &RtunesError)
    ensures
        !(*e is Io) ==> final(app)@ == (AppModel {
            message: Some(spec_error_message(*e)),
            ..old(app)@
        }),
        *e is Io ==> final(app)@ == (AppModel { message: final(app)@.message, ..old(app)@ }),
        *e is Io ==> (final(app)@.message matches Some(t) && t.len() >= spec_error_message(
            *e,
        ).len() && t.subrange(0, spec_error_message(*e).len() as int) == spec_error_message(*e)),
{
    let text = e.message();
    set_message(app, text);
}

/// Stage lines longer than 72 characters are cut there and end in `…`.
pub open spec fn spec_short_stage(s: Seq<char>) -> Seq<char> {
    if s.len() > 72 {
        s.subrange(0, 72).push('\u{2026}')
    } else {
        s
    }
}

/// A stage line from the downloader is shown (shortened).
pub fn show_stage(app: &mut AppState, line: &str)
    ensures
        final(app)@ == (AppModel { download_stage: Some(spec_short_stage(line@)), ..old(app)@ }),
{
    let v = chars_of(line);
    let s = if v.len() > 72 {
        let mut head: Vec<char> = Vec::new();
        let mut i: usize = 0;
        while i < 72
            invariant
                i <= 72 <= v@.len(),
                head@ == v@.subrange(0, i as int),
            decreases 72 - i,
        {
            head.push(v[i]);
            assert(head@ =~= v@.subrange(0, i + 1));
            i = i + 1;
        }
        let mut t = string_of(&head);
        push_char(&mut t, '\u{2026}');
        t
    } else {
        string_of(&v)
    };
    set_stage(app, Some(s));
}

fn end_download(app: &mut AppState, msg: String)
    ensures
        final(app)@ == (AppModel { download_stage: None, message: Some(msg@), ..old(app)@ }),
{
    app.download_stage = None;
    app.message = Some(msg);
}

/// A download finished: the toast announces the new track, `New track found: <title>`, where
/// `title` is the saved file's stem (`track` when it has none).
pub fn download_finished(app: &mut AppState, title: &str)
    ensures
        final(app)@ == (AppModel {
            download_stage: None,
            message: Some("New track found: "@ + title@),
            ..old(app)@
        }),
{
    end_download(app, String::from_str("New track found: ").concat(title));
}

/// A download failed with this message.
pub fn download_failed(app: &mut AppState, msg: String)
    ensures
        final(app)@ == (AppModel { download_stage: None, message: Some(msg@), ..old(app)@ }),
{
    end_download(app, msg);
}

/// How a picker target is named in toasts.
pub open spec fn spec_picker_label(t: PickerTarget) -> Seq<char> {
    match t {
        PickerTarget::YtDlp => "yt-dlp"@,
        PickerTarget::Ffmpeg => "ffmpeg"@,
        PickerTarget::DownloadDir => "Download dir"@,
    }
}

/// The state after a path was picked for `t`: the settings row shows it, and a toast says
/// it was saved.
pub open spec fn spec_picked(m: AppModel, t: PickerTarget, path: Seq<char>) -> AppModel {
    AppModel {
        message: Some(spec_picker_label(t) + " path saved"@),
        ..spec_with_picked_value(m, t, path)
    }
}

/// The state with the settings value of `t` replaced.
pub open spec fn spec_with_picked_value(m: AppModel, t: PickerTarget, v: Seq<char>) -> AppModel {
    match t {
        PickerTarget::YtDlp => AppModel { settings_ytdlp_value: v, ..m },
        PickerTarget::Ffmpeg => AppModel { settings_ffmpeg_value: v, ..m },
        PickerTarget::DownloadDir => AppModel { settings_download_dir: v, ..m },
    }
}

fn set_picked_value(app: &mut AppState, t: PickerTarget, v: String)
    ensures
        final(app)@ == spec_with_picked_value(old(app)@, t, v@),
{
    match t {
        PickerTarget::YtDlp => set_ytdlp(app, v),
        PickerTarget::Ffmpeg => set_ffmpeg(app, v),
        PickerTarget::DownloadDir => set_download_dir(app, v),
    }
}

fn set_ytdlp(app: &mut AppState, v: String)
    ensures
        final(app)@ == (AppModel { settings_ytdlp_value: v@, ..old(app)@ }),
{
    app.settings_ytdlp_value = v;
}

fn set_ffmpeg(app: &mut AppState, v: String)
    ensures
        final(app)@ == (AppModel { settings_ffmpeg_value: v@, ..old(app)@ }),
{
    app.settings_ffmpeg_value = v;
}

fn set_download_dir(app: &mut AppState, v: String)
    ensures
        final(app)@ == (AppModel { settings_download_dir: v@, ..old(app)@ }),
{
    app.settings_download_dir = v;
}

fn picker_label(t: PickerTarget) -> (r: &'static str)
    ensures
        r@ == spec_picker_label(t),
{
    match t {
        PickerTarget::YtDlp => "yt-dlp",
        PickerTarget::Ffmpeg => "ffmpeg",
        PickerTarget::DownloadDir => "Download dir",
    }
}

/// A picker closed. A cancelled dialog changes nothing; a chosen path is shown in its
/// settings row and handed back (target and path) to be written to the config.
pub fn apply_picker_result(app: &mut AppState, ev: PickerEvent) -> (r: Option<(PickerTarget, String)>)
    ensures
        match ev.path {
            None => r is None && final(app)@ == old(app)@,
            Some(p) => r matches Some((t, q)) && t == ev.target && q@ == p@ && final(app)@
                == spec_picked(old(app)@, ev.target, p@),
        },
{
    match ev.path {
        None => None,
        Some(p) => {
            let t = ev.target;
            set_picked_value(app, t, p.clone());
            set_message(app, String::from_str(picker_label(t)).concat(" path saved"));
            Some((t, p))
        },
    }
}

} // verus!
