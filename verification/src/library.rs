//! Library bookkeeping on the application state: folder track counts, folders taken from
//! the config, and the state changes when a rescan is asked for and when it completes.

use vstd::prelude::*;

use crate::events::{AppModel, AppState};
use crate::paths::{expand_path, path_starts_with, spec_path_starts_with};
use crate::state::{FolderModel, LibraryFolder, Track, TrackModel};
use crate::text::{decimal, spec_decimal};
use crate::theme::{first_where, lemma_first_where_found, lemma_first_where_none};

verus! {

// ---------------------------------------------------------------------------------------
// Folder track counts
// ---------------------------------------------------------------------------------------

/// How many tracks lie under the folder `base`.
pub open spec fn spec_count_under(lib: Seq<TrackModel>, base: Seq<char>) -> nat
    decreases lib.len(),
{
    if lib.len() == 0 {
        0
    } else {
        spec_count_under(lib.drop_last(), base) + if spec_path_starts_with(
            lib.last().filepath,
            base,
        ) {
            1nat
        } else {
            0nat
        }
    }
}

pub proof fn lemma_count_under_bound(lib: Seq<TrackModel>, base: Seq<char>)
    ensures
        spec_count_under(lib, base) <= lib.len(),
    decreases lib.len(),
{
    if lib.len() > 0 {
        lemma_count_under_bound(lib.drop_last(), base);
    }
}

/// The folders with fresh counts and the scan time.
pub open spec fn spec_recount(lib: Seq<TrackModel>, folders: Seq<FolderModel>, now: u64) -> Seq<
    FolderModel,
> {
    folders.map_values(
        |f: FolderModel|
            FolderModel {
                track_count: spec_count_under(lib, f.path) as usize,
                last_scanned: Some(now),
                ..f
            },
    )
}

/// Number of tracks whose file lies under `base`.
pub fn count_under(lib: &Vec<Track>, base: &str) -> (r: usize)
    ensures
        r == spec_count_under(lib@.map_values(|t: Track| t@), base@),
{
    let ghost lv = lib@.map_values(|t: Track| t@);
    let mut n: usize = 0;
    let mut i: usize = 0;
    while i < lib.len()
        invariant
            i <= lib@.len(),
            lv == lib@.map_values(|t: Track| t@),
            n == spec_count_under(lv.subrange(0, i as int), base@),
            n <= i,
        decreases lib.len() - i,
    {
        assert(lv.subrange(0, i + 1).drop_last() =~= lv.subrange(0, i as int));
        assert(lv[i as int] == lib@[i as int]@);
        if path_starts_with(lib[i].filepath.as_str(), base) {
            n = n + 1;
        }
        i = i + 1;
    }
    assert(lv.subrange(0, lib@.len() as int) =~= lv);
    n
}

fn set_folders(app: &mut AppState, folders: Vec<LibraryFolder>)
    ensures
        final(app)@ == (AppModel {
            library_folders: folders@.map_values(|f: LibraryFolder| f@),
            ..old(app)@
        }),
{
    app.library_folders = folders;
}

/// Count the tracks under every library folder and stamp the scan time (`now`, in the
/// caller's milliseconds).
pub fn recompute_folder_counts(app: &mut AppState, now: u64)
    ensures
        final(app)@ == (AppModel {
            library_folders: spec_recount(old(app)@.library, old(app)@.library_folders, now),
            ..old(app)@
        }),
{
    let ghost m = app@;
    let mut out: Vec<LibraryFolder> = Vec::new();
    let mut i: usize = 0;
    while i < app.library_folders.len()
        invariant
            i <= app.library_folders@.len(),
            m == app@,
            out@.len() == i,
            forall|j: int|
                0 <= j < i ==> #[trigger] out@[j]@ == spec_recount(
                    m.library,
                    m.library_folders,
                    now,
                )[j],
        decreases app.library_folders.len() - i,
    {
        let f = &app.library_folders[i];
        let c = count_under(&app.library, f.path.as_str());
        out.push(LibraryFolder { path: f.path.clone(), track_count: c, last_scanned: Some(now) });
        i = i + 1;
    }
    assert(out@.map_values(|f: LibraryFolder| f@) =~= spec_recount(
        m.library,
        m.library_folders,
        now,
    ));
    set_folders(app, out);
}

// ---------------------------------------------------------------------------------------
// Folders from the config
// ---------------------------------------------------------------------------------------

/// What [`expand_path`] may give for `input` (the home directory is the environment's).
pub open spec fn spec_expansion_of(r: Seq<char>, input: Seq<char>) -> bool {
    &&& (input.len() == 0 || input[0] != '~') ==> r == input
    &&& (input.len() > 1 && input[0] == '~' && input[1] != '/' && input[1] != '\\') ==> r
        == input
    &&& r == input || exists|home: Seq<char>| r == home + input.drop_first()
}

/// The selection after the folder list changed to `len` entries.
pub open spec fn spec_folder_selection(sel: usize, len: nat) -> usize {
    if sel >= len {
        if len > 0 {
            (len - 1) as usize
        } else {
            0
        }
    } else {
        sel
    }
}

fn set_folders_and_selection(app: &mut AppState, folders: Vec<LibraryFolder>, sel: usize)
    ensures
        final(app)@ == (AppModel {
            library_folders: folders@.map_values(|f: LibraryFolder| f@),
            selected_folder: sel,
            ..old(app)@
        }),
{
    app.library_folders = folders;
    app.selected_folder = sel;
}

/// One library folder per configured path (home directory expanded, not yet counted); the
/// selection is kept inside the new list.
pub fn sync_library_folders_from_config(app: &mut AppState, library_paths: &Vec<String>)
    ensures
        final(app)@.library_folders.len() == library_paths@.len(),
        forall|i: int|
            0 <= i < library_paths@.len() ==> {
                let f = #[trigger] final(app)@.library_folders[i];
                &&& spec_expansion_of(f.path, library_paths@[i]@)
                &&& f.track_count == 0
                &&& f.last_scanned is None
            },
        final(app)@.selected_folder == spec_folder_selection(
            old(app)@.selected_folder,
            library_paths@.len(),
        ),
        final(app)@ == (AppModel {
            library_folders: final(app)@.library_folders,
            selected_folder: final(app)@.selected_folder,
            ..old(app)@
        }),
{
    let mut out: Vec<LibraryFolder> = Vec::new();
    let mut i: usize = 0;
    while i < library_paths.len()
        invariant
            i <= library_paths@.len(),
            out@.len() == i,
            forall|j: int|
                0 <= j < i ==> {
                    let f = #[trigger] out@[j];
                    &&& spec_expansion_of(f.path@, library_paths@[j]@)
                    &&& f.track_count == 0
                    &&& f.last_scanned is None
                },
        decreases library_paths.len() - i,
    {
        let p = expand_path(library_paths[i].as_str());
        out.push(LibraryFolder { path: p, track_count: 0, last_scanned: None });
        i = i + 1;
    }
    let n = out.len();
    let sel = if app.selected_folder >= n {
        if n > 0 {
            n - 1
        } else {
            0
        }
    } else {
        app.selected_folder
    };
    let ghost outv = out@.map_values(|f: LibraryFolder| f@);
    assert forall|i: int| 0 <= i < library_paths@.len() implies {
        let f = #[trigger] outv[i];
        &&& spec_expansion_of(f.path, library_paths@[i]@)
        &&& f.track_count == 0
        &&& f.last_scanned is None
    } by {
        assert(outv[i] == out@[i]@);
    }
    set_folders_and_selection(app, out, sel);
}

// ---------------------------------------------------------------------------------------
// Rescans
// ---------------------------------------------------------------------------------------

/// A configured folder's canonical form, where it has one, contains `dir`.
pub open spec fn spec_entry_covers(entry: Option<Seq<char>>, dir: Seq<char>) -> bool {
    match entry {
        Some(c) => spec_path_starts_with(dir, c),
        None => false,
    }
}

/// Some configured folder contains `dir`.
pub open spec fn spec_dir_covered(canon_of: Seq<Option<Seq<char>>>, dir: Seq<char>) -> bool {
    exists|i: int| 0 <= i < canon_of.len() && spec_entry_covers(#[trigger] canon_of[i], dir)
}

/// Whether a finished download's folder already lies inside the library; when it does not,
/// the folder is added to the configured paths.
pub fn download_dir_covered(canon_of: &Vec<Option<String>>, dir: &str) -> (r: bool)
    ensures
        r == spec_dir_covered(crate::cli::opt_views(canon_of@), dir@),
{
    let ghost v = crate::cli::opt_views(canon_of@);
    let mut i: usize = 0;
    while i < canon_of.len()
        invariant
            i <= canon_of@.len(),
            v == crate::cli::opt_views(canon_of@),
            forall|j: int| 0 <= j < i ==> !spec_entry_covers(#[trigger] v[j], dir@),
        decreases canon_of.len() - i,
    {
        assert(v[i as int] == crate::state::opt_chars(canon_of@[i as int]));
        let hit = match &canon_of[i] {
            Some(c) => path_starts_with(dir, c.as_str()),
            None => false,
        };
        if hit {
            assert(spec_entry_covers(v[i as int], dir@));
            return true;
        }
        i = i + 1;
    }
    false
}

/// What a rescan request leads to.
#[derive(Debug)]
pub enum RescanStart {
    /// A scan is running; the request is remembered and done when it finishes.
    Busy,
    /// No configured folder exists.
    NoFolders,
    /// Scan now; carries the id of the playing track, to find it again afterwards.
    Start(Option<String>),
}

pub open spec fn spec_busy_message() -> Seq<char> {
    "Rescan already in progress; will rescan when complete."@
}

/// The id of the playing track, if the index points into the library.
pub open spec fn spec_playing_id(m: AppModel) -> Option<Seq<char>> {
    match m.player.current_index {
        Some(i) => if i < m.library.len() {
            Some(m.library[i as int].id)
        } else {
            None
        },
        None => None,
    }
}

fn set_pending_with_message(app: &mut AppState, msg: String)
    ensures
        final(app)@ == (AppModel { rescan_pending: true, message: Some(msg@), ..old(app)@ }),
{
    app.rescan_pending = true;
    app.message = Some(msg);
}

fn set_message(app: &mut AppState, msg: String)
    ensures
        final(app)@ == (AppModel { message: Some(msg@), ..old(app)@ }),
{
    app.message = Some(msg);
}

/// Decide on a rescan request. `scanning` tells whether a scan holds the single-flight
/// flag; `roots` is how many configured folders exist.
pub fn plan_rescan(app: &mut AppState, scanning: bool, roots: usize) -> (r: RescanStart)
    ensures
        scanning ==> r is Busy && final(app)@ == (AppModel {
            rescan_pending: true,
            message: Some(spec_busy_message()),
            ..old(app)@
        }),
        !scanning && roots == 0 ==> r is NoFolders && final(app)@ == (AppModel {
            message: Some("No library folders to scan."@),
            ..old(app)@
        }),
        !scanning && roots > 0 ==> final(app)@ == old(app)@ && match r {
            RescanStart::Start(id) => crate::state::opt_chars(id) == spec_playing_id(old(app)@),
            _ => false,
        },
{
    if scanning {
        set_pending_with_message(
            app,
            String::from_str("Rescan already in progress; will rescan when complete."),
        );
        return RescanStart::Busy;
    }
    if roots == 0 {
        set_message(app, String::from_str("No library folders to scan."));
        return RescanStart::NoFolders;
    }
    let id = match app.player.current_index {
        Some(i) => if i < app.library.len() {
            Some(app.library[i].id.clone())
        } else {
            None
        },
        None => None,
    };
    RescanStart::Start(id)
}

/// The scan could not take the single-flight flag after all: say so.
pub fn rescan_refused(app: &mut AppState)
    ensures
        final(app)@ == (AppModel { message: Some(spec_busy_message()), ..old(app)@ }),
{
    set_message(app, String::from_str("Rescan already in progress; will rescan when complete."));
}

/// A scan has started.
pub fn mark_rescanning(app: &mut AppState)
    ensures
        final(app)@ == (AppModel { is_rescanning: true, ..old(app)@ }),
{
    app.is_rescanning = true;
}

/// Where the track with this id sits in the library.
pub open spec fn spec_find_id(lib: Seq<TrackModel>, id: Seq<char>) -> Option<int> {
    first_where(lib, |t: TrackModel| t.id == id)
}

/// The playing index after the library was replaced: the track with the remembered id, or
/// nothing when it is gone; unchanged when no id was remembered.
pub open spec fn spec_repoint(current: Option<usize>, lib: Seq<TrackModel>, id: Option<Seq<char>>) -> Option<usize> {
    match id {
        Some(id) => match spec_find_id(lib, id) {
            Some(i) => Some(i as usize),
            None => None,
        },
        None => current,
    }
}

/// The state once a scan finished with `tracks`.
pub open spec fn spec_scan_done(
    m: AppModel,
    tracks: Seq<TrackModel>,
    id: Option<Seq<char>>,
    now: u64,
) -> AppModel {
    AppModel {
        library: tracks,
        library_folders: spec_recount(tracks, m.library_folders, now),
        player: crate::events::PlayerState {
            current_index: spec_repoint(m.player.current_index, tracks, id),
            ..m.player
        },
        is_rescanning: false,
        message: Some(
            "Rescan complete. Found "@ + spec_decimal(tracks.len()) + " tracks."@,
        ),
        ..m
    }
}

fn find_id(lib: &Vec<Track>, id: &String) -> (r: Option<usize>)
    ensures
        match r {
            Some(i) => spec_find_id(lib@.map_values(|t: Track| t@), id@) == Some(i as int),
            None => spec_find_id(lib@.map_values(|t: Track| t@), id@) is None,
        },
{
    let ghost lv = lib@.map_values(|t: Track| t@);
    let ghost p = |t: TrackModel| t.id == id@;
    let mut i: usize = 0;
    while i < lib.len()
        invariant
            i <= lib@.len(),
            lv == lib@.map_values(|t: Track| t@),
            p == (|t: TrackModel| t.id == id@),
            forall|j: int| 0 <= j < i ==> !p(lv[j]),
        decreases lib.len() - i,
    {
        assert(lv[i as int] == lib@[i as int]@);
        if crate::text::chars_eq(
            &crate::text::chars_of(lib[i].id.as_str()),
            &crate::text::chars_of(id.as_str()),
        ) {
            proof {
                lemma_first_where_found(lv, p, i as int);
            }
            return Some(i);
        }
        i = i + 1;
    }
    proof {
        lemma_first_where_none(lv, p);
    }
    None
}

fn install_library(app: &mut AppState, tracks: Vec<Track>)
    ensures
        final(app)@ == (AppModel { library: tracks@.map_values(|t: Track| t@), ..old(app)@ }),
{
    app.library = tracks;
}

fn finish_scan(app: &mut AppState, current: Option<usize>, msg: String)
    ensures
        final(app)@ == (AppModel {
            player: crate::events::PlayerState { current_index: current, ..old(app)@.player },
            is_rescanning: false,
            message: Some(msg@),
            ..old(app)@
        }),
{
    app.player.current_index = current;
    app.is_rescanning = false;
    app.message = Some(msg);
}

/// Install the tracks of a finished scan: folder counts are refreshed, the playing track is
/// found again by its id, and the result is announced.
pub fn apply_scan_done(app: &mut AppState, tracks: Vec<Track>, id: Option<String>, now: u64)
    ensures
        final(app)@ == spec_scan_done(
            old(app)@,
            tracks@.map_values(|t: Track| t@),
            crate::state::opt_chars(id),
            now,
        ),
{
    let n = tracks.len();
    install_library(app, tracks);
    recompute_folder_counts(app, now);
    let current = match &id {
        Some(s) => match find_id(&app.library, s) {
            Some(i) => Some(i),
            None => None,
        },
        None => app.player.current_index,
    };
    let msg = String::from_str("Rescan complete. Found ").concat(decimal(n as u64).as_str()).concat(
        " tracks.",
    );
    finish_scan(app, current, msg);
}

// ---------------------------------------------------------------------------------------
// Adding and removing folders
// ---------------------------------------------------------------------------------------

/// A folder given to "add" is not a directory; `shown` is the path as expanded.
pub fn not_a_directory(app: &mut AppState, shown: &str)
    ensures
        final(app)@ == (AppModel { message: Some("Not a directory: "@ + shown@), ..old(app)@ }),
{
    set_message(app, String::from_str("Not a directory: ").concat(shown));
}

/// A folder could not be resolved; the error text is shown.
pub fn show_problem(app: &mut AppState, text: String)
    ensures
        final(app)@ == (AppModel { message: Some(text@), ..old(app)@ }),
{
    set_message(app, text);
}

/// Take the canonical folder `canon` into the configured paths unless an entry already
/// resolves to it (`canon_of` holds each entry's canonical form, when it has one). A
/// duplicate is refused with a toast.
pub fn admit_folder(
    app: &mut AppState,
    canon: &str,
    canon_of: &Vec<Option<String>>,
    paths: &mut Vec<String>,
) -> (added: bool)
    ensures
        added == (crate::cli::spec_first_match(crate::cli::opt_views(canon_of@), canon@) is None),
        added ==> crate::theme::strings_view(final(paths)@) == crate::theme::strings_view(
            old(paths)@,
        ).push(canon@) && final(app)@ == old(app)@,
        !added ==> final(paths)@ == old(paths)@ && final(app)@ == (AppModel {
            message: Some("Folder already in library."@),
            ..old(app)@
        }),
{
    match crate::cli::first_canonical_match(canon_of, canon) {
        Some(_) => {
            set_message(app, String::from_str("Folder already in library."));
            false
        },
        None => {
            let ghost before = crate::theme::strings_view(paths@);
            paths.push(String::from_str(canon));
            assert(crate::theme::strings_view(paths@) =~= before.push(canon@));
            true
        },
    }
}

/// The folders follow the configured `paths` again, and `message` is shown.
pub fn resync_with_message(app: &mut AppState, paths: &Vec<String>, message: String)
    ensures
        final(app)@.library_folders.len() == paths@.len(),
        forall|i: int|
            0 <= i < paths@.len() ==> {
                let f = #[trigger] final(app)@.library_folders[i];
                &&& spec_expansion_of(f.path, paths@[i]@)
                &&& f.track_count == 0
                &&& f.last_scanned is None
            },
        final(app)@ == (AppModel {
            library_folders: final(app)@.library_folders,
            selected_folder: spec_folder_selection(old(app)@.selected_folder, paths@.len()),
            message: Some(message@),
            ..old(app)@
        }),
{
    sync_library_folders_from_config(app, paths);
    set_message(app, message);
}

/// The configured paths without the entries that resolve to `target`.
pub open spec fn spec_without(
    paths: Seq<Seq<char>>,
    canon_of: Seq<Option<Seq<char>>>,
    target: Seq<char>,
) -> Seq<Seq<char>>
    decreases paths.len(),
{
    if paths.len() == 0 {
        Seq::empty()
    } else {
        let r = spec_without(paths.drop_last(), canon_of.drop_last(), target);
        if canon_of.last() == Some(target) {
            r
        } else {
            r.push(paths.last())
        }
    }
}

/// Drop every configured path that resolves to `target`; says whether one was dropped.
pub fn retain_other_folders(
    paths: &mut Vec<String>,
    canon_of: &Vec<Option<String>>,
    target: &str,
) -> (removed: bool)
    requires
        canon_of@.len() == old(paths)@.len(),
    ensures
        crate::theme::strings_view(final(paths)@) == spec_without(
            crate::theme::strings_view(old(paths)@),
            crate::cli::opt_views(canon_of@),
            target@,
        ),
        removed == (final(paths)@.len() < old(paths)@.len()),
{
    let ghost pv = crate::theme::strings_view(paths@);
    let ghost cv = crate::cli::opt_views(canon_of@);
    let t = chars_of_str(target);
    let mut kept: Vec<String> = Vec::new();
    let mut i: usize = 0;
    let n = paths.len();
    while i < n
        invariant
            n == paths@.len(),
            canon_of@.len() == n,
            i <= n,
            pv == crate::theme::strings_view(paths@),
            cv == crate::cli::opt_views(canon_of@),
            t@ == target@,
            crate::theme::strings_view(kept@) == spec_without(
                pv.subrange(0, i as int),
                cv.subrange(0, i as int),
                target@,
            ),
            kept@.len() <= i,
        decreases n - i,
    {
        assert(pv.subrange(0, i + 1).drop_last() =~= pv.subrange(0, i as int));
        assert(cv.subrange(0, i + 1).drop_last() =~= cv.subrange(0, i as int));
        assert(cv[i as int] == crate::state::opt_chars(canon_of@[i as int]));
        assert(pv[i as int] == paths@[i as int]@);
        let hit = match &canon_of[i] {
            Some(c) => crate::text::chars_eq(&crate::text::chars_of(c.as_str()), &t),
            None => false,
        };
        if !hit {
            let ghost before = crate::theme::strings_view(kept@);
            kept.push(paths[i].clone());
            assert(crate::theme::strings_view(kept@) =~= before.push(pv[i as int]));
        }
        i = i + 1;
    }
    assert(pv.subrange(0, n as int) =~= pv);
    assert(cv.subrange(0, n as int) =~= cv);
    let removed = kept.len() < n;
    *paths = kept;
    removed
}

fn chars_of_str(s: &str) -> (r: Vec<char>)
    ensures
        r@ == s@,
{
    crate::text::chars_of(s)
}

/// The toast after a folder was removed from the config.
pub open spec fn spec_removed_message(remaining: nat, shown: Seq<char>) -> Seq<char> {
    if remaining == 0 {
        "All library folders removed. Press 'a' to add a new one."@
    } else {
        "Removed: "@ + shown
    }
}

/// The message for a removal, given how many folders remain.
pub fn removed_message(remaining: usize, shown: &str) -> (r: String)
    ensures
        r@ == spec_removed_message(remaining as nat, shown@),
{
    if remaining == 0 {
        String::from_str("All library folders removed. Press 'a' to add a new one.")
    } else {
        String::from_str("Removed: ").concat(shown)
    }
}

/// No configured entry resolved to the folder being removed.
pub fn folder_not_removed(app: &mut AppState)
    ensures
        final(app)@ == (AppModel {
            message: Some("Could not remove folder from config."@),
            ..old(app)@
        }),
{
    set_message(app, String::from_str("Could not remove folder from config."));
}

} // verus!
