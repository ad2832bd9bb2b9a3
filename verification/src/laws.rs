//! Properties of the library as a whole: cycles that come back to their start, config
//! spellings that read back, what key presses can and cannot do, facts about search
//! hits, deduplication and rescans, and the shape of track ids and theme keys.

use vstd::prelude::*;

use crate::dispatch::{
    spec_key_acceptable, spec_open_settings, spec_consent_key, spec_dispatch, spec_manager_key, spec_normal_command, spec_normal_key,
    spec_prompt_key, spec_run_normal, spec_search_key, spec_settings_key, spec_steps_back,
    NormalCommand,
};
use crate::events::{
    spec_clamp_selection, spec_enter_play, spec_filter_hits, spec_filter_selection,
    spec_lowered_hays, spec_next_track, spec_play_pos, spec_prev_track, spec_prev_track_safe,
    spec_recompute_filter, spec_visible, spec_cycle_visualizer, spec_hits, spec_next_repeat,
    spec_next_spectrogram,
    spec_visualizer_from_digit, spec_viz_pos, AppModel, ConfigChange, ConfigPaths, EffectModel, Key,
    KeyPress, VIZ_ORDER,
};
use crate::downloads::spec_missing_tools_prompt;
use crate::fetcher::MissingTool;
use crate::library::{spec_find_id, spec_repoint, spec_scan_done};
use crate::view::{spec_window_end, spec_window_selection, spec_window_start};
use crate::scanner::{spec_clean_title, spec_dedupe, spec_track_fields};
use crate::color::{spec_hex_digit, spec_hex_text, spec_parse_hex};
use crate::player::{lemma_shuffle_pick_avoids_current, spec_advance, AdvanceAction};
use crate::state::{
    spec_repeat_from_key, spec_repeat_str, spec_spectrogram_from_key, spec_spectrogram_str,
    spec_visualizer_from_key, spec_visualizer_name, InputMode, PanelFocus, RepeatMode,
    SpectrogramMode, TrackModel, VisualizerMode,
};
use crate::state::spec_hex;
use crate::text::{
    spec_all_ascii, spec_ascii_lower, spec_contains, spec_is_whitespace, spec_lowercase, spec_trim,
    spec_trim_end, spec_trim_start,
};
use crate::theme::{
    lemma_first_where_spec, spec_builtin, spec_dracula, spec_monochrome, spec_nord,
    spec_normalize_theme_key, spec_resolve_theme, spec_synthwave, spec_theme_key,
    spec_tokyo_night, spec_keys_distinct, first_where,
};
use crate::theme::{lemma_first_where_found, ThemeModel};
use crate::events::PlayerState;

verus! {

// ---------------------------------------------------------------------------------------
// Cycles
// ---------------------------------------------------------------------------------------

/// Pressing `r` three times brings the repeat mode back (off → all → one → off).
pub proof fn law_repeat_cycle(r: RepeatMode)
    ensures
        spec_next_repeat(spec_next_repeat(spec_next_repeat(r))) == r,
        spec_next_repeat(r) != r,
{
}

/// `Shift+M` three times brings the spectrogram layout back.
pub proof fn law_spectrogram_cycle(m: SpectrogramMode)
    ensures
        spec_next_spectrogram(spec_next_spectrogram(spec_next_spectrogram(m))) == m,
        spec_next_spectrogram(m) != m,
{
}

/// `V` undoes `v` and `v` undoes `V`.
pub proof fn law_visualizer_steps_undo(v: VisualizerMode)
    ensures
        spec_cycle_visualizer(spec_cycle_visualizer(v, false), true) == v,
        spec_cycle_visualizer(spec_cycle_visualizer(v, true), false) == v,
{
}

/// The visualizer `n` steps forward.
pub open spec fn spec_forward(v: VisualizerMode, n: nat) -> VisualizerMode
    decreases n,
{
    if n == 0 {
        v
    } else {
        spec_cycle_visualizer(spec_forward(v, (n - 1) as nat), false)
    }
}

proof fn lemma_viz_pos_injective(a: VisualizerMode, b: VisualizerMode)
    requires
        spec_viz_pos(a) == spec_viz_pos(b),
    ensures
        a == b,
{
}

proof fn lemma_step_pos(v: VisualizerMode)
    ensures
        spec_viz_pos(spec_cycle_visualizer(v, false)) == (spec_viz_pos(v) + 1) % 8,
{
}

proof fn lemma_forward_pos(v: VisualizerMode, k: nat)
    ensures
        spec_viz_pos(spec_forward(v, k)) == (spec_viz_pos(v) + k) % 8,
    decreases k,
{
    if k > 0 {
        lemma_forward_pos(v, (k - 1) as nat);
        let prev = spec_forward(v, (k - 1) as nat);
        lemma_step_pos(prev);
        let p = spec_viz_pos(v);
        assert(0 <= p < 8);
        assert(((p + (k - 1)) % 8 + 1) % 8 == (p + k) % 8) by {
            vstd::arithmetic::div_mod::lemma_add_mod_noop(p + (k - 1), 1, 8);
            vstd::arithmetic::div_mod::lemma_mod_twice(p + (k - 1), 8);
            vstd::arithmetic::div_mod::lemma_small_mod(1, 8);
        }
    } else {
        vstd::arithmetic::div_mod::lemma_small_mod(spec_viz_pos(v) as nat, 8);
    }
}

/// Stepping forward visits every visualizer and wraps after eight steps: after `k` steps
/// the mode is the one `k` places further in the order.
pub proof fn law_visualizer_cycle_wraps(v: VisualizerMode, k: nat)
    ensures
        spec_viz_pos(spec_forward(v, k)) == (spec_viz_pos(v) + k) % 8,
        spec_forward(v, 8) == v,
{
    lemma_forward_pos(v, k);
    lemma_forward_pos(v, 8);
    let p = spec_viz_pos(v);
    assert((p + 8) % 8 == p) by {
        vstd::arithmetic::div_mod::lemma_mod_add_multiples_vanish(p, 8);
        vstd::arithmetic::div_mod::lemma_small_mod(p as nat, 8);
    }
    lemma_viz_pos_injective(spec_forward(v, 8), v);
}

/// The digit keys follow the cycle order: `1` picks the first visualizer, each next digit
/// the visualizer one step forward, and `8` is followed by `1`; `9` picks none.
pub proof fn law_digits_follow_cycle(d: char)
    requires
        '1' <= d <= '7',
    ensures
        spec_visualizer_from_digit(d) matches Some(v) && spec_visualizer_from_digit(
            ((d as u32) + 1) as char,
        ) == Some(spec_cycle_visualizer(v, false)),
        spec_visualizer_from_digit('1') == Some(VisualizerMode::Spectrum),
        spec_visualizer_from_digit('8') matches Some(v8) && spec_cycle_visualizer(v8, false)
            == VisualizerMode::Spectrum,
        spec_visualizer_from_digit('9') is None,
{
}

/// Cycling the builtin theme keys visits all five and comes back after five steps.
pub proof fn law_theme_keys_cycle(i: int)
    requires
        0 <= i < 5,
    ensures
        ({
            let k0 = crate::theme::BUILTIN_THEME_ORDER[i]@;
            let k1 = crate::theme::spec_next_builtin_key(k0);
            let k2 = crate::theme::spec_next_builtin_key(k1);
            let k3 = crate::theme::spec_next_builtin_key(k2);
            let k4 = crate::theme::spec_next_builtin_key(k3);
            &&& crate::theme::spec_next_builtin_key(k4) == k0
            &&& k1 == crate::theme::BUILTIN_THEME_ORDER[(i + 1) % 5]@
        }),
{
    crate::theme::lemma_next_builtin(i);
    crate::theme::lemma_next_builtin((i + 1) % 5);
    crate::theme::lemma_next_builtin((i + 2) % 5);
    crate::theme::lemma_next_builtin((i + 3) % 5);
    crate::theme::lemma_next_builtin((i + 4) % 5);
    assert(((i + 1) % 5 + 1) % 5 == (i + 2) % 5);
    assert(((i + 2) % 5 + 1) % 5 == (i + 3) % 5);
    assert(((i + 3) % 5 + 1) % 5 == (i + 4) % 5);
    assert(((i + 4) % 5 + 1) % 5 == i);
}

// ---------------------------------------------------------------------------------------
// Config spellings
// ---------------------------------------------------------------------------------------

/// Every repeat mode, spectrogram layout and visualizer reads back from its config
/// spelling.
pub proof fn law_config_spellings_read_back(r: RepeatMode, s: SpectrogramMode, v: VisualizerMode)
    ensures
        spec_repeat_from_key(spec_repeat_str(r)) == r,
        spec_spectrogram_from_key(spec_spectrogram_str(s)) == s,
        spec_visualizer_from_key(spec_visualizer_name(v)) == Some(v),
{
    reveal_strlit("off");
    reveal_strlit("all");
    reveal_strlit("one");
    reveal_strlit("standard");
    reveal_strlit("inverted");
    reveal_strlit("mirrored");
    reveal_strlit("spectrum");
    reveal_strlit("spectrogram");
    reveal_strlit("oscilloscope");
    reveal_strlit("vectorscope");
    reveal_strlit("supernova");
    reveal_strlit("pulse_rings");
    reveal_strlit("band_meter");
    reveal_strlit("particles");
    assert("off"@[0] != "all"@[0]);
    assert("off"@[1] != "one"@[1]);
    assert("all"@[0] != "one"@[0]);
    assert("standard"@[0] != "inverted"@[0]);
    assert("standard"@[0] != "mirrored"@[0]);
    assert("inverted"@[0] != "mirrored"@[0]);
    assert("spectrogram"@.len() != "spectrum"@.len());
    assert("oscilloscope"@.len() != "spectrum"@.len());
    assert("oscilloscope"@.len() != "spectrogram"@.len());
    assert("vectorscope"@.len() != "spectrum"@.len());
    assert("vectorscope"@[0] != "spectrogram"@[0]);
    assert("vectorscope"@.len() != "oscilloscope"@.len());
    assert("supernova"@.len() != "spectrum"@.len());
    assert("supernova"@.len() != "spectrogram"@.len());
    assert("supernova"@.len() != "oscilloscope"@.len());
    assert("supernova"@.len() != "vectorscope"@.len());
    assert("pulse_rings"@.len() != "spectrum"@.len());
    assert("pulse_rings"@[0] != "spectrogram"@[0]);
    assert("pulse_rings"@.len() != "oscilloscope"@.len());
    assert("pulse_rings"@[0] != "vectorscope"@[0]);
    assert("pulse_rings"@.len() != "supernova"@.len());
    assert("band_meter"@.len() != "spectrum"@.len());
    assert("band_meter"@.len() != "spectrogram"@.len());
    assert("band_meter"@.len() != "oscilloscope"@.len());
    assert("band_meter"@.len() != "vectorscope"@.len());
    assert("band_meter"@.len() != "supernova"@.len());
    assert("band_meter"@.len() != "pulse_rings"@.len());
    assert("particles"@.len() != "spectrum"@.len());
    assert("particles"@.len() != "spectrogram"@.len());
    assert("particles"@.len() != "oscilloscope"@.len());
    assert("particles"@.len() != "vectorscope"@.len());
    assert("particles"@[0] != "supernova"@[0]);
    assert("particles"@.len() != "pulse_rings"@.len());
    assert("particles"@.len() != "band_meter"@.len());
}

// ---------------------------------------------------------------------------------------
// Key presses
// ---------------------------------------------------------------------------------------

proof fn lemma_modes_keep_quit_and_layout(m: AppModel, k: KeyPress)
    ensures
        spec_settings_key(m, k).0.quit == m.quit,
        spec_settings_key(m, k).0.spectrogram_mode == m.spectrogram_mode,
        spec_search_key(m, k).0.quit == m.quit,
        spec_search_key(m, k).0.spectrogram_mode == m.spectrogram_mode,
        spec_prompt_key(m, k).0.quit == m.quit,
        spec_prompt_key(m, k).0.spectrogram_mode == m.spectrogram_mode,
        spec_manager_key(m, k).0.quit == m.quit,
        spec_manager_key(m, k).0.spectrogram_mode == m.spectrogram_mode,
        spec_consent_key(m, k).0.quit == m.quit,
        spec_consent_key(m, k).0.spectrogram_mode == m.spectrogram_mode,
{
}

proof fn lemma_commands_keep_quit(m: AppModel, cmd: NormalCommand)
    ensures
        spec_run_normal(m, cmd).0.quit == m.quit,
        spec_run_normal(m, cmd).0.spectrogram_mode != m.spectrogram_mode ==> cmd
            == NormalCommand::CycleSpectrogram,
{
}

proof fn lemma_spectrogram_command(k: KeyPress, active: bool)
    ensures
        spec_normal_command(k, active) == NormalCommand::CycleSpectrogram ==> k.shift && active,
{
}

proof fn lemma_normal_key_frame(m: AppModel, k: KeyPress)
    ensures
        spec_normal_key(m, k).0.quit && !m.quit ==> k.code == Key::Esc && m.deps_prompt is None
            && !m.show_help && !m.show_library_manager,
        spec_normal_key(m, k).0.spectrogram_mode != m.spectrogram_mode ==> m.visualizer_mode
            == VisualizerMode::Spectrogram && k.shift,
{
    lemma_modes_keep_quit_and_layout(m, k);
    let cmd = spec_normal_command(k, m.visualizer_mode == VisualizerMode::Spectrogram);
    lemma_commands_keep_quit(m, cmd);
    lemma_spectrogram_command(k, m.visualizer_mode == VisualizerMode::Spectrogram);
}

/// Only two keys end the session: `q` (without Ctrl) in normal mode, and `Esc` in normal
/// mode when no prompt, help or library overlay is open.
pub proof fn law_only_q_or_esc_quits(m: AppModel, k: KeyPress, cfg: ConfigPaths)
    requires
        !m.quit,
        spec_dispatch(m, k, cfg).0.quit,
    ensures
        m.input_mode == InputMode::Normal,
        (k.code == Key::Char('q') && !k.ctrl) || (k.code == Key::Esc && m.deps_prompt is None
            && !m.show_help && !m.show_library_manager),
{
    lemma_modes_keep_quit_and_layout(m, k);
    lemma_normal_key_frame(m, k);
}

/// `F2` opens the Settings overlay from every mode.
pub proof fn law_f2_opens_settings(m: AppModel, k: KeyPress, cfg: ConfigPaths)
    requires
        k.code == Key::F(2),
    ensures
        spec_dispatch(m, k, cfg).0.show_settings,
        spec_dispatch(m, k, cfg).0.input_mode == InputMode::Settings,
{
}

/// The spectrogram layout only changes while the Spectrogram visualizer is shown.
pub proof fn law_spectrogram_layout_needs_spectrogram(m: AppModel, k: KeyPress, cfg: ConfigPaths)
    requires
        spec_dispatch(m, k, cfg).0.spectrogram_mode != m.spectrogram_mode,
    ensures
        m.visualizer_mode == VisualizerMode::Spectrogram,
        k.shift,
{
    lemma_modes_keep_quit_and_layout(m, k);
    lemma_normal_key_frame(m, k);
}

/// In normal mode, with no prompt or overlay open, `Tab` three times restores the layout
/// (list + visualizer → visualizer only → full screen → back), starting from any layout
/// that `Tab` itself reaches.
pub proof fn law_tab_cycles(m: AppModel, cfg: ConfigPaths)
    requires
        m.input_mode == InputMode::Normal,
        m.deps_prompt is None,
        !m.show_help,
        !m.show_library_manager,
        !(m.is_fullscreen && m.panel_focus == PanelFocus::Normal),
    ensures
        ({
            let tab = KeyPress { code: Key::Tab, shift: false, ctrl: false };
            let m1 = spec_dispatch(m, tab, cfg).0;
            let m2 = spec_dispatch(m1, tab, cfg).0;
            let m3 = spec_dispatch(m2, tab, cfg).0;
            m3 == m && (m1.is_fullscreen, m1.panel_focus) != (m.is_fullscreen, m.panel_focus)
        }),
{
}

/// In normal mode, with no prompt or overlay open, `m` undoes itself: two presses give the
/// state back. `g` and `s` likewise give back the glow and shuffle settings (only the toast
/// differs), and the second press saves the starting setting again.
pub proof fn law_toggles_undo(m: AppModel, cfg: ConfigPaths)
    requires
        m.input_mode == InputMode::Normal,
        m.deps_prompt is None,
        !m.show_help,
        !m.show_library_manager,
    ensures
        ({
            let k = KeyPress { code: Key::Char('m'), shift: false, ctrl: false };
            let m1 = spec_dispatch(m, k, cfg).0;
            spec_dispatch(m1, k, cfg).0 == m && m1.player.muted != m.player.muted
        }),
        ({
            let k = KeyPress { code: Key::Char('g'), shift: false, ctrl: false };
            let m1 = spec_dispatch(m, k, cfg).0;
            let (m2, e2) = spec_dispatch(m1, k, cfg);
            &&& m1.neon_enabled != m.neon_enabled
            &&& m2 == (AppModel { message: m2.message, ..m })
            &&& e2 == seq![
                EffectModel::ToastShown,
                EffectModel::Persist(ConfigChange::Neon(m.neon_enabled)),
            ]
        }),
        ({
            let k = KeyPress { code: Key::Char('s'), shift: false, ctrl: false };
            let m1 = spec_dispatch(m, k, cfg).0;
            let (m2, e2) = spec_dispatch(m1, k, cfg);
            &&& m1.player.shuffle != m.player.shuffle
            &&& m2 == (AppModel { message: m2.message, ..m })
            &&& e2 == seq![
                EffectModel::ToastShown,
                EffectModel::Persist(ConfigChange::Shuffle(m.player.shuffle)),
            ]
        }),
{
}

/// `Esc` abandons text entry. In the search prompt it clears the search, so the whole
/// library is listed again, and returns to normal mode; in the download and add-folder
/// prompts it discards the text and returns to the library manager when that is open, else to
/// normal mode. The library and playback are untouched and nothing is asked of the caller.
pub proof fn law_escape_abandons_typing(m: AppModel, cfg: ConfigPaths)
    requires
        m.input_mode == InputMode::Search || m.input_mode == InputMode::DownloadUrl
            || m.input_mode == InputMode::AddLibraryPath,
    ensures
        ({
            let esc = KeyPress { code: Key::Esc, shift: false, ctrl: false };
            let (m2, e) = spec_dispatch(m, esc, cfg);
            &&& e.len() == 0
            &&& m2.input_buffer.len() == 0
            &&& m2.library == m.library
            &&& m2.player == m.player
            &&& m.input_mode == InputMode::Search ==> m2.input_mode == InputMode::Normal
                && m2.search_query is None && spec_visible(m2) == Seq::new(
                m.library.len(),
                |i: int| i as usize,
            )
            &&& m.input_mode != InputMode::Search ==> m2.input_mode == (if m.show_library_manager {
                InputMode::LibraryManager
            } else {
                InputMode::Normal
            })
        }),
{
}

/// The library list scrolls with the cursor: when anything is listed, the selected row lies
/// inside the window of rows drawn, and the window holds at most `height` rows (one when the
/// height is zero) and never runs past the list.
pub proof fn law_selection_stays_visible(m: AppModel, height: nat)
    requires
        spec_visible(m).len() > 0,
    ensures
        spec_window_start(m, height) <= spec_window_selection(m) < spec_window_end(m, height),
        spec_window_end(m, height) <= spec_visible(m).len(),
        spec_window_end(m, height) - spec_window_start(m, height) <= (if height > 0 {
            height
        } else {
            1
        }),
{
}

/// What is held for consent is what is handed on. Once a download (`url` with its format
/// and folder) is held because the tools `missing` are absent (the state `queue_download`
/// leaves), `y` asks to fetch exactly those tools and then run exactly that download, and
/// clears the prompt; `n` drops both and says so.
pub proof fn law_consent_hands_on_held_download(
    m: AppModel,
    url: url::Url,
    format: Seq<char>,
    folder: Seq<char>,
    missing: Seq<MissingTool>,
    cfg: ConfigPaths,
)
    requires
        m.input_mode == InputMode::Normal,
    ensures
        ({
            let held = AppModel {
                pending_fetch: Some((url, (format, folder))),
                deps_prompt: Some(missing),
                message: Some(spec_missing_tools_prompt()),
                ..m
            };
            let yes = spec_dispatch(held, KeyPress { code: Key::Char('y'), shift: false, ctrl: false }, cfg);
            let no = spec_dispatch(held, KeyPress { code: Key::Char('n'), shift: false, ctrl: false }, cfg);
            &&& yes.1 == seq![EffectModel::StartDepsDownload(missing, Some((url, (format, folder))))]
            &&& yes.0.deps_prompt is None && yes.0.pending_fetch is None
            &&& no.1 == seq![EffectModel::ToastShown]
            &&& no.0.deps_prompt is None && no.0.pending_fetch is None
        }),
{
}

// ---------------------------------------------------------------------------------------
// Search hits, deduplication, rescans
// ---------------------------------------------------------------------------------------

/// The search hits are exactly the positions below `n` whose text contains the query, in
/// increasing order.
pub proof fn law_hits_exact(hays: Seq<Seq<char>>, q: Seq<char>, n: nat)
    requires
        n <= hays.len(),
        n <= usize::MAX,
    ensures
        forall|i: int|
            0 <= i < spec_hits(hays, q, n).len() ==> (#[trigger] spec_hits(hays, q, n)[i]) < n
                && spec_contains(hays[spec_hits(hays, q, n)[i] as int], q),
        forall|i: int, j: int|
            0 <= i < j < spec_hits(hays, q, n).len() ==> spec_hits(hays, q, n)[i] < spec_hits(
                hays,
                q,
                n,
            )[j],
        forall|p: int|
            0 <= p < n && spec_contains(hays[p], q) ==> spec_hits(hays, q, n).contains(p as usize),
        spec_hits(hays, q, n).len() <= n,
    decreases n,
{
    if n > 0 {
        law_hits_exact(hays, q, (n - 1) as nat);
        let prev = spec_hits(hays, q, (n - 1) as nat);
        let cur = spec_hits(hays, q, n);
        if spec_contains(hays[n - 1], q) {
            assert(cur == prev.push((n - 1) as usize));
            assert forall|i: int| 0 <= i < cur.len() implies (#[trigger] cur[i]) < n
                && spec_contains(hays[cur[i] as int], q) by {
                if i < prev.len() {
                    assert(cur[i] == prev[i]);
                }
            }
            assert forall|i: int, j: int| 0 <= i < j < cur.len() implies cur[i] < cur[j] by {
                assert(cur[i] == prev[i]);
                if j < prev.len() {
                    assert(cur[j] == prev[j]);
                }
            }
            assert forall|p: int| 0 <= p < n && spec_contains(hays[p], q) implies cur.contains(
                p as usize,
            ) by {
                if p < n - 1 {
                    let k = choose|k: int| 0 <= k < prev.len() && prev[k] == p as usize;
                    assert(cur[k] == p as usize);
                } else {
                    assert(cur[cur.len() - 1] == p as usize);
                }
            }
        } else {
            assert(cur == prev);
            assert forall|i: int| 0 <= i < cur.len() implies (#[trigger] cur[i]) < n
                && spec_contains(hays[cur[i] as int], q) by {}
            assert forall|p: int| 0 <= p < n && spec_contains(hays[p], q) implies cur.contains(
                p as usize,
            ) by {}
        }
    }
}

/// Deduplication keeps one copy of every entry and nothing else.
pub proof fn law_dedupe(s: Seq<Seq<char>>)
    ensures
        forall|i: int, j: int|
            0 <= i < j < spec_dedupe(s).len() ==> spec_dedupe(s)[i] != spec_dedupe(s)[j],
        forall|x: Seq<char>| s.contains(x) <==> spec_dedupe(s).contains(x),
    decreases s.len(),
{
    if s.len() > 0 {
        let t = s.drop_last();
        law_dedupe(t);
        let r = spec_dedupe(t);
        let d = spec_dedupe(s);
        if r.contains(s.last()) {
            assert(d == r);
        } else {
            assert(d == r.push(s.last()));
            assert forall|i: int, j: int| 0 <= i < j < d.len() implies d[i] != d[j] by {
                assert(d[i] == r[i]);
                if j < r.len() {
                    assert(d[j] == r[j]);
                } else {
                    assert(d[j] == s.last());
                    assert(r.contains(d[i]));
                }
            }
        }
        assert forall|x: Seq<char>| s.contains(x) <==> d.contains(x) by {
            if s.contains(x) {
                let k = choose|k: int| 0 <= k < s.len() && s[k] == x;
                if k < s.len() - 1 {
                    assert(t[k] == x);
                    assert(t.contains(x));
                    assert(r.contains(x));
                    let kk = choose|kk: int| 0 <= kk < r.len() && r[kk] == x;
                    if !r.contains(s.last()) {
                        assert(d[kk] == x);
                    }
                } else {
                    assert(x == s.last());
                    if !r.contains(s.last()) {
                        assert(d[d.len() - 1] == x);
                    }
                }
            }
            if d.contains(x) {
                let k = choose|k: int| 0 <= k < d.len() && d[k] == x;
                if k < r.len() {
                    assert(r[k] == x);
                    assert(r.contains(x));
                    assert(t.contains(x));
                    let kk = choose|kk: int| 0 <= kk < t.len() && t[kk] == x;
                    assert(s[kk] == x);
                } else {
                    assert(x == s.last());
                    assert(s[s.len() - 1] == x);
                }
            }
        }
    }
}

/// After a rescan the playing index points at the track that was playing (same id), or
/// nothing plays when that track is gone.
pub proof fn law_rescan_keeps_playing_track(
    m: AppModel,
    tracks: Seq<TrackModel>,
    id: Seq<char>,
    now: u64,
)
    requires
        tracks.len() <= usize::MAX,
    ensures
        spec_scan_done(m, tracks, Some(id), now).player.current_index matches Some(i) ==> i
            < tracks.len() && tracks[i as int].id == id,
        spec_scan_done(m, tracks, Some(id), now).player.current_index is None ==> forall|j: int|
            0 <= j < tracks.len() ==> tracks[j].id != id,
{
    lemma_first_where_spec(tracks, |t: TrackModel| t.id == id);
}

// ---------------------------------------------------------------------------------------
// What every key press keeps
// ---------------------------------------------------------------------------------------

/// The state is consistent: search hits point into the library (and are no more than the
/// library), the selected row is a listed row, the playing index points into the library,
/// and the selected folder is a listed folder.
pub open spec fn spec_well_formed(m: AppModel) -> bool {
    &&& forall|i: int|
        0 <= i < m.filtered_indices.len() ==> (#[trigger] m.filtered_indices[i]) < m.library.len()
    &&& m.filtered_indices.len() <= m.library.len()
    &&& m.library.len() <= usize::MAX
    &&& spec_visible(m).len() == 0 || m.selected_track < spec_visible(m).len()
    &&& m.player.current_index matches Some(i) ==> i < m.library.len()
    &&& m.selected_folder == 0 || m.selected_folder < m.library_folders.len()
}

proof fn lemma_visible_in_library(m: AppModel)
    requires
        spec_well_formed(m),
    ensures
        forall|i: int|
            0 <= i < spec_visible(m).len() ==> (#[trigger] spec_visible(m)[i]) < m.library.len(),
        spec_visible(m).len() <= m.library.len(),
{
}

proof fn lemma_play_pos_bound(m: AppModel)
    requires
        spec_well_formed(m),
        spec_visible(m).len() > 0,
    ensures
        0 <= spec_play_pos(m) < spec_visible(m).len(),
{
    lemma_first_where_spec(
        spec_visible(m),
        |x: usize| Some(x) == m.player.current_index,
    );
}

/// In a consistent state every key can be handled (stepping back stays in range).
pub proof fn law_consistent_states_accept_every_key(m: AppModel, k: KeyPress)
    requires
        spec_well_formed(m),
    ensures
        spec_prev_track_safe(m),
        spec_key_acceptable(m, k),
{
    if m.library.len() > 0 && spec_visible(m).len() > 0 {
        lemma_play_pos_bound(m);
    }
}

proof fn lemma_recompute_keeps(m: AppModel)
    requires
        spec_well_formed(m),
    ensures
        spec_well_formed(spec_recompute_filter(m)),
{
    let r = spec_recompute_filter(m);
    let hays = spec_lowered_hays(m.library);
    let q = crate::text::spec_lowercase(m.input_buffer);
    if q.len() > 0 {
        law_hits_exact(hays, q, m.library.len());
        let hits = spec_hits(hays, q, m.library.len());
        assert(r.filtered_indices == hits);
        assert forall|i: int| 0 <= i < r.filtered_indices.len() implies (
        #[trigger] r.filtered_indices[i]) < r.library.len() by {
            assert(hits[i] < m.library.len());
        }
    } else {
        assert(r.filtered_indices.len() == 0);
    }
}

proof fn lemma_next_keeps(m: AppModel)
    requires
        spec_well_formed(m),
    ensures
        spec_next_track(m) matches Some(m2) ==> spec_well_formed(m2),
{
    let vis = spec_visible(m);
    if m.library.len() > 0 && vis.len() > 0 {
        lemma_play_pos_bound(m);
        lemma_visible_in_library(m);
        let np = (spec_play_pos(m) + 1) % (vis.len() as int);
        vstd::arithmetic::div_mod::lemma_mod_pos_bound(spec_play_pos(m) + 1, vis.len() as int);
        assert(vis[np] < m.library.len());
    }
}

proof fn lemma_prev_keeps(m: AppModel)
    requires
        spec_well_formed(m),
    ensures
        spec_prev_track(m) matches Some(m2) ==> spec_well_formed(m2),
{
    let vis = spec_visible(m);
    if m.library.len() > 0 && vis.len() > 0 {
        lemma_play_pos_bound(m);
        lemma_visible_in_library(m);
    }
}

proof fn lemma_play_keeps(m: AppModel)
    requires
        spec_well_formed(m),
    ensures
        spec_enter_play(m) matches Some((m2, _)) ==> spec_well_formed(m2),
{
}

#[verifier::spinoff_prover]
#[verifier::rlimit(60)]
proof fn lemma_commands_keep(m: AppModel, cmd: NormalCommand)
    requires
        spec_well_formed(m),
    ensures
        spec_well_formed(spec_run_normal(m, cmd).0),
{
    match cmd {
        NormalCommand::Next => lemma_next_keeps(m),
        NormalCommand::Prev => lemma_prev_keeps(m),
        NormalCommand::PlaySelected => lemma_play_keeps(m),
        NormalCommand::StartSearch => {
            let m1 = AppModel {
                input_mode: InputMode::Search,
                input_buffer: Seq::empty(),
                ..m
            };
            assert(spec_well_formed(m1));
            lemma_recompute_keeps(m1);
        },
        _ => {},
    }
}

proof fn lemma_search_keeps(m: AppModel, k: KeyPress)
    requires
        spec_well_formed(m),
    ensures
        spec_well_formed(spec_search_key(m, k).0),
{
    let m1 = AppModel { input_buffer: crate::dispatch::spec_erase(m.input_buffer), ..m };
    lemma_recompute_keeps(m1);
    match k.code {
        Key::Char(c) => {
            let m2 = AppModel { input_buffer: m.input_buffer.push(c), ..m };
            lemma_recompute_keeps(m2);
        },
        _ => {},
    }
}

proof fn lemma_settings_keeps(m: AppModel, k: KeyPress)
    requires
        spec_well_formed(m),
    ensures
        spec_well_formed(spec_settings_key(m, k).0),
{
}

proof fn lemma_prompt_keeps(m: AppModel, k: KeyPress)
    requires
        spec_well_formed(m),
    ensures
        spec_well_formed(spec_prompt_key(m, k).0),
{
}

proof fn lemma_manager_keeps(m: AppModel, k: KeyPress)
    requires
        spec_well_formed(m),
    ensures
        spec_well_formed(spec_manager_key(m, k).0),
{
}

proof fn lemma_consent_keeps(m: AppModel, k: KeyPress)
    requires
        spec_well_formed(m),
    ensures
        spec_well_formed(spec_consent_key(m, k).0),
{
}

proof fn lemma_normal_key_keeps(m: AppModel, k: KeyPress)
    requires
        spec_well_formed(m),
    ensures
        spec_well_formed(spec_normal_key(m, k).0),
{
    lemma_consent_keeps(m, k);
    let cmd = spec_normal_command(k, m.visualizer_mode == VisualizerMode::Spectrogram);
    lemma_commands_keep(m, cmd);
}

/// Every key press keeps a consistent state consistent.
pub proof fn law_keys_keep_state_consistent(m: AppModel, k: KeyPress, cfg: ConfigPaths)
    requires
        spec_well_formed(m),
    ensures
        spec_well_formed(spec_dispatch(m, k, cfg).0),
{
    if m.input_mode == InputMode::Normal && k.code == Key::Char('q') && !k.ctrl {
    } else if k.code == Key::F(2) {
        assert(spec_well_formed(spec_open_settings(m, cfg)));
    } else {
        match m.input_mode {
            InputMode::Settings => lemma_settings_keeps(m, k),
            InputMode::Search => lemma_search_keeps(m, k),
            InputMode::DownloadUrl | InputMode::AddLibraryPath => lemma_prompt_keeps(m, k),
            InputMode::LibraryManager => lemma_manager_keeps(m, k),
            InputMode::Normal => lemma_normal_key_keeps(m, k),
        }
    }
}

// ---------------------------------------------------------------------------------------
// Track ids and theme keys
// ---------------------------------------------------------------------------------------

/// `c` is one of `0`–`9` or `a`–`f`.
pub open spec fn spec_is_lower_hex_char(c: char) -> bool {
    ('0' <= c && c <= '9') || ('a' <= c && c <= 'f')
}

/// A track id is lowercase hex: every character of the hex text of any bytes (the
/// SHA-256 digest of a path among them) is `0`–`9` or `a`–`f`, two per byte.
pub proof fn law_track_id_is_lowercase_hex(bytes: Seq<u8>)
    ensures
        spec_hex(bytes).len() == 2 * bytes.len(),
        forall|i: int| 0 <= i < spec_hex(bytes).len() ==> spec_is_lower_hex_char(#[trigger] spec_hex(bytes)[i]),
    decreases bytes.len(),
{
    if bytes.len() > 0 {
        law_track_id_is_lowercase_hex(bytes.drop_first());
        let hi = (bytes[0] / 16) as int;
        let lo = (bytes[0] % 16) as int;
        let head = seq![crate::state::spec_hex_digit(hi), crate::state::spec_hex_digit(lo)];
        let rest = spec_hex(bytes.drop_first());
        assert(spec_hex(bytes) == head + rest);
        assert(spec_is_lower_hex_char(head[0]));
        assert(spec_is_lower_hex_char(head[1]));
        assert forall|i: int| 0 <= i < spec_hex(bytes).len() implies spec_is_lower_hex_char(
            #[trigger] spec_hex(bytes)[i],
        ) by {
            if i >= 2 {
                assert(spec_hex(bytes)[i] == rest[i - 2]);
            }
        }
    }
}

/// Leading whitespace is dropped from the front: what is left is a suffix of `s` that
/// is empty or starts with a character that is not whitespace.
proof fn lemma_trim_start_suffix(s: Seq<char>)
    ensures
        spec_trim_start(s).len() <= s.len(),
        spec_trim_start(s) == s.subrange(s.len() - spec_trim_start(s).len(), s.len() as int),
        spec_trim_start(s).len() > 0 ==> !spec_is_whitespace(spec_trim_start(s)[0]),
    decreases s.len(),
{
    if s.len() > 0 && spec_is_whitespace(s[0]) {
        lemma_trim_start_suffix(s.drop_first());
        let t = spec_trim_start(s.drop_first());
        assert(s.drop_first().subrange(s.drop_first().len() - t.len(), s.drop_first().len() as int)
            =~= s.subrange(s.len() - t.len(), s.len() as int));
    } else {
        assert(s.subrange(0, s.len() as int) =~= s);
    }
}

/// Trailing whitespace is dropped from the back: what is left is a prefix of `s` that
/// is empty or ends with a character that is not whitespace.
proof fn lemma_trim_end_prefix(s: Seq<char>)
    ensures
        spec_trim_end(s).len() <= s.len(),
        spec_trim_end(s) == s.subrange(0, spec_trim_end(s).len() as int),
        spec_trim_end(s).len() > 0 ==> !spec_is_whitespace(spec_trim_end(s).last()),
    decreases s.len(),
{
    if s.len() > 0 && spec_is_whitespace(s.last()) {
        lemma_trim_end_prefix(s.drop_last());
        let t = spec_trim_end(s.drop_last());
        assert(s.drop_last().subrange(0, t.len() as int) =~= s.subrange(0, t.len() as int));
    } else {
        assert(s.subrange(0, s.len() as int) =~= s);
    }
}

/// Trimmed text is a piece of the original that neither starts nor ends with whitespace.
proof fn lemma_trim_shape(s: Seq<char>) -> (a: int)
    ensures
        0 <= a,
        a + spec_trim(s).len() <= s.len(),
        spec_trim(s) == s.subrange(a, a + spec_trim(s).len()),
        spec_trim(s).len() > 0 ==> !spec_is_whitespace(spec_trim(s)[0]),
        spec_trim(s).len() > 0 ==> !spec_is_whitespace(spec_trim(s).last()),
{
    lemma_trim_start_suffix(s);
    let u = spec_trim_start(s);
    lemma_trim_end_prefix(u);
    let t = spec_trim_end(u);
    let a = s.len() - u.len();
    assert(t =~= s.subrange(a, a + t.len()));
    if t.len() > 0 {
        assert(t[0] == u[0]);
    }
    a
}

/// Text that neither starts nor ends with whitespace trims to itself.
proof fn lemma_trim_fixed(s: Seq<char>)
    requires
        s.len() > 0 ==> !spec_is_whitespace(s[0]),
        s.len() > 0 ==> !spec_is_whitespace(s.last()),
    ensures
        spec_trim(s) == s,
{
    assert(spec_trim_start(s) == s);
    assert(spec_trim_end(s) == s);
}

/// The key of a trimmed ASCII text: ASCII, no uppercase letter, no space or dash, and
/// neither starting nor ending with whitespace.
proof fn lemma_key_shape(t: Seq<char>)
    requires
        spec_all_ascii(t),
        t.len() > 0 ==> !spec_is_whitespace(t[0]),
        t.len() > 0 ==> !spec_is_whitespace(t.last()),
    ensures
        spec_theme_key(spec_ascii_lower(t)).len() == t.len(),
        spec_all_ascii(spec_theme_key(spec_ascii_lower(t))),
        spec_ascii_lower(spec_theme_key(spec_ascii_lower(t))) == spec_theme_key(spec_ascii_lower(t)),
        spec_theme_key(spec_theme_key(spec_ascii_lower(t))) == spec_theme_key(spec_ascii_lower(t)),
        t.len() > 0 ==> !spec_is_whitespace(spec_theme_key(spec_ascii_lower(t))[0]),
        t.len() > 0 ==> !spec_is_whitespace(spec_theme_key(spec_ascii_lower(t)).last()),
{
    let n = spec_theme_key(spec_ascii_lower(t));
    assert forall|i: int| 0 <= i < n.len() implies (#[trigger] n[i]) as u32 <= 0x7F && !('A' <= n[i]
        && n[i] <= 'Z') && n[i] != ' ' && n[i] != '-' && (!spec_is_whitespace(t[i])
        ==> !spec_is_whitespace(n[i])) by {
        assert(t[i] as u32 <= 0x7F);
    }
    assert(spec_ascii_lower(n) =~= n);
    assert(spec_theme_key(n) =~= n);
    if t.len() > 0 {
        assert(n.last() == n[n.len() - 1]);
        assert(t.last() == t[t.len() - 1]);
    }
}

/// Normalizing a theme key twice gives what normalizing once gives (for ASCII names).
pub proof fn law_normalize_theme_key_idempotent(s: Seq<char>)
    requires
        spec_all_ascii(s),
    ensures
        spec_normalize_theme_key(spec_normalize_theme_key(s)) == spec_normalize_theme_key(s),
{
    let a = lemma_trim_shape(s);
    let t = spec_trim(s);
    assert forall|i: int| 0 <= i < t.len() implies (#[trigger] t[i]) as u32 <= 0x7F by {
        assert(t[i] == s[a + i]);
    }
    assert(spec_lowercase(t) == spec_ascii_lower(t));
    lemma_key_shape(t);
    let n = spec_theme_key(spec_ascii_lower(t));
    assert(spec_normalize_theme_key(s) == n);
    lemma_trim_fixed(n);
    assert(spec_lowercase(n) == spec_ascii_lower(n));
}

/// A builtin theme name normalizes to the key it is registered under, and that key
/// resolves to the builtin itself.
proof fn lemma_builtin_name_key(name: Seq<char>, key: Seq<char>)
    requires
        spec_all_ascii(name),
        name.len() > 0,
        !spec_is_whitespace(name[0]),
        !spec_is_whitespace(name.last()),
        spec_theme_key(spec_ascii_lower(name)) == key,
    ensures
        spec_normalize_theme_key(name) == key,
        spec_normalize_theme_key(key) == key,
{
    lemma_trim_fixed(name);
    assert(spec_lowercase(name) == spec_ascii_lower(name));
    lemma_key_shape(name);
    lemma_trim_fixed(key);
    assert(spec_lowercase(key) == spec_ascii_lower(key));
}

/// Each builtin theme's name normalizes to the key it is listed under (`"Tokyo Night"` →
/// `tokyo_night`), and resolving that key with no custom themes gives that theme.
pub proof fn law_builtin_names_normalize_to_keys()
    ensures
        spec_normalize_theme_key(spec_synthwave().name) == "synthwave"@,
        spec_normalize_theme_key(spec_dracula().name) == "dracula"@,
        spec_normalize_theme_key(spec_nord().name) == "nord"@,
        spec_normalize_theme_key(spec_tokyo_night().name) == "tokyo_night"@,
        spec_normalize_theme_key(spec_monochrome().name) == "monochrome"@,
        spec_resolve_theme("synthwave"@, None) == spec_synthwave(),
        spec_resolve_theme("dracula"@, None) == spec_dracula(),
        spec_resolve_theme("nord"@, None) == spec_nord(),
        spec_resolve_theme("tokyo_night"@, None) == spec_tokyo_night(),
        spec_resolve_theme("monochrome"@, None) == spec_monochrome(),
{
    reveal_strlit("Synthwave");
    reveal_strlit("Dracula");
    reveal_strlit("Nord");
    reveal_strlit("Tokyo Night");
    reveal_strlit("Monochrome");
    reveal_strlit("synthwave");
    reveal_strlit("dracula");
    reveal_strlit("nord");
    reveal_strlit("tokyo_night");
    reveal_strlit("monochrome");
    let names = seq![
        spec_synthwave().name,
        spec_dracula().name,
        spec_nord().name,
        spec_tokyo_night().name,
        spec_monochrome().name,
    ];
    let keys = seq!["synthwave"@, "dracula"@, "nord"@, "tokyo_night"@, "monochrome"@];
    assert forall|j: int| 0 <= j < 5 implies spec_normalize_theme_key(#[trigger] names[j]) == keys[j]
        && spec_normalize_theme_key(keys[j]) == keys[j] by {
        let name = names[j];
        assert forall|i: int| 0 <= i < name.len() implies (#[trigger] name[i]) as u32 <= 0x7F by {}
        assert(spec_theme_key(spec_ascii_lower(name)) =~= keys[j]);
        lemma_builtin_name_key(name, keys[j]);
    }
    assert(spec_normalize_theme_key(names[0]) == keys[0]);
    assert(spec_normalize_theme_key(names[1]) == keys[1]);
    assert(spec_normalize_theme_key(names[2]) == keys[2]);
    assert(spec_normalize_theme_key(names[3]) == keys[3]);
    assert(spec_normalize_theme_key(names[4]) == keys[4]);
}

/// The custom table works as a map: when an entry's key is the normalized name asked for,
/// that entry's theme is what the name resolves to, wherever it stands in the table.
pub proof fn law_custom_theme_found_by_key(active: Seq<char>, c: Seq<(Seq<char>, ThemeModel)>, i: int)
    requires
        spec_keys_distinct(c),
        0 <= i < c.len(),
        c[i].0 == spec_normalize_theme_key(active),
    ensures
        spec_resolve_theme(active, Some(c)) == c[i].1,
{
    let p = |e: (Seq<char>, ThemeModel)| e.0 == spec_normalize_theme_key(active);
    lemma_first_where_spec(c, p);
    assert(p(c[i]));
    match first_where(c, p) {
        Some(j) => {
            if j < i {
                assert(c[j].0 == c[i].0);
            } else if j > i {
                assert(!p(c[i]));
            }
            assert(j == i);
        },
        None => {
            assert(!p(c[i]));
        },
    }
}

// ---------------------------------------------------------------------------------------
// Playback advance, colors, scanned tracks and list movement
// ---------------------------------------------------------------------------------------

/// After a track ends with repeat off and shuffle off, the next library entry plays; after
/// the last entry playback stops.
pub proof fn law_advance_repeat_off(x: u64, c: usize, len: nat)
    requires
        c < len,
    ensures
        c + 1 < len ==> spec_advance(x, RepeatMode::Off, false, Some(c), len) == AdvanceAction::Play((c + 1) as usize),
        c + 1 == len ==> spec_advance(x, RepeatMode::Off, false, Some(c), len) == AdvanceAction::Stop,
{
}

/// With repeat all and shuffle off, the entry after the finished one plays, and the first
/// one follows the last; a one-track library restarts its track.
pub proof fn law_advance_repeat_all(x: u64, c: usize, len: nat)
    requires
        c < len,
    ensures
        c + 1 < len ==> spec_advance(x, RepeatMode::All, false, Some(c), len) == AdvanceAction::Play((c + 1) as usize),
        c + 1 == len && len >= 2 ==> spec_advance(x, RepeatMode::All, false, Some(c), len) == AdvanceAction::Play(0),
        len == 1 ==> spec_advance(x, RepeatMode::All, false, Some(c), len) == AdvanceAction::Restart,
{
    if c + 1 < len {
        vstd::arithmetic::div_mod::lemma_small_mod((c + 1) as nat, len);
    } else {
        vstd::arithmetic::div_mod::lemma_mod_self_0(len as int);
    }
}

/// Repeat one restarts the finished track, whatever the other settings.
pub proof fn law_advance_repeat_one(x: u64, shuffle: bool, current: Option<usize>, len: nat)
    ensures
        spec_advance(x, RepeatMode::One, shuffle, current, len) == AdvanceAction::Restart,
{
}

/// With shuffle on and at least two tracks, a track other than the finished one plays, and
/// it lies in the library.
pub proof fn law_advance_shuffle_moves_on(x: u64, repeat: RepeatMode, c: usize, len: usize)
    requires
        repeat != RepeatMode::One,
        len >= 2,
        c < len,
    ensures
        spec_advance(x, repeat, true, Some(c), len as nat) matches AdvanceAction::Play(i) && i != c && i < len,
{
    lemma_shuffle_pick_avoids_current(x, len, c);
}

/// The character that writes the hexadecimal digit `v` (`0`–`9`, then `a`–`f`, or `A`–`F`
/// when `upper`).
pub open spec fn spec_written_digit(v: nat, upper: bool) -> char {
    if v < 10 {
        ('0' as int + v) as char
    } else if upper {
        ('A' as int + v - 10) as char
    } else {
        ('a' as int + v - 10) as char
    }
}

/// `#` followed by the six digits `v`, each written in the case `up` gives it.
pub open spec fn spec_written_color(v: Seq<nat>, up: Seq<bool>) -> Seq<char> {
    seq!['#'] + Seq::new(6, |i: int| spec_written_digit(v[i], up[i]))
}

proof fn lemma_written_digit_reads_back(v: nat, upper: bool)
    requires
        v < 16,
    ensures
        spec_hex_digit(spec_written_digit(v, upper)) == Some(v as u8),
        !spec_is_whitespace(spec_written_digit(v, upper)),
{
}

/// Reading back a written color: `#` and six hexadecimal digits in either case give the
/// bytes whose high and low digits they are, red from the first pair, green from the
/// second, blue from the third.
pub proof fn law_parse_hex_reads_written_digits(v: Seq<nat>, up: Seq<bool>)
    requires
        v.len() == 6,
        up.len() == 6,
        forall|i: int| 0 <= i < 6 ==> v[i] < 16,
    ensures
        spec_parse_hex(spec_written_color(v, up)) == Some((
            (16 * v[0] + v[1]) as u8,
            (16 * v[2] + v[3]) as u8,
            (16 * v[4] + v[5]) as u8,
        )),
{
    let s = spec_written_color(v, up);
    let h = Seq::new(6, |i: int| spec_written_digit(v[i], up[i]));
    assert forall|i: int| 0 <= i < 6 implies spec_hex_digit(#[trigger] h[i]) == Some(v[i] as u8)
        && !spec_is_whitespace(h[i]) by {
        lemma_written_digit_reads_back(v[i], up[i]);
    }
    assert(s[0] == '#');
    assert(s.last() == h[5]);
    lemma_trim_fixed(s);
    assert(s.drop_first() =~= h);
    assert(spec_hex_digit(h[0]) == Some(v[0] as u8));
    assert(spec_hex_digit(h[1]) == Some(v[1] as u8));
    assert(spec_hex_digit(h[2]) == Some(v[2] as u8));
    assert(spec_hex_digit(h[3]) == Some(v[3] as u8));
    assert(spec_hex_digit(h[4]) == Some(v[4] as u8));
    assert(spec_hex_digit(h[5]) == Some(v[5] as u8));
}

/// The tag gives a non-empty title.
pub open spec fn spec_has_tag_title(title: Option<Seq<char>>) -> bool {
    match title {
        Some(t) => t.len() > 0,
        None => false,
    }
}

/// The same six digits without the `#` read the same.
pub proof fn law_parse_hex_hash_is_optional(v: Seq<nat>, up: Seq<bool>)
    requires
        v.len() == 6,
        up.len() == 6,
        forall|i: int| 0 <= i < 6 ==> v[i] < 16,
    ensures
        spec_parse_hex(spec_written_color(v, up).drop_first()) == spec_parse_hex(spec_written_color(v, up)),
{
    law_parse_hex_reads_written_digits(v, up);
    let h = spec_written_color(v, up).drop_first();
    assert(h =~= Seq::new(6, |i: int| spec_written_digit(v[i], up[i])));
    assert forall|i: int| 0 <= i < 6 implies spec_hex_digit(#[trigger] h[i]) == Some(v[i] as u8)
        && !spec_is_whitespace(h[i]) by {
        lemma_written_digit_reads_back(v[i], up[i]);
    }
    assert(h.last() == h[5]);
    lemma_trim_fixed(h);
    assert(h[0] != '#');
}

/// `c` is `0`–`9`, `a`–`f` or `A`–`F`.
pub open spec fn spec_is_hex_char(c: char) -> bool {
    ('0' <= c && c <= '9') || ('a' <= c && c <= 'f') || ('A' <= c && c <= 'F')
}

/// A color is read only from text whose first six characters after the optional `#` are
/// all hexadecimal digits.
pub proof fn law_parse_hex_needs_six_hex_digits(s: Seq<char>)
    requires
        spec_parse_hex(s) is Some,
    ensures
        spec_hex_text(s).len() >= 6,
        forall|i: int| 0 <= i < 6 ==> spec_is_hex_char(#[trigger] spec_hex_text(s)[i]),
{
}

/// A scanned track keeps the tag's album whenever tags were read, whatever the tag title;
/// a non-empty tag title is the title (with the tag's artist), otherwise the filename gives
/// the title and fills in a missing artist; without tags there is no album.
pub proof fn law_track_fields_from_tags(
    stem: Seq<char>,
    title: Option<Seq<char>>,
    artist: Option<Seq<char>>,
    album: Option<Seq<char>>,
)
    ensures
        spec_track_fields(stem, Some((title, artist, album))).2 == album,
        spec_track_fields(stem, None).2 is None,
        spec_track_fields(stem, None).0 == spec_clean_title(stem).1,
        spec_track_fields(stem, None).1 == spec_clean_title(stem).0,
        title matches Some(t) ==> (t.len() > 0 ==> spec_track_fields(stem, Some((title, artist, album))).0 == t
            && spec_track_fields(stem, Some((title, artist, album))).1 == artist),
        !spec_has_tag_title(title) ==> spec_track_fields(stem, Some((title, artist, album))).0
            == spec_clean_title(stem).1,
        !spec_has_tag_title(title) && artist is Some ==> spec_track_fields(
            stem,
            Some((title, artist, album)),
        ).1 == artist,
        !spec_has_tag_title(title) && artist is None ==> spec_track_fields(
            stem,
            Some((title, artist, album)),
        ).1 == spec_clean_title(stem).0,
{
}

/// The row above: one less, and the first row stays where it is.
pub open spec fn spec_one_up(sel: usize) -> usize {
    if sel == 0 {
        0
    } else {
        (sel - 1) as usize
    }
}

/// `Up` or `k` in the track list (no consent prompt open) moves the selection one row up,
/// staying on the first row, and changes nothing else.
pub proof fn law_up_moves_track_selection_one_row(m: AppModel, k: KeyPress, cfg: ConfigPaths)
    requires
        m.input_mode == InputMode::Normal,
        m.deps_prompt is None,
        k.code == Key::Up || k.code == Key::Char('k'),
    ensures
        spec_dispatch(m, k, cfg).0 == (AppModel { selected_track: spec_one_up(m.selected_track), ..m }),
        spec_dispatch(m, k, cfg).1 == Seq::<EffectModel>::empty(),
        m.selected_track > 0 ==> spec_dispatch(m, k, cfg).0.selected_track + 1 == m.selected_track,
{
}

/// `Down` or `j` in the track list moves the selection one row down, staying on the last
/// visible row.
pub proof fn law_down_moves_track_selection_one_row(m: AppModel, k: KeyPress, cfg: ConfigPaths)
    requires
        m.input_mode == InputMode::Normal,
        m.deps_prompt is None,
        k.code == Key::Down || k.code == Key::Char('j'),
        m.selected_track + 1 < spec_visible(m).len(),
    ensures
        spec_dispatch(m, k, cfg).0 == (AppModel { selected_track: (m.selected_track + 1) as usize, ..m }),
        spec_dispatch(m, k, cfg).1 == Seq::<EffectModel>::empty(),
{
}

/// In the library manager, `Up`/`k` moves the folder selection one row up (staying on the
/// first) and `Down`/`j` one row down (staying on the last).
pub proof fn law_manager_moves_folder_selection_one_row(m: AppModel, k: KeyPress, cfg: ConfigPaths)
    requires
        m.input_mode == InputMode::LibraryManager,
        k.code != Key::F(2),
    ensures
        k.code == Key::Up || k.code == Key::Char('k') ==> spec_dispatch(m, k, cfg).0 == (AppModel {
            selected_folder: spec_one_up(m.selected_folder),
            ..m
        }),
        (k.code == Key::Down || k.code == Key::Char('j')) && m.selected_folder + 1 < m.library_folders.len()
            ==> spec_dispatch(m, k, cfg).0 == (AppModel {
            selected_folder: (m.selected_folder + 1) as usize,
            ..m
        }),
{
}

/// The playing track sits at position `p` of the visible list (its first occurrence).
pub open spec fn spec_playing_at(m: AppModel, p: int) -> bool {
    &&& 0 <= p < spec_visible(m).len()
    &&& m.player.current_index == Some(spec_visible(m)[p])
    &&& forall|q: int| 0 <= q < p ==> m.player.current_index != Some(#[trigger] spec_visible(m)[q])
}

proof fn lemma_play_pos_at(m: AppModel, p: int)
    requires
        spec_playing_at(m, p),
    ensures
        spec_play_pos(m) == p,
{
    let f = |x: usize| Some(x) == m.player.current_index;
    assert forall|q: int| 0 <= q < p implies !f(spec_visible(m)[q]) by {}
    lemma_first_where_found(spec_visible(m), f, p);
}

/// `n` plays the visible track after the playing one (the first after the last) and selects
/// its row; nothing else changes.
pub proof fn law_next_plays_following_track(m: AppModel, p: int)
    requires
        m.library.len() > 0,
        spec_playing_at(m, p),
    ensures
        ({
            let vis = spec_visible(m);
            let q: int = if p + 1 < vis.len() { p + 1 } else { 0 };
            spec_next_track(m) == Some(AppModel {
                player: PlayerState { current_index: Some(vis[q]), ..m.player },
                selected_track: q as usize,
                ..m
            })
        }),
{
    lemma_play_pos_at(m, p);
    let n = spec_visible(m).len() as int;
    if p + 1 < n {
        vstd::arithmetic::div_mod::lemma_small_mod((p + 1) as nat, n as nat);
    } else {
        vstd::arithmetic::div_mod::lemma_mod_self_0(n);
    }
}

/// `p` plays the visible track before the playing one and selects its row; from the first
/// row it goes to the last under repeat all and stays on the first otherwise.
pub proof fn law_prev_plays_preceding_track(m: AppModel, p: int)
    requires
        m.library.len() > 0,
        spec_playing_at(m, p),
    ensures
        ({
            let vis = spec_visible(m);
            let q: int = if p > 0 {
                p - 1
            } else if m.player.repeat == RepeatMode::All {
                vis.len() - 1
            } else {
                0
            };
            spec_prev_track(m) == Some(AppModel {
                player: PlayerState { current_index: Some(vis[q]), ..m.player },
                selected_track: q as usize,
                ..m
            })
        }),
{
    lemma_play_pos_at(m, p);
}

/// The arrow keys and `h`/`l` in the track list seek by five seconds (thirty with Shift),
/// forward to the right, back to the left, and change nothing else.
pub proof fn law_arrows_seek(m: AppModel, k: KeyPress, cfg: ConfigPaths)
    requires
        m.input_mode == InputMode::Normal,
        m.deps_prompt is None,
        k.code == Key::Right || k.code == Key::Left || (k.code == Key::Char('l') && !k.ctrl) || k.code
            == Key::Char('h'),
    ensures
        spec_dispatch(m, k, cfg).0 == m,
        spec_dispatch(m, k, cfg).1 == seq![
            EffectModel::SeekBy(
                if k.code == Key::Right || k.code == Key::Char('l') {
                    if k.shift { 30i32 } else { 5i32 }
                } else {
                    if k.shift { -30i32 } else { -5i32 }
                },
            ),
        ],
{
}

} // verus!
