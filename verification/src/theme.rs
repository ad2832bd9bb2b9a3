//! Built-in themes and theme resolution.

use vstd::prelude::*;

use crate::text::{chars_eq, chars_of, spec_lowercase, spec_trim, string_of, to_lowercase, trim_chars};

verus! {

/// Bar rendering style for spectrum-style visualizers.
#[derive(Debug, Clone, Copy, PartialEq, Eq, Structural)]
pub enum BarStyle {
    Solid,
    Rounded,
    Dots,
}

/// Visualizer-specific colors and options.
#[derive(Debug)]
pub struct VizTheme {
    pub gradient: Vec<String>,
    pub glow: bool,
    pub bar_style: BarStyle,
    pub particle_colors: Vec<String>,
    pub wave_color: String,
    pub wave_trail: String,
}

/// Full theme: UI colors + visualizer palette.
#[derive(Debug)]
pub struct Theme {
    pub name: String,
    pub background: String,
    pub surface: String,
    pub primary: String,
    pub secondary: String,
    pub text: String,
    pub text_dim: String,
    pub accent: String,
    pub viz: VizTheme,
}

/// The content of a [`VizTheme`] as character sequences.
pub struct VizThemeModel {
    pub gradient: Seq<Seq<char>>,
    pub glow: bool,
    pub bar_style: BarStyle,
    pub particle_colors: Seq<Seq<char>>,
    pub wave_color: Seq<char>,
    pub wave_trail: Seq<char>,
}

/// The content of a [`Theme`] as character sequences.
pub struct ThemeModel {
    pub name: Seq<char>,
    pub background: Seq<char>,
    pub surface: Seq<char>,
    pub primary: Seq<char>,
    pub secondary: Seq<char>,
    pub text: Seq<char>,
    pub text_dim: Seq<char>,
    pub accent: Seq<char>,
    pub viz: VizThemeModel,
}

/// The characters of each string in a sequence.
pub open spec fn strings_view(v: Seq<String>) -> Seq<Seq<char>> {
    v.map_values(|s: String| s@)
}

impl View for VizTheme {
    type V = VizThemeModel;

    open spec fn view(&self) -> VizThemeModel {
        VizThemeModel {
            gradient: strings_view(self.gradient@),
            glow: self.glow,
            bar_style: self.bar_style,
            particle_colors: strings_view(self.particle_colors@),
            wave_color: self.wave_color@,
            wave_trail: self.wave_trail@,
        }
    }
}

impl View for Theme {
    type V = ThemeModel;

    open spec fn view(&self) -> ThemeModel {
        ThemeModel {
            name: self.name@,
            background: self.background@,
            surface: self.surface@,
            primary: self.primary@,
            secondary: self.secondary@,
            text: self.text@,
            text_dim: self.text_dim@,
            accent: self.accent@,
            viz: self.viz@,
        }
    }
}

/// A copy of a list of strings.
pub fn copy_strings(v: &Vec<String>) -> (r: Vec<String>)
    ensures
        strings_view(r@) == strings_view(v@),
{
    let mut r: Vec<String> = Vec::new();
    let mut i: usize = 0;
    while i < v.len()
        invariant
            i <= v.len(),
            r@.len() == i,
            forall|j: int| 0 <= j < i ==> #[trigger] r@[j]@ == v@[j]@,
        decreases v.len() - i,
    {
        r.push(v[i].clone());
        i = i + 1;
    }
    assert(strings_view(r@) =~= strings_view(v@));
    r
}

/// Owned strings for a list of literals.
pub fn strings_of(items: &[&str]) -> (r: Vec<String>)
    ensures
        strings_view(r@) == items@.map_values(|s: &str| s@),
{
    let mut r: Vec<String> = Vec::new();
    let mut i: usize = 0;
    while i < items.len()
        invariant
            i <= items@.len(),
            r@.len() == i,
            forall|j: int| 0 <= j < i ==> #[trigger] r@[j]@ == items@[j]@,
        decreases items.len() - i,
    {
        r.push(String::from_str(items[i]));
        i = i + 1;
    }
    assert(strings_view(r@) =~= items@.map_values(|s: &str| s@));
    r
}

impl VizTheme {
    /// An identical copy.
    pub fn duplicate(&self) -> (r: Self)
        ensures
            r@ == self@,
    {
        VizTheme {
            gradient: copy_strings(&self.gradient),
            glow: self.glow,
            bar_style: self.bar_style,
            particle_colors: copy_strings(&self.particle_colors),
            wave_color: self.wave_color.clone(),
            wave_trail: self.wave_trail.clone(),
        }
    }
}

impl Theme {
    /// An identical copy.
    pub fn duplicate(&self) -> (r: Self)
        ensures
            r@ == self@,
    {
        Theme {
            name: self.name.clone(),
            background: self.background.clone(),
            surface: self.surface.clone(),
            primary: self.primary.clone(),
            secondary: self.secondary.clone(),
            text: self.text.clone(),
            text_dim: self.text_dim.clone(),
            accent: self.accent.clone(),
            viz: self.viz.duplicate(),
        }
    }
}

impl Clone for VizTheme {
    fn clone(&self) -> (r: Self)
        ensures
            r@ == self@,
    {
        self.duplicate()
    }
}

impl Clone for Theme {
    fn clone(&self) -> (r: Self)
        ensures
            r@ == self@,
    {
        self.duplicate()
    }
}

/// Runtime neon toggle (`g`) overrides the theme default for glow/halo effects.
pub fn effective_glow(_theme: &Theme, neon_enabled: bool) -> (r: bool)
    ensures
        r == neon_enabled,
{
    neon_enabled
}

pub open spec fn spec_synthwave() -> ThemeModel {
    ThemeModel {
        name: "Synthwave"@,
        background: "#0f0a1e"@,
        surface: "#1a1035"@,
        primary: "#f92a82"@,
        secondary: "#edfd09"@,
        text: "#ffffff"@,
        text_dim: "#7b6b8a"@,
        accent: "#00d9ff"@,
        viz: VizThemeModel {
            gradient: seq!["#6b0f6b"@, "#f92a82"@, "#edfd09"@, "#00d9ff"@],
            glow: true,
            bar_style: BarStyle::Rounded,
            particle_colors: seq!["#f92a82"@, "#edfd09"@, "#00d9ff"@, "#ff6b35"@],
            wave_color: "#f92a82"@,
            wave_trail: "#6b0f6b"@,
        },
    }
}

pub open spec fn spec_dracula() -> ThemeModel {
    ThemeModel {
        name: "Dracula"@,
        background: "#282a36"@,
        surface: "#44475a"@,
        primary: "#ff79c6"@,
        secondary: "#8be9fd"@,
        text: "#f8f8f2"@,
        text_dim: "#6272a4"@,
        accent: "#50fa7b"@,
        viz: VizThemeModel {
            gradient: seq!["#6272a4"@, "#bd93f9"@, "#ff79c6"@, "#8be9fd"@],
            glow: true,
            bar_style: BarStyle::Rounded,
            particle_colors: seq!["#ff79c6"@, "#8be9fd"@, "#bd93f9"@, "#50fa7b"@, "#ffb86c"@],
            wave_color: "#50fa7b"@,
            wave_trail: "#2d4a3e"@,
        },
    }
}

pub open spec fn spec_nord() -> ThemeModel {
    ThemeModel {
        name: "Nord"@,
        background: "#2e3440"@,
        surface: "#3b4252"@,
        primary: "#88c0d0"@,
        secondary: "#81a1c1"@,
        text: "#eceff4"@,
        text_dim: "#4c566a"@,
        accent: "#a3be8c"@,
        viz: VizThemeModel {
            gradient: seq!["#4c566a"@, "#5e81ac"@, "#88c0d0"@, "#eceff4"@],
            glow: false,
            bar_style: BarStyle::Rounded,
            particle_colors: seq!["#88c0d0"@, "#81a1c1"@, "#a3be8c"@, "#ebcb8b"@],
            wave_color: "#88c0d0"@,
            wave_trail: "#3b4252"@,
        },
    }
}

pub open spec fn spec_tokyo_night() -> ThemeModel {
    ThemeModel {
        name: "Tokyo Night"@,
        background: "#1a1b26"@,
        surface: "#24283b"@,
        primary: "#7aa2f7"@,
        secondary: "#bb9af7"@,
        text: "#c0caf5"@,
        text_dim: "#565f89"@,
        accent: "#9ece6a"@,
        viz: VizThemeModel {
            gradient: seq!["#565f89"@, "#7aa2f7"@, "#bb9af7"@, "#ff9e64"@],
            glow: true,
            bar_style: BarStyle::Rounded,
            particle_colors: seq!["#7aa2f7"@, "#bb9af7"@, "#ff9e64"@, "#9ece6a"@, "#f7768e"@],
            wave_color: "#7dcfff"@,
            wave_trail: "#1a3a5c"@,
        },
    }
}

pub open spec fn spec_monochrome() -> ThemeModel {
    ThemeModel {
        name: "Monochrome"@,
        background: "#0a0a0a"@,
        surface: "#1a1a1a"@,
        primary: "#ffffff"@,
        secondary: "#888888"@,
        text: "#e0e0e0"@,
        text_dim: "#555555"@,
        accent: "#ffffff"@,
        viz: VizThemeModel {
            gradient: seq!["#333333"@, "#666666"@, "#aaaaaa"@, "#ffffff"@],
            glow: false,
            bar_style: BarStyle::Rounded,
            particle_colors: seq!["#ffffff"@, "#cccccc"@, "#999999"@, "#666666"@],
            wave_color: "#ffffff"@,
            wave_trail: "#333333"@,
        },
    }
}

pub fn synthwave() -> (t: Theme)
    ensures
        t@ == spec_synthwave(),
{
    let gradient = strings_of(&["#6b0f6b", "#f92a82", "#edfd09", "#00d9ff"]);
    let particles = strings_of(&["#f92a82", "#edfd09", "#00d9ff", "#ff6b35"]);
    let t = Theme {
        name: String::from_str("Synthwave"),
        background: String::from_str("#0f0a1e"),
        surface: String::from_str("#1a1035"),
        primary: String::from_str("#f92a82"),
        secondary: String::from_str("#edfd09"),
        text: String::from_str("#ffffff"),
        text_dim: String::from_str("#7b6b8a"),
        accent: String::from_str("#00d9ff"),
        viz: VizTheme {
            gradient,
            glow: true,
            bar_style: BarStyle::Rounded,
            particle_colors: particles,
            wave_color: String::from_str("#f92a82"),
            wave_trail: String::from_str("#6b0f6b"),
        },
    };
    assert(t@.viz.gradient =~= spec_synthwave().viz.gradient);
    assert(t@.viz.particle_colors =~= spec_synthwave().viz.particle_colors);
    t
}

pub fn dracula() -> (t: Theme)
    ensures
        t@ == spec_dracula(),
{
    let gradient = strings_of(&["#6272a4", "#bd93f9", "#ff79c6", "#8be9fd"]);
    let particles = strings_of(&["#ff79c6", "#8be9fd", "#bd93f9", "#50fa7b", "#ffb86c"]);
    let t = Theme {
        name: String::from_str("Dracula"),
        background: String::from_str("#282a36"),
        surface: String::from_str("#44475a"),
        primary: String::from_str("#ff79c6"),
        secondary: String::from_str("#8be9fd"),
        text: String::from_str("#f8f8f2"),
        text_dim: String::from_str("#6272a4"),
        accent: String::from_str("#50fa7b"),
        viz: VizTheme {
            gradient,
            glow: true,
            bar_style: BarStyle::Rounded,
            particle_colors: particles,
            wave_color: String::from_str("#50fa7b"),
            wave_trail: String::from_str("#2d4a3e"),
        },
    };
    assert(t@.viz.gradient =~= spec_dracula().viz.gradient);
    assert(t@.viz.particle_colors =~= spec_dracula().viz.particle_colors);
    t
}

pub fn nord() -> (t: Theme)
    ensures
        t@ == spec_nord(),
{
    let gradient = strings_of(&["#4c566a", "#5e81ac", "#88c0d0", "#eceff4"]);
    let particles = strings_of(&["#88c0d0", "#81a1c1", "#a3be8c", "#ebcb8b"]);
    let t = Theme {
        name: String::from_str("Nord"),
        background: String::from_str("#2e3440"),
        surface: String::from_str("#3b4252"),
        primary: String::from_str("#88c0d0"),
        secondary: String::from_str("#81a1c1"),
        text: String::from_str("#eceff4"),
        text_dim: String::from_str("#4c566a"),
        accent: String::from_str("#a3be8c"),
        viz: VizTheme {
            gradient,
            glow: false,
            bar_style: BarStyle::Rounded,
            particle_colors: particles,
            wave_color: String::from_str("#88c0d0"),
            wave_trail: String::from_str("#3b4252"),
        },
    };
    assert(t@.viz.gradient =~= spec_nord().viz.gradient);
    assert(t@.viz.particle_colors =~= spec_nord().viz.particle_colors);
    t
}

pub fn tokyo_night() -> (t: Theme)
    ensures
        t@ == spec_tokyo_night(),
{
    let gradient = strings_of(&["#565f89", "#7aa2f7", "#bb9af7", "#ff9e64"]);
    let particles = strings_of(&["#7aa2f7", "#bb9af7", "#ff9e64", "#9ece6a", "#f7768e"]);
    let t = Theme {
        name: String::from_str("Tokyo Night"),
        background: String::from_str("#1a1b26"),
        surface: String::from_str("#24283b"),
        primary: String::from_str("#7aa2f7"),
        secondary: String::from_str("#bb9af7"),
        text: String::from_str("#c0caf5"),
        text_dim: String::from_str("#565f89"),
        accent: String::from_str("#9ece6a"),
        viz: VizTheme {
            gradient,
            glow: true,
            bar_style: BarStyle::Rounded,
            particle_colors: particles,
            wave_color: String::from_str("#7dcfff"),
            wave_trail: String::from_str("#1a3a5c"),
        },
    };
    assert(t@.viz.gradient =~= spec_tokyo_night().viz.gradient);
    assert(t@.viz.particle_colors =~= spec_tokyo_night().viz.particle_colors);
    t
}

pub fn monochrome() -> (t: Theme)
    ensures
        t@ == spec_monochrome(),
{
    let gradient = strings_of(&["#333333", "#666666", "#aaaaaa", "#ffffff"]);
    let particles = strings_of(&["#ffffff", "#cccccc", "#999999", "#666666"]);
    let t = Theme {
        name: String::from_str("Monochrome"),
        background: String::from_str("#0a0a0a"),
        surface: String::from_str("#1a1a1a"),
        primary: String::from_str("#ffffff"),
        secondary: String::from_str("#888888"),
        text: String::from_str("#e0e0e0"),
        text_dim: String::from_str("#555555"),
        accent: String::from_str("#ffffff"),
        viz: VizTheme {
            gradient,
            glow: false,
            bar_style: BarStyle::Rounded,
            particle_colors: particles,
            wave_color: String::from_str("#ffffff"),
            wave_trail: String::from_str("#333333"),
        },
    };
    assert(t@.viz.gradient =~= spec_monochrome().viz.gradient);
    assert(t@.viz.particle_colors =~= spec_monochrome().viz.particle_colors);
    t
}

/// The builtin theme registered under a normalized key, if any.
pub open spec fn spec_builtin(key: Seq<char>) -> Option<ThemeModel> {
    if key == "synthwave"@ {
        Some(spec_synthwave())
    } else if key == "dracula"@ {
        Some(spec_dracula())
    } else if key == "nord"@ {
        Some(spec_nord())
    } else if key == "tokyo_night"@ {
        Some(spec_tokyo_night())
    } else if key == "monochrome"@ {
        Some(spec_monochrome())
    } else {
        None
    }
}

/// Key/theme pairs by their character views.
pub open spec fn themes_view(v: Seq<(String, Theme)>) -> Seq<(Seq<char>, ThemeModel)> {
    v.map_values(|e: (String, Theme)| (e.0@, e.1@))
}

/// All built-in themes keyed by normalized id (`synthwave`, `tokyo_night`, …).
pub fn builtin_themes() -> (r: Vec<(String, Theme)>)
    ensures
        themes_view(r@) == seq![
            ("synthwave"@, spec_synthwave()),
            ("dracula"@, spec_dracula()),
            ("nord"@, spec_nord()),
            ("tokyo_night"@, spec_tokyo_night()),
            ("monochrome"@, spec_monochrome()),
        ],
{
    let mut r: Vec<(String, Theme)> = Vec::new();
    r.push((String::from_str("synthwave"), synthwave()));
    r.push((String::from_str("dracula"), dracula()));
    r.push((String::from_str("nord"), nord()));
    r.push((String::from_str("tokyo_night"), tokyo_night()));
    r.push((String::from_str("monochrome"), monochrome()));
    assert(themes_view(r@) =~= seq![
        ("synthwave"@, spec_synthwave()),
        ("dracula"@, spec_dracula()),
        ("nord"@, spec_nord()),
        ("tokyo_night"@, spec_tokyo_night()),
        ("monochrome"@, spec_monochrome()),
    ]);
    r
}

/// Spaces and dashes written as underscores.
pub open spec fn spec_theme_key(lowered: Seq<char>) -> Seq<char> {
    lowered.map_values(|c: char| if c == ' ' || c == '-' { '_' } else { c })
}

/// The lookup key for a theme name: trimmed, lowercased, spaces/dashes as underscores.
pub open spec fn spec_normalize_theme_key(active: Seq<char>) -> Seq<char> {
    spec_theme_key(spec_lowercase(spec_trim(active)))
}

/// Key from an already lowercased name: spaces and dashes become underscores.
pub fn theme_key_from_lowercase(lowered: &str) -> (r: String)
    ensures
        r@ == spec_theme_key(lowered@),
{
    let v = chars_of(lowered);
    let mut out: Vec<char> = Vec::new();
    let mut i: usize = 0;
    while i < v.len()
        invariant
            i <= v.len(),
            v@ == lowered@,
            out@ == spec_theme_key(v@.subrange(0, i as int)),
        decreases v.len() - i,
    {
        let c = v[i];
        out.push(if c == ' ' || c == '-' { '_' } else { c });
        assert(spec_theme_key(v@.subrange(0, i + 1)) =~= spec_theme_key(
            v@.subrange(0, i as int),
        ).push(if c == ' ' || c == '-' { '_' } else { c }));
        i = i + 1;
    }
    assert(v@.subrange(0, v.len() as int) =~= v@);
    string_of(&out)
}

/// Normalize a theme name or id for lookup (`"Tokyo Night"` → `"tokyo_night"`).
pub fn normalize_theme_key(active: &str) -> (r: String)
    ensures
        r@ == spec_normalize_theme_key(active@),
{
    let lowered = to_lowercase(string_of(&trim_chars(&chars_of(active))).as_str());
    theme_key_from_lowercase(lowered.as_str())
}

/// Position of the first element satisfying `p`, if any.
pub open spec fn first_where<A>(s: Seq<A>, p: spec_fn(A) -> bool) -> Option<int>
    decreases s.len(),
{
    if s.len() == 0 {
        None
    } else if p(s[0]) {
        Some(0)
    } else {
        match first_where(s.drop_first(), p) {
            Some(i) => Some(i + 1),
            None => None,
        }
    }
}

/// What [`first_where`] finds is the first position satisfying `p`; when it finds none,
/// no position does.
pub proof fn lemma_first_where_spec<A>(s: Seq<A>, p: spec_fn(A) -> bool)
    ensures
        first_where(s, p) matches Some(i) ==> 0 <= i < s.len() && p(s[i]) && forall|j: int|
            0 <= j < i ==> !p(#[trigger] s[j]),
        first_where(s, p) is None ==> forall|j: int| 0 <= j < s.len() ==> !p(#[trigger] s[j]),
    decreases s.len(),
{
    if s.len() > 0 {
        let t = s.drop_first();
        lemma_first_where_spec(t, p);
        if !p(s[0]) {
            assert forall|j: int| 0 <= j < s.len() && j != 0 implies s[j] == t[j - 1] by {}
        }
    }
}

/// `i` is the first position satisfying `p`.
pub proof fn lemma_first_where_found<A>(s: Seq<A>, p: spec_fn(A) -> bool, i: int)
    requires
        0 <= i < s.len(),
        p(s[i]),
        forall|j: int| 0 <= j < i ==> !p(s[j]),
    ensures
        first_where(s, p) == Some(i),
    decreases s.len(),
{
    if i > 0 {
        assert(!p(s[0]));
        let t = s.drop_first();
        assert forall|j: int| 0 <= j < i - 1 implies !p(t[j]) by {
            assert(t[j] == s[j + 1]);
        }
        lemma_first_where_found(t, p, i - 1);
    }
}

/// No position satisfies `p`.
pub proof fn lemma_first_where_none<A>(s: Seq<A>, p: spec_fn(A) -> bool)
    requires
        forall|j: int| 0 <= j < s.len() ==> !p(s[j]),
    ensures
        first_where(s, p) is None,
    decreases s.len(),
{
    if s.len() > 0 {
        let t = s.drop_first();
        assert forall|j: int| 0 <= j < t.len() implies !p(t[j]) by {
            assert(t[j] == s[j + 1]);
        }
        lemma_first_where_none(t, p);
    }
}

/// The custom theme selected for `active`: first by exact normalized key, then by the
/// trimmed raw name as key, then by a theme whose own name normalizes to the key.
pub open spec fn spec_custom_pick(active: Seq<char>, c: Seq<(Seq<char>, ThemeModel)>) -> Option<
    ThemeModel,
> {
    match first_where(c, |e: (Seq<char>, ThemeModel)| e.0 == spec_normalize_theme_key(active)) {
        Some(i) => Some(c[i].1),
        None => match first_where(c, |e: (Seq<char>, ThemeModel)| e.0 == spec_trim(active)) {
            Some(i) => Some(c[i].1),
            None => match first_where(
                c,
                |e: (Seq<char>, ThemeModel)|
                    spec_normalize_theme_key(e.1.name) == spec_normalize_theme_key(active),
            ) {
                Some(i) => Some(c[i].1),
                None => None,
            },
        },
    }
}

/// The theme that `active` resolves to: a custom theme when one matches, else the builtin
/// with that key, else Synthwave.
pub open spec fn spec_resolve_theme(
    active: Seq<char>,
    custom: Option<Seq<(Seq<char>, ThemeModel)>>,
) -> ThemeModel {
    let picked = match custom {
        Some(c) => spec_custom_pick(active, c),
        None => None,
    };
    match picked {
        Some(t) => t,
        None => match spec_builtin(spec_normalize_theme_key(active)) {
            Some(t) => t,
            None => spec_synthwave(),
        },
    }
}

/// The view of an optional custom theme list.
pub open spec fn custom_view(custom: Option<&Vec<(String, Theme)>>) -> Option<
    Seq<(Seq<char>, ThemeModel)>,
> {
    match custom {
        Some(c) => Some(themes_view(c@)),
        None => None,
    }
}

/// First entry whose key equals `key`.
fn find_by_key(c: &Vec<(String, Theme)>, key: &Vec<char>) -> (r: Option<usize>)
    ensures
        r matches Some(i) ==> first_where(themes_view(c@), |e: (Seq<char>, ThemeModel)| e.0 == key@)
            == Some(i as int),
        r is None ==> first_where(themes_view(c@), |e: (Seq<char>, ThemeModel)| e.0 == key@) is None,
        r matches Some(i) ==> i < c@.len(),
{
    let ghost p = |e: (Seq<char>, ThemeModel)| e.0 == key@;
    let ghost cv = themes_view(c@);
    let mut i: usize = 0;
    while i < c.len()
        invariant
            i <= c@.len(),
            cv == themes_view(c@),
            p == (|e: (Seq<char>, ThemeModel)| e.0 == key@),
            forall|j: int| 0 <= j < i ==> !p(cv[j]),
        decreases c.len() - i,
    {
        if chars_eq(&chars_of(c[i].0.as_str()), key) {
            proof {
                lemma_first_where_found(cv, p, i as int);
            }
            return Some(i);
        }
        i = i + 1;
    }
    proof {
        lemma_first_where_none(cv, p);
    }
    None
}

/// First entry whose theme name normalizes to `key`.
fn find_by_name(c: &Vec<(String, Theme)>, key: &Vec<char>) -> (r: Option<usize>)
    ensures
        r matches Some(i) ==> first_where(
            themes_view(c@),
            |e: (Seq<char>, ThemeModel)| spec_normalize_theme_key(e.1.name) == key@,
        ) == Some(i as int),
        r is None ==> first_where(
            themes_view(c@),
            |e: (Seq<char>, ThemeModel)| spec_normalize_theme_key(e.1.name) == key@,
        ) is None,
        r matches Some(i) ==> i < c@.len(),
{
    let ghost p = |e: (Seq<char>, ThemeModel)| spec_normalize_theme_key(e.1.name) == key@;
    let ghost cv = themes_view(c@);
    let mut i: usize = 0;
    while i < c.len()
        invariant
            i <= c@.len(),
            cv == themes_view(c@),
            p == (|e: (Seq<char>, ThemeModel)| spec_normalize_theme_key(e.1.name) == key@),
            forall|j: int| 0 <= j < i ==> !p(cv[j]),
        decreases c.len() - i,
    {
        let k = normalize_theme_key(c[i].1.name.as_str());
        if chars_eq(&chars_of(k.as_str()), key) {
            proof {
                lemma_first_where_found(cv, p, i as int);
            }
            return Some(i);
        }
        i = i + 1;
    }
    proof {
        lemma_first_where_none(cv, p);
    }
    None
}

/// The builtin theme for a normalized key, if there is one.
pub fn builtin_for_key(key: &Vec<char>) -> (r: Option<Theme>)
    ensures
        match r {
            Some(t) => spec_builtin(key@) == Some(t@),
            None => spec_builtin(key@) is None,
        },
{
    if crate::text::chars_eq_str(key, "synthwave") {
        Some(synthwave())
    } else if crate::text::chars_eq_str(key, "dracula") {
        Some(dracula())
    } else if crate::text::chars_eq_str(key, "nord") {
        Some(nord())
    } else if crate::text::chars_eq_str(key, "tokyo_night") {
        Some(tokyo_night())
    } else if crate::text::chars_eq_str(key, "monochrome") {
        Some(monochrome())
    } else {
        None
    }
}

/// No key occurs twice among the custom themes: they form a map from key to theme.
pub open spec fn spec_keys_distinct(c: Seq<(Seq<char>, ThemeModel)>) -> bool {
    forall|i: int, j: int| 0 <= i < j < c.len() ==> #[trigger] c[i].0 != #[trigger] c[j].0
}

/// An absent custom table, or one whose keys are all different.
pub open spec fn spec_custom_ok(custom: Option<Seq<(Seq<char>, ThemeModel)>>) -> bool {
    match custom {
        Some(c) => spec_keys_distinct(c),
        None => true,
    }
}

/// Whether no key occurs twice in the custom theme table.
pub fn has_distinct_keys(c: &Vec<(String, Theme)>) -> (r: bool)
    ensures
        r == spec_keys_distinct(themes_view(c@)),
{
    let ghost cv = themes_view(c@);
    let mut i: usize = 0;
    while i < c.len()
        invariant
            i <= c@.len(),
            cv == themes_view(c@),
            forall|a: int, b: int| 0 <= a < b < i ==> #[trigger] cv[a].0 != #[trigger] cv[b].0,
        decreases c.len() - i,
    {
        let ki = chars_of(c[i].0.as_str());
        let mut j: usize = 0;
        while j < i
            invariant
                j <= i,
                i < c@.len(),
                cv == themes_view(c@),
                ki@ == cv[i as int].0,
                forall|b: int| 0 <= b < j ==> #[trigger] cv[b].0 != cv[i as int].0,
            decreases i - j,
        {
            if chars_eq(&ki, &chars_of(c[j].0.as_str())) {
                assert(cv[j as int].0 == cv[i as int].0);
                return false;
            }
            j = j + 1;
        }
        i = i + 1;
    }
    true
}

/// Resolve `active` against optional `custom` themes, then builtins. Unknown → Synthwave.
/// The custom table is a map: no key occurs twice in it.
pub fn resolve_active_theme(active: &str, custom: Option<&Vec<(String, Theme)>>) -> (r: Theme)
    requires
        spec_custom_ok(custom_view(custom)),
    ensures
        r@ == spec_resolve_theme(active@, custom_view(custom)),
{
    let key_s = normalize_theme_key(active);
    let key = chars_of(key_s.as_str());
    if let Some(map) = custom {
        let ghost cv = themes_view(map@);
        assert((|e: (Seq<char>, ThemeModel)| e.0 == key@) =~= (|e: (Seq<char>, ThemeModel)|
            e.0 == spec_normalize_theme_key(active@)));
        match find_by_key(map, &key) {
            Some(i) => {
                assert(cv[i as int] == (map@[i as int].0@, map@[i as int].1@));
                return map[i].1.duplicate();
            },
            None => {},
        }
        let trimmed = trim_chars(&chars_of(active));
        assert((|e: (Seq<char>, ThemeModel)| e.0 == trimmed@) =~= (|e: (Seq<char>, ThemeModel)|
            e.0 == spec_trim(active@)));
        match find_by_key(map, &trimmed) {
            Some(i) => {
                assert(cv[i as int] == (map@[i as int].0@, map@[i as int].1@));
                return map[i].1.duplicate();
            },
            None => {},
        }
        assert((|e: (Seq<char>, ThemeModel)| spec_normalize_theme_key(e.1.name) == key@) =~= (|
            e: (Seq<char>, ThemeModel),
        | spec_normalize_theme_key(e.1.name) == spec_normalize_theme_key(active@)));
        match find_by_name(map, &key) {
            Some(i) => {
                assert(cv[i as int] == (map@[i as int].0@, map@[i as int].1@));
                return map[i].1.duplicate();
            },
            None => {},
        }
    }
    match builtin_for_key(&key) {
        Some(t) => t,
        None => synthwave(),
    }
}

/// Cycle order of the builtin themes.
pub const BUILTIN_THEME_ORDER: [&'static str; 5] = [
    "synthwave",
    "dracula",
    "nord",
    "tokyo_night",
    "monochrome",
];

/// Position of a builtin theme key in [`BUILTIN_THEME_ORDER`] (an unknown key counts as
/// the first).
pub open spec fn spec_builtin_pos(key: Seq<char>) -> int {
    if key == "synthwave"@ {
        0
    } else if key == "dracula"@ {
        1
    } else if key == "nord"@ {
        2
    } else if key == "tokyo_night"@ {
        3
    } else if key == "monochrome"@ {
        4
    } else {
        0
    }
}

/// The builtin theme key after `key` in the cycle (an unknown key counts as the first).
pub open spec fn spec_next_builtin_key(key: Seq<char>) -> Seq<char> {
    BUILTIN_THEME_ORDER[(spec_builtin_pos(key) + 1) % 5]@
}

proof fn lemma_order_literals()
    ensures
        BUILTIN_THEME_ORDER[0]@ == "synthwave"@,
        BUILTIN_THEME_ORDER[1]@ == "dracula"@,
        BUILTIN_THEME_ORDER[2]@ == "nord"@,
        BUILTIN_THEME_ORDER[3]@ == "tokyo_night"@,
        BUILTIN_THEME_ORDER[4]@ == "monochrome"@,
        "synthwave"@.len() == 9,
        "dracula"@.len() == 7,
        "nord"@.len() == 4,
        "tokyo_night"@.len() == 11,
        "monochrome"@.len() == 10,
{
    reveal_strlit("synthwave");
    reveal_strlit("dracula");
    reveal_strlit("nord");
    reveal_strlit("tokyo_night");
    reveal_strlit("monochrome");
}

/// The `j`-th builtin key sits at position `j`, so the key after it is the next one in the
/// order.
pub proof fn lemma_next_builtin(j: int)
    requires
        0 <= j < 5,
    ensures
        spec_builtin_pos(BUILTIN_THEME_ORDER[j]@) == j,
        spec_next_builtin_key(BUILTIN_THEME_ORDER[j]@) == BUILTIN_THEME_ORDER[(j + 1) % 5]@,
{
    lemma_order_literals();
}

/// The key that follows the theme named `name` in the builtin cycle (a name not in the
/// cycle counts as the first entry).
pub open spec fn spec_next_theme_key(name: Seq<char>) -> Seq<char> {
    spec_next_builtin_key(spec_normalize_theme_key(name))
}

/// Advance to the next builtin theme; returns the new theme and its persisted key.
pub fn cycle_theme(current: &Theme, custom: Option<&Vec<(String, Theme)>>) -> (r: (Theme, String))
    requires
        spec_custom_ok(custom_view(custom)),
    ensures
        r.1@ == spec_next_theme_key(current.name@),
        r.0@ == spec_resolve_theme(r.1@, custom_view(custom)),
{
    let key_s = normalize_theme_key(current.name.as_str());
    let key = chars_of(key_s.as_str());
    proof {
        lemma_order_literals();
    }
    let mut pos: usize = 0;
    let mut i: usize = 0;
    let mut found = false;
    while i < 5
        invariant
            i <= 5,
            !found ==> forall|j: int| 0 <= j < i ==> BUILTIN_THEME_ORDER[j]@ != key@,
            found ==> pos < 5 && BUILTIN_THEME_ORDER[pos as int]@ == key@,
            !found ==> pos == 0,
            BUILTIN_THEME_ORDER[0]@ == "synthwave"@,
            BUILTIN_THEME_ORDER[1]@ == "dracula"@,
            BUILTIN_THEME_ORDER[2]@ == "nord"@,
            BUILTIN_THEME_ORDER[3]@ == "tokyo_night"@,
            BUILTIN_THEME_ORDER[4]@ == "monochrome"@,
        decreases 5 - i,
    {
        if !found && crate::text::chars_eq_str(&key, BUILTIN_THEME_ORDER[i]) {
            pos = i;
            found = true;
        }
        i = i + 1;
    }
    proof {
        if found {
            lemma_next_builtin(pos as int);
        }
    }
    assert(pos as int == spec_builtin_pos(key@));
    let next = BUILTIN_THEME_ORDER[(pos + 1) % 5];
    assert(next@ == spec_next_theme_key(current.name@));
    let t = resolve_active_theme(next, custom);
    (t, String::from_str(next))
}

/// The theme changed: its name is announced.
pub fn announce_theme(app: &mut crate::events::AppState, name: &str)
    ensures
        final(app)@ == (crate::events::AppModel {
            message: Some("Theme: "@ + name@),
            ..old(app)@
        }),
{
    app.message = Some(String::from_str("Theme: ").concat(name));
}

} // verus!
