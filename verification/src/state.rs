//! Core data models: tracks, library folders and the small enums that describe playback
//! and UI modes, with their config-file spellings.

use vstd::prelude::*;

use sha2::Digest;
use vstd::string::StringSliceAdditionalSpecFns;

use crate::text::{chars_eq_str, chars_of, spec_lowercase, spec_trim, string_of, to_lowercase, trim_chars};

verus! {

/// One indexed audio file (metadata from tags when available).
#[derive(Debug, Clone)]
pub struct Track {
    pub id: String,
    pub filepath: String,
    pub title: String,
    pub artist: Option<String>,
    pub album: Option<String>,
    pub duration_secs: u64,
}

/// The content of a [`Track`] as character sequences.
pub struct TrackModel {
    pub id: Seq<char>,
    pub filepath: Seq<char>,
    pub title: Seq<char>,
    pub artist: Option<Seq<char>>,
    pub album: Option<Seq<char>>,
    pub duration_secs: u64,
}

/// The character view of an optional string.
pub open spec fn opt_chars(o: Option<String>) -> Option<Seq<char>> {
    match o {
        Some(s) => Some(s@),
        None => None,
    }
}

impl View for Track {
    type V = TrackModel;

    open spec fn view(&self) -> TrackModel {
        TrackModel {
            id: self.id@,
            filepath: self.filepath@,
            title: self.title@,
            artist: opt_chars(self.artist),
            album: opt_chars(self.album),
            duration_secs: self.duration_secs,
        }
    }
}

/// The SHA-256 digest of `data`: a function of the bytes alone.
pub uninterp spec fn spec_sha256(data: Seq<u8>) -> Seq<u8>;

/// Calls `sha2::Sha256::digest`; the result is named by [`spec_sha256`]. A SHA-256 digest
/// has 32 bytes.
#[verifier::external_body]
fn sha256_digest(data: &[u8]) -> (r: Vec<u8>)
    ensures
        r@ == spec_sha256(data@),
        r@.len() == 32,
{
    sha2::Sha256::digest(data).to_vec()
}

/// The lowercase hexadecimal digit for `n < 16`.
pub open spec fn spec_hex_digit(n: int) -> char {
    if n < 10 {
        ('0' as int + n) as char
    } else {
        ('a' as int + (n - 10)) as char
    }
}

/// Lowercase hex text of the bytes: two digits per byte, high nibble first.
pub open spec fn spec_hex(bytes: Seq<u8>) -> Seq<char>
    decreases bytes.len(),
{
    if bytes.len() == 0 {
        Seq::empty()
    } else {
        seq![spec_hex_digit((bytes[0] / 16) as int), spec_hex_digit((bytes[0] % 16) as int)] + spec_hex(
            bytes.drop_first(),
        )
    }
}

/// Calls `hex::encode`, which writes each byte as two lowercase hex digits, high nibble
/// first.
#[verifier::external_body]
fn hex_encode(bytes: &[u8]) -> (r: String)
    ensures
        r@ == spec_hex(bytes@),
{
    hex::encode(bytes)
}

pub proof fn lemma_hex_len(bytes: Seq<u8>)
    ensures
        spec_hex(bytes).len() == 2 * bytes.len(),
    decreases bytes.len(),
{
    if bytes.len() > 0 {
        lemma_hex_len(bytes.drop_first());
    }
}

/// Stable track id: SHA-256 (lowercase hex, 64 characters) of the bytes of the (canonical)
/// file path.
pub fn track_id_for_path(path: &str) -> (r: String)
    ensures
        r@ == spec_hex(spec_sha256(path.spec_bytes())),
        r@.len() == 64,
{
    let digest = sha256_digest(path.as_bytes());
    proof {
        lemma_hex_len(digest@);
    }
    hex_encode(digest.as_slice())
}

/// Repeat behaviour when a track ends.
#[derive(Debug, Clone, Copy, PartialEq, Eq, Structural)]
pub enum RepeatMode {
    Off,
    All,
    One,
}

impl Default for RepeatMode {
    fn default() -> (r: Self)
        ensures
            r == RepeatMode::Off,
    {
        RepeatMode::Off
    }
}

/// The repeat mode a normalized (trimmed, lowercased) config key selects.
pub open spec fn spec_repeat_from_key(k: Seq<char>) -> RepeatMode {
    if k == "all"@ {
        RepeatMode::All
    } else if k == "one"@ {
        RepeatMode::One
    } else {
        RepeatMode::Off
    }
}

/// The config spelling of a repeat mode.
pub open spec fn spec_repeat_str(m: RepeatMode) -> Seq<char> {
    match m {
        RepeatMode::Off => "off"@,
        RepeatMode::All => "all"@,
        RepeatMode::One => "one"@,
    }
}

impl RepeatMode {
    /// Mode for an already normalized key (`all`, `one`; anything else is `Off`).
    pub fn from_config_key(k: &str) -> (r: Self)
        ensures
            r == spec_repeat_from_key(k@),
    {
        let v = chars_of(k);
        if chars_eq_str(&v, "all") {
            RepeatMode::All
        } else if chars_eq_str(&v, "one") {
            RepeatMode::One
        } else {
            RepeatMode::Off
        }
    }

    /// Parse the `repeat` config value: trimmed and lowercased, then matched.
    pub fn from_config_str(s: &str) -> (r: Self)
        ensures
            r == spec_repeat_from_key(spec_lowercase(spec_trim(s@))),
    {
        let key = to_lowercase(string_of(&trim_chars(&chars_of(s))).as_str());
        Self::from_config_key(key.as_str())
    }

    pub fn as_config_str(self) -> (r: &'static str)
        ensures
            r@ == spec_repeat_str(self),
    {
        match self {
            RepeatMode::Off => "off",
            RepeatMode::All => "all",
            RepeatMode::One => "one",
        }
    }
}

/// Spectrogram display layout (cycled with `Shift+M` while Spectrogram is active).
#[derive(Debug, Clone, Copy, PartialEq, Eq, Structural)]
pub enum SpectrogramMode {
    Standard,
    Inverted,
    Mirrored,
}

impl Default for SpectrogramMode {
    fn default() -> (r: Self)
        ensures
            r == SpectrogramMode::Standard,
    {
        SpectrogramMode::Standard
    }
}

/// The spectrogram mode a normalized config key selects.
pub open spec fn spec_spectrogram_from_key(k: Seq<char>) -> SpectrogramMode {
    if k == "inverted"@ {
        SpectrogramMode::Inverted
    } else if k == "mirrored"@ {
        SpectrogramMode::Mirrored
    } else {
        SpectrogramMode::Standard
    }
}

/// The config spelling of a spectrogram mode.
pub open spec fn spec_spectrogram_str(m: SpectrogramMode) -> Seq<char> {
    match m {
        SpectrogramMode::Standard => "standard"@,
        SpectrogramMode::Inverted => "inverted"@,
        SpectrogramMode::Mirrored => "mirrored"@,
    }
}

impl SpectrogramMode {
    /// Mode for an already normalized key (`inverted`, `mirrored`; else `Standard`).
    pub fn from_config_key(k: &str) -> (r: Self)
        ensures
            r == spec_spectrogram_from_key(k@),
    {
        let v = chars_of(k);
        if chars_eq_str(&v, "inverted") {
            SpectrogramMode::Inverted
        } else if chars_eq_str(&v, "mirrored") {
            SpectrogramMode::Mirrored
        } else {
            SpectrogramMode::Standard
        }
    }

    /// Parse the `spectrogram_mode` config value: trimmed and lowercased, then matched.
    pub fn from_config_str(s: &str) -> (r: Self)
        ensures
            r == spec_spectrogram_from_key(spec_lowercase(spec_trim(s@))),
    {
        let key = to_lowercase(string_of(&trim_chars(&chars_of(s))).as_str());
        Self::from_config_key(key.as_str())
    }

    pub fn as_config_str(self) -> (r: &'static str)
        ensures
            r@ == spec_spectrogram_str(self),
    {
        match self {
            SpectrogramMode::Standard => "standard",
            SpectrogramMode::Inverted => "inverted",
            SpectrogramMode::Mirrored => "mirrored",
        }
    }
}

/// Active full-screen spectrum / oscilloscope / … renderer in the TUI.
#[derive(Debug, Clone, Copy, PartialEq, Eq, Structural)]
pub enum VisualizerMode {
    Spectrum,
    Spectrogram,
    Oscilloscope,
    Vectorscope,
    Supernova,
    PulseRings,
    BandMeter,
    Particles,
}

/// The persisted name of a visualizer mode.
pub open spec fn spec_visualizer_name(m: VisualizerMode) -> Seq<char> {
    match m {
        VisualizerMode::Spectrum => "spectrum"@,
        VisualizerMode::Spectrogram => "spectrogram"@,
        VisualizerMode::Oscilloscope => "oscilloscope"@,
        VisualizerMode::Vectorscope => "vectorscope"@,
        VisualizerMode::Supernova => "supernova"@,
        VisualizerMode::PulseRings => "pulse_rings"@,
        VisualizerMode::BandMeter => "band_meter"@,
        VisualizerMode::Particles => "particles"@,
    }
}

/// The visualizer whose persisted name is `k`, if any.
pub open spec fn spec_visualizer_from_key(k: Seq<char>) -> Option<VisualizerMode> {
    if k == "spectrum"@ {
        Some(VisualizerMode::Spectrum)
    } else if k == "spectrogram"@ {
        Some(VisualizerMode::Spectrogram)
    } else if k == "oscilloscope"@ {
        Some(VisualizerMode::Oscilloscope)
    } else if k == "vectorscope"@ {
        Some(VisualizerMode::Vectorscope)
    } else if k == "supernova"@ {
        Some(VisualizerMode::Supernova)
    } else if k == "pulse_rings"@ {
        Some(VisualizerMode::PulseRings)
    } else if k == "band_meter"@ {
        Some(VisualizerMode::BandMeter)
    } else if k == "particles"@ {
        Some(VisualizerMode::Particles)
    } else {
        None
    }
}

/// `-` written as `_`, every other character kept.
pub open spec fn spec_dash_to_underscore(s: Seq<char>) -> Seq<char> {
    s.map_values(|c: char| if c == '-' { '_' } else { c })
}

/// Replace each `-` by `_`.
pub fn dash_to_underscore(v: &Vec<char>) -> (r: Vec<char>)
    ensures
        r@ == spec_dash_to_underscore(v@),
{
    let mut r: Vec<char> = Vec::new();
    let mut i: usize = 0;
    while i < v.len()
        invariant
            i <= v.len(),
            r@ == spec_dash_to_underscore(v@.subrange(0, i as int)),
        decreases v.len() - i,
    {
        let c = v[i];
        r.push(if c == '-' { '_' } else { c });
        assert(spec_dash_to_underscore(v@.subrange(0, i + 1)) =~= spec_dash_to_underscore(
            v@.subrange(0, i as int),
        ).push(if c == '-' { '_' } else { c }));
        i = i + 1;
    }
    assert(v@.subrange(0, v.len() as int) =~= v@);
    r
}

impl VisualizerMode {
    /// The persisted name (`spectrum`, `pulse_rings`, …).
    pub fn as_config_str(self) -> (r: &'static str)
        ensures
            r@ == spec_visualizer_name(self),
    {
        match self {
            VisualizerMode::Spectrum => "spectrum",
            VisualizerMode::Spectrogram => "spectrogram",
            VisualizerMode::Oscilloscope => "oscilloscope",
            VisualizerMode::Vectorscope => "vectorscope",
            VisualizerMode::Supernova => "supernova",
            VisualizerMode::PulseRings => "pulse_rings",
            VisualizerMode::BandMeter => "band_meter",
            VisualizerMode::Particles => "particles",
        }
    }

    /// The persisted name as an owned string (what `Display` prints).
    pub fn to_string(self) -> (r: String)
        ensures
            r@ == spec_visualizer_name(self),
    {
        String::from_str(self.as_config_str())
    }

    /// Mode for an already normalized key.
    pub fn from_config_key(k: &str) -> (r: Option<Self>)
        ensures
            r == spec_visualizer_from_key(k@),
    {
        let v = chars_of(k);
        if chars_eq_str(&v, "spectrum") {
            Some(VisualizerMode::Spectrum)
        } else if chars_eq_str(&v, "spectrogram") {
            Some(VisualizerMode::Spectrogram)
        } else if chars_eq_str(&v, "oscilloscope") {
            Some(VisualizerMode::Oscilloscope)
        } else if chars_eq_str(&v, "vectorscope") {
            Some(VisualizerMode::Vectorscope)
        } else if chars_eq_str(&v, "supernova") {
            Some(VisualizerMode::Supernova)
        } else if chars_eq_str(&v, "pulse_rings") {
            Some(VisualizerMode::PulseRings)
        } else if chars_eq_str(&v, "band_meter") {
            Some(VisualizerMode::BandMeter)
        } else if chars_eq_str(&v, "particles") {
            Some(VisualizerMode::Particles)
        } else {
            None
        }
    }

    /// Parse a visualizer name: trimmed, lowercased, `-` read as `_`.
    /// Unknown names give `Err("unknown visualizer: <input>")`.
    pub fn from_str(s: &str) -> (r: Result<Self, String>)
        ensures
            match spec_visualizer_from_key(
                spec_dash_to_underscore(spec_lowercase(spec_trim(s@))),
            ) {
                Some(m) => r == Ok::<Self, String>(m),
                None => r matches Err(e) && e@ == "unknown visualizer: "@ + s@,
            },
    {
        let lowered = to_lowercase(string_of(&trim_chars(&chars_of(s))).as_str());
        let key = string_of(&dash_to_underscore(&chars_of(lowered.as_str())));
        match Self::from_config_key(key.as_str()) {
            Some(m) => Ok(m),
            None => {
                let msg = String::from_str("unknown visualizer: ");
                Err(msg.concat(s))
            },
        }
    }
}

/// Library + chrome layout when not in fullscreen.
#[derive(Debug, Clone, Copy, PartialEq, Eq, Structural)]
pub enum PanelFocus {
    /// Library pane (left) and visualizer pane (right); transport below.
    Normal,
    /// Visualizer fills the body; transport remains.
    TransportOnly,
}

impl Default for PanelFocus {
    fn default() -> (r: Self)
        ensures
            r == PanelFocus::Normal,
    {
        PanelFocus::Normal
    }
}

/// Text-input overlays (search, URL download, add folder, library manager, settings).
#[derive(Debug, Clone, Copy, PartialEq, Eq, Structural)]
pub enum InputMode {
    Normal,
    Search,
    DownloadUrl,
    AddLibraryPath,
    LibraryManager,
    Settings,
}

/// Which row is focused inside the Settings overlay.
#[derive(Debug, Clone, Copy, PartialEq, Eq, Structural)]
pub enum SettingsRow {
    YtDlp,
    Ffmpeg,
    DownloadDir,
}

impl Default for SettingsRow {
    fn default() -> (r: Self)
        ensures
            r == SettingsRow::YtDlp,
    {
        SettingsRow::YtDlp
    }
}

/// Configured library folder with cached metadata.
/// `last_scanned` is a monotonic timestamp in milliseconds supplied by the caller.
#[derive(Debug, Clone)]
pub struct LibraryFolder {
    pub path: String,
    pub track_count: usize,
    pub last_scanned: Option<u64>,
}

/// The content of a [`LibraryFolder`] with its path as characters.
pub struct FolderModel {
    pub path: Seq<char>,
    pub track_count: usize,
    pub last_scanned: Option<u64>,
}

impl View for LibraryFolder {
    type V = FolderModel;

    open spec fn view(&self) -> FolderModel {
        FolderModel {
            path: self.path@,
            track_count: self.track_count,
            last_scanned: self.last_scanned,
        }
    }
}

} // verus!
