//! Error values reported by the library.

use vstd::prelude::*;

verus! {

#[verifier::external_type_specification]
#[verifier::external_body]
pub struct ExIoError(std::io::Error);

/// What went wrong, by subsystem; each variant carries a human-readable detail.
#[derive(Debug)]
pub enum RtunesError {
    Config(String),
    Audio(String),
    Visualizer(String),
    Fetcher(String),
    Io(std::io::Error),
}

/// Calls `Display` of `std::io::Error` (via `to_string`). The error value is opaque here,
/// so nothing is stated about the text.
#[verifier::external_body]
fn io_error_text(e: &std::io::Error) -> (r: String) {
    e.to_string()
}

/// The text shown for an error other than an I/O error: a subsystem prefix and the detail.
pub open spec fn spec_error_message(e: RtunesError) -> Seq<char> {
    match e {
        RtunesError::Config(s) => "Config error: "@ + s@,
        RtunesError::Audio(s) => "Audio playback error: "@ + s@,
        RtunesError::Visualizer(s) => "FFT processing error: "@ + s@,
        RtunesError::Fetcher(s) => "Download failed: "@ + s@,
        RtunesError::Io(_) => "IO error: "@,
    }
}

impl RtunesError {
    /// The human-readable text of the error (`Download failed: …`, `IO error: …`, …).
    pub fn message(&self) -> (r: String)
        ensures
            !(self is Io) ==> r@ == spec_error_message(*self),
            self is Io ==> spec_error_message(*self).len() <= r@.len() && r@.subrange(
                0,
                spec_error_message(*self).len() as int,
            ) == spec_error_message(*self),
    {
        match self {
            RtunesError::Config(s) => String::from_str("Config error: ").concat(s.as_str()),
            RtunesError::Audio(s) => String::from_str("Audio playback error: ").concat(s.as_str()),
            RtunesError::Visualizer(s) => String::from_str("FFT processing error: ").concat(
                s.as_str(),
            ),
            RtunesError::Fetcher(s) => String::from_str("Download failed: ").concat(s.as_str()),
            RtunesError::Io(e) => {
                let detail = io_error_text(e);
                let r = String::from_str("IO error: ").concat(detail.as_str());
                assert(r@.subrange(0, "IO error: "@.len() as int) =~= "IO error: "@);
                r
            },
        }
    }
}

} // verus!
