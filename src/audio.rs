use crate::error::AudioError;
use crate::text::joined;
use vstd::prelude::*;

verus! {

/// How sound output stands.
#[derive(Debug, Clone, Copy, PartialEq, Eq, Structural)]
pub enum AudioStatus {
    Available,
    Unavailable,
    FallbackMode,
    Disabled,
}

/// Display text of a status.
pub open spec fn status_text(s: AudioStatus) -> Seq<char> {
    match s {
        AudioStatus::Available => "Audio available"@,
        AudioStatus::Unavailable => "Audio unavailable"@,
        AudioStatus::FallbackMode => "Visual-only mode"@,
        AudioStatus::Disabled => "Audio disabled"@,
    }
}

impl AudioStatus {
    /// Display text of this status.
    pub fn to_string(&self) -> (r: String)
        ensures
            r@ == status_text(*self),
    {
        match self {
            AudioStatus::Available => String::from_str("Audio available"),
            AudioStatus::Unavailable => String::from_str("Audio unavailable"),
            AudioStatus::FallbackMode => String::from_str("Visual-only mode"),
            AudioStatus::Disabled => String::from_str("Audio disabled"),
        }
    }

    /// The status of an audio system: `player` tells whether a player was
    /// set up and, if so, whether it can play; without one, the fallback
    /// setting decides between visual-only mode and disabled audio.
    pub fn from_player(player: Option<bool>, fallback_enabled: bool) -> (r: AudioStatus)
        ensures
            r == match player {
                Some(true) => AudioStatus::Available,
                Some(false) => AudioStatus::Unavailable,
                None => if fallback_enabled {
                    AudioStatus::FallbackMode
                } else {
                    AudioStatus::Disabled
                },
            },
    {
        match player {
            Some(true) => AudioStatus::Available,
            Some(false) => AudioStatus::Unavailable,
            None => if fallback_enabled {
                AudioStatus::FallbackMode
            } else {
                AudioStatus::Disabled
            },
        }
    }
}

/// Whether a lower-case file extension names a loadable sound format.
pub open spec fn supported_extension(ext: Seq<char>) -> bool {
    ext == "wav"@ || ext == "mp3"@ || ext == "ogg"@
}

/// `s` in lower case, as `str::to_lowercase` gives it.
pub uninterp spec fn lower_of(s: Seq<char>) -> Seq<char>;

/// Relies on `str::to_lowercase`: the lower-case form of `s`, which depends
/// on the characters of `s` alone.
#[verifier::external_body]
fn lowercase(s: &str) -> (r: String)
    ensures
        r@ == lower_of(s@),
{
    s.to_lowercase()
}

/// The extensions of the loadable sound formats.
pub fn get_supported_extensions() -> (r: Vec<&'static str>)
    ensures
        r@.len() == 3,
        r@[0]@ == "wav"@,
        r@[1]@ == "mp3"@,
        r@[2]@ == "ogg"@,
{
    vec!["wav", "mp3", "ogg"]
}

/// Whether `ext` (already in lower case) names a loadable sound format.
pub fn is_supported_extension(ext: &str) -> (r: bool)
    ensures
        r == supported_extension(ext@),
{
    let e = String::from_str(ext);
    e == String::from_str("wav") || e == String::from_str("mp3") || e == String::from_str("ogg")
}

/// Accepts a lower-case extension of a loadable format; reports a missing
/// or unsupported one.
pub fn check_lowercase_extension(ext: Option<&str>) -> (r: Result<(), AudioError>)
    ensures
        match ext {
            None => r matches Err(AudioError::UnsupportedFormat(m)) && m@
                == "No file extension found"@,
            Some(e) => if supported_extension(e@) {
                r is Ok
            } else {
                r matches Err(AudioError::UnsupportedFormat(m)) && m@ == "Unsupported file format: "@
                    + e@
            },
        },
{
    match ext {
        None => Err(AudioError::UnsupportedFormat(String::from_str("No file extension found"))),
        Some(e) => if is_supported_extension(e) {
            Ok(())
        } else {
            Err(AudioError::UnsupportedFormat(joined("Unsupported file format: ", e)))
        },
    }
}

/// Checks a sound file's extension in any letter case.
pub fn check_extension(ext: Option<&str>) -> (r: Result<(), AudioError>)
    ensures
        match ext {
            None => r matches Err(AudioError::UnsupportedFormat(m)) && m@
                == "No file extension found"@,
            Some(e) => if supported_extension(lower_of(e@)) {
                r is Ok
            } else {
                r matches Err(AudioError::UnsupportedFormat(m)) && m@ == "Unsupported file format: "@
                    + lower_of(e@)
            },
        },
{
    match ext {
        Some(e) => {
            let lower = lowercase(e);
            check_lowercase_extension(Some(lower.as_str()))
        },
        None => check_lowercase_extension(None),
    }
}

} // verus!
