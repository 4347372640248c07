use crate::clock::{nanos_since, now};
use crate::error::{error_text, gui_error_text, GuiError, MetronomeError};
use crate::models::{bpm_in_range, SoundType, TimeSignature, DEFAULT_VOLUME, MAX_BPM, MIN_BPM};
use crate::text::{decimal, decimal_of};
use std::time::Instant;
use vstd::prelude::*;

verus! {

/// Value of one decimal digit character.
pub open spec fn digit_value(c: char) -> nat {
    (c as u32 - '0' as u32) as nat
}

/// Whether every character of `s` is a decimal digit.
pub open spec fn all_digits(s: Seq<char>) -> bool {
    forall|i: int| 0 <= i < s.len() ==> '0' <= #[trigger] s[i] && s[i] <= '9'
}

/// Value of a run of decimal digits, most significant first.
pub open spec fn digits_value(s: Seq<char>) -> nat
    decreases s.len(),
{
    if s.len() == 0 {
        0
    } else {
        digits_value(s.drop_last()) * 10 + digit_value(s.last())
    }
}

/// What `u32::from_str` accepts: an optional `+` and at least one decimal
/// digit, whose value fits in 32 bits.
pub open spec fn u32_text_value(s: Seq<char>) -> Option<u32> {
    let digits = if s.len() > 0 && s[0] == '+' {
        s.drop_first()
    } else {
        s
    };
    if digits.len() > 0 && all_digits(digits) && digits_value(digits) <= u32::MAX {
        Some(digits_value(digits) as u32)
    } else {
        None
    }
}

/// Relies on `u32::from_str`: an optional `+` followed by decimal digits,
/// nothing else (no whitespace), and a value in range.
#[verifier::external_body]
fn parse_u32(text: &str) -> (r: Option<u32>)
    ensures
        r == u32_text_value(text@),
{
    text.parse::<u32>().ok()
}

/// `s` without leading and trailing whitespace, as `str::trim` gives it.
pub uninterp spec fn trimmed_of(s: Seq<char>) -> Seq<char>;

/// Relies on `str::trim`: `s` without leading and trailing whitespace.
#[verifier::external_body]
fn trim(s: &str) -> (r: &str)
    ensures
        r@ == trimmed_of(s@),
{
    s.trim()
}

/// Message for a tempo typed into the front end that is out of range.
pub open spec fn range_message(bpm: u32) -> Seq<char> {
    "BPM must be between 60 and 200 (got "@ + decimal_of(bpm as nat) + ")"@
}

/// Message for tempo text that is not a number.
pub open spec fn not_a_number_message() -> Seq<char> {
    "Invalid BPM value. Please enter a number."@
}

/// State of the graphical front end's controls.
#[derive(Debug, Clone)]
pub struct GuiState {
    pub bpm_input: String,
    pub bpm_valid: bool,
    pub selected_time_signature: TimeSignature,
    pub selected_beat_sound: SoundType,
    pub selected_accent_sound: SoundType,
    pub is_running: bool,
    pub error_message: Option<String>,
    pub last_beat_visual: Option<Instant>,
    pub accent_enabled: bool,
    /// Playback volume in percent of full volume
    pub volume: i32,
}

impl GuiState {
    /// Controls at their defaults: tempo text "120", valid, 4/4, click and
    /// wood sounds, stopped, no error, accents on, volume 70%.
    pub fn new() -> (r: Self)
        ensures
            r.bpm_input@ == "120"@,
            r.bpm_valid,
            r.selected_time_signature == TimeSignature::Four,
            r.selected_beat_sound == SoundType::BuiltinClick,
            r.selected_accent_sound == SoundType::BuiltinWood,
            !r.is_running,
            r.error_message is None,
            r.last_beat_visual is None,
            r.accent_enabled,
            r.volume == DEFAULT_VOLUME,
    {
        GuiState {
            bpm_input: String::from_str("120"),
            bpm_valid: true,
            selected_time_signature: TimeSignature::Four,
            selected_beat_sound: SoundType::BuiltinClick,
            selected_accent_sound: SoundType::BuiltinWood,
            is_running: false,
            error_message: None,
            last_beat_visual: None,
            accent_enabled: true,
            volume: DEFAULT_VOLUME,
        }
    }

    /// Checks tempo text that has already been trimmed: a number in range is
    /// returned and clears the error; otherwise the control is marked
    /// invalid, with a message, and the error carries the number (0 for
    /// text that is not one).
    pub fn check_bpm_text(&mut self, text: &str) -> (r: Result<u32, MetronomeError>)
        ensures
            match u32_text_value(text@) {
                Some(b) => if bpm_in_range(b) {
                    &&& r == Ok::<u32, MetronomeError>(b)
                    &&& final(self).bpm_valid
                    &&& final(self).error_message is None
                } else {
                    &&& r == Err::<u32, MetronomeError>(MetronomeError::InvalidBpm(b))
                    &&& !final(self).bpm_valid
                    &&& final(self).error_message matches Some(m) && m@ == range_message(b)
                },
                None => {
                    &&& r == Err::<u32, MetronomeError>(MetronomeError::InvalidBpm(0))
                    &&& !final(self).bpm_valid
                    &&& final(self).error_message matches Some(m) && m@ == not_a_number_message()
                },
            },
            *final(self) == (GuiState {
                bpm_valid: final(self).bpm_valid,
                error_message: final(self).error_message,
                ..*old(self)
            }),
    {
        match parse_u32(text) {
            Some(bpm) => {
                if bpm >= MIN_BPM && bpm <= MAX_BPM {
                    self.bpm_valid = true;
                    self.error_message = None;
                    Ok(bpm)
                } else {
                    self.bpm_valid = false;
                    let mut m = String::from_str("BPM must be between 60 and 200 (got ");
                    m.append(decimal(bpm as u64).as_str());
                    m.append(")");
                    self.error_message = Some(m);
                    Err(MetronomeError::InvalidBpm(bpm))
                }
            },
            None => {
                self.bpm_valid = false;
                self.error_message = Some(String::from_str("Invalid BPM value. Please enter a number."));
                Err(MetronomeError::InvalidBpm(0))
            },
        }
    }

    /// Checks tempo text typed by the user, surrounding whitespace ignored.
    pub fn validate_bpm(&mut self, input: &str) -> (r: Result<u32, MetronomeError>)
        ensures
            match u32_text_value(trimmed_of(input@)) {
                Some(b) => if bpm_in_range(b) {
                    r == Ok::<u32, MetronomeError>(b) && final(self).bpm_valid
                } else {
                    r == Err::<u32, MetronomeError>(MetronomeError::InvalidBpm(b))
                        && !final(self).bpm_valid
                },
                None => r == Err::<u32, MetronomeError>(MetronomeError::InvalidBpm(0))
                    && !final(self).bpm_valid,
            },
            *final(self) == (GuiState {
                bpm_valid: final(self).bpm_valid,
                error_message: final(self).error_message,
                ..*old(self)
            }),
    {
        self.check_bpm_text(trim(input))
    }

    pub fn set_error(&mut self, message: String)
        ensures
            *final(self) == (GuiState { error_message: Some(message), ..*old(self) }),
    {
        self.error_message = Some(message);
    }

    pub fn clear_error(&mut self)
        ensures
            *final(self) == (GuiState { error_message: None, ..*old(self) }),
    {
        self.error_message = None;
    }

    /// Records that a beat was shown now.
    pub fn update_beat_visual(&mut self)
        ensures
            final(self).last_beat_visual is Some,
            *final(self) == (GuiState { last_beat_visual: final(self).last_beat_visual, ..*old(self) }),
    {
        self.last_beat_visual = Some(now());
    }

    /// Whether the last shown beat is less than `window_nanos` old.
    pub fn should_show_beat_visual(&self, window_nanos: u64) -> (r: bool)
        ensures
            self.last_beat_visual is None ==> !r,
    {
        match &self.last_beat_visual {
            Some(last_beat) => nanos_since(last_beat) < window_nanos,
            None => false,
        }
    }

    pub fn set_gui_error(&mut self, error: GuiError)
        ensures
            final(self).error_message matches Some(m) && m@ == gui_error_text(error),
            *final(self) == (GuiState { error_message: final(self).error_message, ..*old(self) }),
    {
        self.error_message = Some(error.to_string());
    }

    /// The value of a success, clearing the error; `None` for a failure,
    /// whose message becomes the error.
    pub fn handle_result<T>(&mut self, result: Result<T, MetronomeError>) -> (r: Option<T>)
        ensures
            match result {
                Ok(v) => r == Some(v) && final(self).error_message is None,
                Err(e) => r is None && (final(self).error_message matches Some(m) && m@
                    == error_text(e)),
            },
            *final(self) == (GuiState { error_message: final(self).error_message, ..*old(self) }),
    {
        match result {
            Ok(value) => {
                self.clear_error();
                Some(value)
            },
            Err(error) => {
                self.set_error(error.to_string());
                None
            },
        }
    }
}

} // verus!
