use crate::clock::{add_nanos, nanos_between, nanos_since, now};
use crate::error::MetronomeError;
use std::time::Instant;
use vstd::prelude::*;

pub use crate::gui_state::GuiState;

verus! {

/// Smallest accepted tempo, in beats per minute.
pub const MIN_BPM: u32 = 60;

/// Largest accepted tempo, in beats per minute.
pub const MAX_BPM: u32 = 200;

/// Whether a tempo lies in the accepted range.
pub open spec fn bpm_in_range(bpm: u32) -> bool {
    MIN_BPM <= bpm <= MAX_BPM
}

/// The closed set of supported time signatures.
#[derive(Debug, Clone, Copy, PartialEq, Eq, Structural)]
pub enum TimeSignature {
    /// No grouping: every beat is alike
    One,
    /// 2/4
    Two,
    /// 3/4
    Three,
    /// 4/4
    Four,
    /// 5/8
    Five,
    /// 6/8
    Six,
    /// 7/8
    Seven,
    /// 8/8
    Eight,
}

/// Display label of `ts`.
pub open spec fn label_of(ts: TimeSignature) -> Seq<char> {
    match ts {
        TimeSignature::One => "None"@,
        TimeSignature::Two => "2/4"@,
        TimeSignature::Three => "3/4"@,
        TimeSignature::Four => "4/4"@,
        TimeSignature::Five => "5/8"@,
        TimeSignature::Six => "6/8"@,
        TimeSignature::Seven => "7/8"@,
        TimeSignature::Eight => "8/8"@,
    }
}

/// Number of beats in one measure of `ts`.
pub open spec fn measure_len(ts: TimeSignature) -> nat {
    match ts {
        TimeSignature::One => 1,
        TimeSignature::Two => 2,
        TimeSignature::Three => 3,
        TimeSignature::Four => 4,
        TimeSignature::Five => 5,
        TimeSignature::Six => 6,
        TimeSignature::Seven => 7,
        TimeSignature::Eight => 8,
    }
}

impl TimeSignature {
    /// Get the number of beats per measure for this time signature
    pub fn beats_per_measure(&self) -> (r: u32)
        ensures
            r as nat == measure_len(*self),
            1 <= r <= 8,
    {
        match self {
            TimeSignature::One => 1,
            TimeSignature::Two => 2,
            TimeSignature::Three => 3,
            TimeSignature::Four => 4,
            TimeSignature::Five => 5,
            TimeSignature::Six => 6,
            TimeSignature::Seven => 7,
            TimeSignature::Eight => 8,
        }
    }
}


/// Accent strength of a downbeat, in percent of full strength.
pub const STRONG_ACCENT: u32 = 100;

/// Accent strength of a secondary accent, in percent of full strength.
pub const MEDIUM_ACCENT: u32 = 50;

/// Accent strength (percent) that the pattern of `ts` gives to the 1-based
/// position `pos`; positions outside the measure carry no accent.
pub open spec fn pattern_strength(ts: TimeSignature, pos: int) -> u32 {
    if pos == 1 && ts != TimeSignature::One {
        STRONG_ACCENT
    } else if (ts == TimeSignature::Four && pos == 3) || (ts == TimeSignature::Six && pos == 4)
        || (ts == TimeSignature::Eight && pos == 5) {
        MEDIUM_ACCENT
    } else {
        0
    }
}

/// The accent pattern of `ts`: one strength per position of the measure.
pub open spec fn accent_table(ts: TimeSignature) -> Seq<u32> {
    Seq::new(measure_len(ts), |i: int| pattern_strength(ts, i + 1))
}

/// Strength of position `pos`, with accents switched on or off globally.
pub open spec fn strength_at(ts: TimeSignature, pos: int, accent_enabled: bool) -> u32 {
    if accent_enabled {
        pattern_strength(ts, pos)
    } else {
        0
    }
}

/// 1-based position in the measure of the `n`-th beat (`n >= 1`).
pub open spec fn position_of(n: int, len: int) -> int {
    ((n - 1) % len) + 1
}

impl TimeSignature {
    /// Get a human-readable string representation
    pub fn as_str(&self) -> (r: &'static str)
        ensures
            r@ == label_of(*self),
    {
        match self {
            TimeSignature::One => "None",
            TimeSignature::Two => "2/4",
            TimeSignature::Three => "3/4",
            TimeSignature::Four => "4/4",
            TimeSignature::Five => "5/8",
            TimeSignature::Six => "6/8",
            TimeSignature::Seven => "7/8",
            TimeSignature::Eight => "8/8",
        }
    }

    /// Get all available time signatures, in order of measure length
    pub fn all() -> (r: Vec<TimeSignature>)
        ensures
            r@.len() == 8,
            forall|i: int| 0 <= i < 8 ==> measure_len(#[trigger] r@[i]) == i + 1,
    {
        vec![
            TimeSignature::One,
            TimeSignature::Two,
            TimeSignature::Three,
            TimeSignature::Four,
            TimeSignature::Five,
            TimeSignature::Six,
            TimeSignature::Seven,
            TimeSignature::Eight,
        ]
    }

    /// The accent pattern of this signature, one strength (percent) per
    /// position of the measure.
    pub fn accent_strengths(&self) -> (r: Vec<u32>)
        ensures
            r@ == accent_table(*self),
    {
        let r = match self {
            TimeSignature::One => vec![0],
            TimeSignature::Two => vec![100, 0],
            TimeSignature::Three => vec![100, 0, 0],
            TimeSignature::Four => vec![100, 0, 50, 0],
            TimeSignature::Five => vec![100, 0, 0, 0, 0],
            TimeSignature::Six => vec![100, 0, 0, 50, 0, 0],
            TimeSignature::Seven => vec![100, 0, 0, 0, 0, 0, 0],
            TimeSignature::Eight => vec![100, 0, 0, 0, 50, 0, 0, 0],
        };
        assert(r@ =~= accent_table(*self));
        r
    }

    /// Strength (percent) of the 1-based `position`, read from the accent
    /// pattern; zero when accents are off or the position lies outside the
    /// measure.
    pub fn accent_strength_at(&self, position: u32, accent_enabled: bool) -> (r: u32)
        ensures
            r == strength_at(*self, position as int, accent_enabled),
    {
        if !accent_enabled {
            return 0;
        }
        let table = self.accent_strengths();
        if 1 <= position && position as usize <= table.len() {
            table[position as usize - 1]
        } else {
            0
        }
    }
}

impl Default for TimeSignature {
    fn default() -> (r: Self)
        ensures
            r == TimeSignature::Four,
    {
        TimeSignature::Four
    }
}


/// Sound choices for beats and accents.
#[derive(Debug, Clone, PartialEq, Eq, Hash)]
pub enum SoundType {
    /// Built-in click sound
    BuiltinClick,
    /// Built-in wood block sound
    BuiltinWood,
    /// Built-in beep sound
    BuiltinBeep,
    /// Sound read from the file at this path
    Custom(String),
}

/// The final component of a path, as `std::path::Path::file_name` reads it.
pub uninterp spec fn file_name_of(path: Seq<char>) -> Option<Seq<char>>;

/// Relies on `std::path::Path::file_name`: the final component of `path`,
/// if it has one.
#[verifier::external_body]
fn file_name(path: &String) -> (r: Option<String>)
    ensures
        match r {
            Some(n) => file_name_of(path@) == Some(n@),
            None => file_name_of(path@) == None::<Seq<char>>,
        },
{
    let name = std::path::Path::new(path.as_str()).file_name()?;
    Some(name.to_string_lossy().into_owned())
}

/// Display label of a sound.
pub open spec fn sound_label(s: SoundType) -> Seq<char> {
    match s {
        SoundType::BuiltinClick => "Click"@,
        SoundType::BuiltinWood => "Wood"@,
        SoundType::BuiltinBeep => "Beep"@,
        SoundType::Custom(path) => "Custom: "@ + match file_name_of(path@) {
            Some(n) => n,
            None => "Unknown"@,
        },
    }
}

impl SoundType {
    /// Get a human-readable string representation
    pub fn as_str(&self) -> (r: String)
        ensures
            r@ == sound_label(*self),
    {
        match self {
            SoundType::BuiltinClick => String::from_str("Click"),
            SoundType::BuiltinWood => String::from_str("Wood"),
            SoundType::BuiltinBeep => String::from_str("Beep"),
            SoundType::Custom(path) => {
                let mut label = String::from_str("Custom: ");
                match file_name(path) {
                    Some(n) => label.append(n.as_str()),
                    None => label.append("Unknown"),
                }
                label
            },
        }
    }

    /// Get all built-in sound types
    pub fn builtin_sounds() -> (r: Vec<SoundType>)
        ensures
            r@ == seq![SoundType::BuiltinClick, SoundType::BuiltinWood, SoundType::BuiltinBeep],
    {
        let r = vec![SoundType::BuiltinClick, SoundType::BuiltinWood, SoundType::BuiltinBeep];
        assert(r@ =~= seq![SoundType::BuiltinClick, SoundType::BuiltinWood, SoundType::BuiltinBeep]);
        r
    }

    /// Check if this is a built-in sound
    pub fn is_builtin(&self) -> (r: bool)
        ensures
            r == !(*self is Custom),
    {
        match self {
            SoundType::Custom(_) => false,
            _ => true,
        }
    }

    /// A copy of this sound choice.
    pub fn duplicate(&self) -> (r: SoundType)
        ensures
            r == *self,
    {
        match self {
            SoundType::BuiltinClick => SoundType::BuiltinClick,
            SoundType::BuiltinWood => SoundType::BuiltinWood,
            SoundType::BuiltinBeep => SoundType::BuiltinBeep,
            SoundType::Custom(path) => SoundType::Custom(path.clone()),
        }
    }
}

impl Default for SoundType {
    fn default() -> (r: Self)
        ensures
            r == SoundType::BuiltinClick,
    {
        SoundType::BuiltinClick
    }
}


/// Volume given to a new configuration, in percent.
pub const DEFAULT_VOLUME: i32 = 70;

/// Tempo given to a default configuration.
pub const DEFAULT_BPM: u32 = 120;

/// The configuration record that seeds a clock.
#[derive(Debug, Clone)]
pub struct MetronomeConfig {
    pub bpm: u32,
    pub time_signature: TimeSignature,
    pub beat_sound: SoundType,
    pub accent_sound: SoundType,
    pub sound_enabled: bool,
    pub visual_enabled: bool,
    pub accent_enabled: bool,
    /// Playback volume in percent of full volume
    pub volume: i32,
}

/// Whether a volume (percent) lies in the accepted range.
pub open spec fn volume_in_range(v: i32) -> bool {
    0 <= v <= 100
}

/// `v` clamped into 0..=100 percent.
pub open spec fn clamp_volume(v: i32) -> i32 {
    if v < 0 {
        0
    } else if v > 100 {
        100
    } else {
        v
    }
}

impl MetronomeConfig {
    /// A configuration at `bpm` with every other field at its default.
    pub fn new(bpm: u32) -> (r: Self)
        ensures
            r == MetronomeConfig::new_spec(bpm),
    {
        MetronomeConfig {
            bpm,
            time_signature: TimeSignature::Four,
            beat_sound: SoundType::BuiltinClick,
            accent_sound: SoundType::BuiltinWood,
            sound_enabled: true,
            visual_enabled: true,
            accent_enabled: true,
            volume: DEFAULT_VOLUME,
        }
    }

    /// The default configuration, at the default tempo.
    pub fn default() -> (r: Self)
        ensures
            r == MetronomeConfig::new_spec(DEFAULT_BPM),
    {
        Self::new(DEFAULT_BPM)
    }

    /// The value `new` returns for `bpm`.
    pub open spec fn new_spec(bpm: u32) -> Self {
        MetronomeConfig {
            bpm,
            time_signature: TimeSignature::Four,
            beat_sound: SoundType::BuiltinClick,
            accent_sound: SoundType::BuiltinWood,
            sound_enabled: true,
            visual_enabled: true,
            accent_enabled: true,
            volume: DEFAULT_VOLUME,
        }
    }

    /// Checks the tempo, the one field that construction validates.
    pub fn validate(&self) -> (r: Result<(), MetronomeError>)
        ensures
            r is Ok <==> bpm_in_range(self.bpm),
            !bpm_in_range(self.bpm) ==> r == Err::<(), MetronomeError>(
                MetronomeError::InvalidBpm(self.bpm),
            ),
    {
        if self.bpm < MIN_BPM || self.bpm > MAX_BPM {
            return Err(MetronomeError::InvalidBpm(self.bpm));
        }
        Ok(())
    }

    pub fn with_sound(self, enabled: bool) -> (r: Self)
        ensures
            r == (MetronomeConfig { sound_enabled: enabled, ..self }),
    {
        let mut c = self;
        c.sound_enabled = enabled;
        c
    }

    pub fn with_visual(self, enabled: bool) -> (r: Self)
        ensures
            r == (MetronomeConfig { visual_enabled: enabled, ..self }),
    {
        let mut c = self;
        c.visual_enabled = enabled;
        c
    }

    pub fn with_time_signature(self, time_signature: TimeSignature) -> (r: Self)
        ensures
            r == (MetronomeConfig { time_signature, ..self }),
    {
        let mut c = self;
        c.time_signature = time_signature;
        c
    }

    pub fn with_sounds(self, beat_sound: SoundType, accent_sound: SoundType) -> (r: Self)
        ensures
            r == (MetronomeConfig { beat_sound, accent_sound, ..self }),
    {
        let mut c = self;
        c.beat_sound = beat_sound;
        c.accent_sound = accent_sound;
        c
    }

    pub fn with_accent_enabled(self, enabled: bool) -> (r: Self)
        ensures
            r == (MetronomeConfig { accent_enabled: enabled, ..self }),
    {
        let mut c = self;
        c.accent_enabled = enabled;
        c
    }

    /// Sets the volume (percent), clamped into 0..=100.
    pub fn with_volume(self, volume: i32) -> (r: Self)
        ensures
            r == (MetronomeConfig { volume: clamp_volume(volume), ..self }),
    {
        let mut c = self;
        c.volume = if volume < 0 {
            0
        } else if volume > 100 {
            100
        } else {
            volume
        };
        c
    }
}

/// Descriptor of one fired beat.
#[derive(Debug, Clone)]
pub struct Beat {
    pub timestamp: Instant,
    /// 1-based number of the beat since start; never 0
    pub sequence_number: u64,
    /// 1-based position of the beat in its measure
    pub beat_in_measure: u32,
    /// Whether the pattern gives this position any accent
    pub is_accent: bool,
    pub bpm: u32,
    pub time_signature: TimeSignature,
    pub accent_enabled: bool,
}

/// Sequence number after normalization: 0 counts as 1.
pub open spec fn normalized_sequence(n: u64) -> u64 {
    if n == 0 {
        1
    } else {
        n
    }
}

/// Accent strength (percent) of a beat descriptor.
pub open spec fn beat_strength(b: Beat) -> u32 {
    strength_at(b.time_signature, b.beat_in_measure as int, b.accent_enabled)
}

/// What a descriptor built from these inputs holds, the timestamp aside.
pub open spec fn describes(
    b: Beat,
    sequence_number: u64,
    time_signature: TimeSignature,
    bpm: u32,
    accent_enabled: bool,
) -> bool {
    &&& b.sequence_number == normalized_sequence(sequence_number)
    &&& b.beat_in_measure as int == position_of(
        b.sequence_number as int,
        measure_len(time_signature) as int,
    )
    &&& b.is_accent == (strength_at(time_signature, b.beat_in_measure as int, accent_enabled) > 0)
    &&& b.bpm == bpm
    &&& b.time_signature == time_signature
    &&& b.accent_enabled == accent_enabled
}

impl Beat {
    /// A descriptor with accents enabled.
    pub fn new(sequence_number: u64, time_signature: TimeSignature, bpm: u32) -> (r: Self)
        ensures
            describes(r, sequence_number, time_signature, bpm, true),
    {
        Self::new_with_accent_setting(sequence_number, time_signature, bpm, true)
    }

    /// A descriptor of beat number `sequence_number` (0 is taken as 1),
    /// stamped with the current time.
    pub fn new_with_accent_setting(
        sequence_number: u64,
        time_signature: TimeSignature,
        bpm: u32,
        accent_enabled: bool,
    ) -> (r: Self)
        ensures
            describes(r, sequence_number, time_signature, bpm, accent_enabled),
    {
        let beats_per_measure = time_signature.beats_per_measure();
        let effective_sequence: u64 = if sequence_number == 0 {
            1
        } else {
            sequence_number
        };
        let offset: u64 = (effective_sequence - 1) % (beats_per_measure as u64);
        let beat_in_measure: u32 = offset as u32 + 1;
        let strength = time_signature.accent_strength_at(beat_in_measure, accent_enabled);
        Beat {
            timestamp: now(),
            sequence_number: effective_sequence,
            beat_in_measure,
            is_accent: strength > 0,
            bpm,
            time_signature,
            accent_enabled,
        }
    }

    pub fn is_first_beat(&self) -> (r: bool)
        ensures
            r == (self.beat_in_measure == 1),
    {
        self.beat_in_measure == 1
    }

    /// Accent strength in percent: 100 strong, 50 medium, 0 weak.
    pub fn get_accent_strength(&self) -> (r: u32)
        ensures
            r == beat_strength(*self),
    {
        self.time_signature.accent_strength_at(self.beat_in_measure, self.accent_enabled)
    }

    pub fn is_strong_beat(&self) -> (r: bool)
        ensures
            r == (beat_strength(*self) >= STRONG_ACCENT),
    {
        self.get_accent_strength() >= STRONG_ACCENT
    }

    pub fn is_medium_beat(&self) -> (r: bool)
        ensures
            r == (0 < beat_strength(*self) < STRONG_ACCENT),
    {
        let strength = self.get_accent_strength();
        strength > 0 && strength < STRONG_ACCENT
    }

    pub fn is_weak_beat(&self) -> (r: bool)
        ensures
            r == (beat_strength(*self) == 0),
    {
        self.get_accent_strength() == 0
    }
}


/// Nanoseconds in one minute.
pub const NANOS_PER_MINUTE: u64 = 60_000_000_000;

/// Beat period in nanoseconds at `bpm` beats per minute.
pub open spec fn interval_nanos(bpm: u32) -> int {
    (NANOS_PER_MINUTE as int + bpm as int / 2) / bpm as int
}

/// Distance between a beat and the instant it was due, from how late it came
/// (`late`) and how early (`early`); at most one of them is nonzero for a
/// real pair of instants, and the larger is the distance.
pub fn timing_error(late: u64, early: u64) -> (r: u64)
    ensures
        r == if late >= early {
            late
        } else {
            early
        },
{
    if late >= early {
        late
    } else {
        early
    }
}

/// The mutable beat clock: tempo, signature, running flag and counters.
#[derive(Debug, Clone)]
pub struct MetronomeState {
    pub bpm: u32,
    pub time_signature: TimeSignature,
    pub beat_sound: SoundType,
    pub accent_sound: SoundType,
    pub is_running: bool,
    pub start_time: Option<Instant>,
    /// Beats fired since the last start
    pub beat_count: u64,
    /// 1-based position of the last beat in its measure
    pub current_beat_in_measure: u32,
    pub accent_enabled: bool,
    /// Playback volume in percent of full volume
    pub volume: i32,
}

/// The state after one more beat: the counter goes up (it stays at its
/// maximum there) and the position follows it.
pub open spec fn advanced(s: MetronomeState) -> MetronomeState {
    let count: u64 = if s.beat_count < u64::MAX {
        (s.beat_count + 1) as u64
    } else {
        u64::MAX
    };
    MetronomeState {
        beat_count: count,
        current_beat_in_measure: position_of(count as int, measure_len(s.time_signature) as int) as u32,
        ..s
    }
}

/// The error a settings update reports, if any: the tempo is checked first,
/// then the volume.
pub open spec fn settings_error(bpm: Option<u32>, volume: Option<i32>) -> Option<MetronomeError> {
    match (bpm, volume) {
        (Some(b), _) if !bpm_in_range(b) => Some(MetronomeError::InvalidBpm(b)),
        (_, Some(v)) if !volume_in_range(v) => Some(MetronomeError::InvalidVolume(v)),
        _ => None,
    }
}

/// `s` with every supplied setting applied; a new signature on a running
/// clock starts a fresh measure.
pub open spec fn with_settings(
    s: MetronomeState,
    bpm: Option<u32>,
    time_signature: Option<TimeSignature>,
    beat_sound: Option<SoundType>,
    accent_sound: Option<SoundType>,
    accent_enabled: Option<bool>,
    volume: Option<i32>,
) -> MetronomeState {
    MetronomeState {
        bpm: match bpm {
            Some(b) => b,
            None => s.bpm,
        },
        time_signature: match time_signature {
            Some(t) => t,
            None => s.time_signature,
        },
        current_beat_in_measure: if time_signature is Some && s.is_running {
            1
        } else {
            s.current_beat_in_measure
        },
        beat_sound: match beat_sound {
            Some(b) => b,
            None => s.beat_sound,
        },
        accent_sound: match accent_sound {
            Some(a) => a,
            None => s.accent_sound,
        },
        accent_enabled: match accent_enabled {
            Some(e) => e,
            None => s.accent_enabled,
        },
        volume: match volume {
            Some(v) => v,
            None => s.volume,
        },
        ..s
    }
}

/// What a settings update leaves: `s` itself when a field is invalid,
/// otherwise `s` with every supplied field applied.
pub open spec fn settings_outcome(
    s: MetronomeState,
    bpm: Option<u32>,
    time_signature: Option<TimeSignature>,
    beat_sound: Option<SoundType>,
    accent_sound: Option<SoundType>,
    accent_enabled: Option<bool>,
    volume: Option<i32>,
) -> MetronomeState {
    if settings_error(bpm, volume) is Some {
        s
    } else {
        with_settings(s, bpm, time_signature, beat_sound, accent_sound, accent_enabled, volume)
    }
}

impl MetronomeState {
    /// The invariant the controller keeps: the tempo is in range.
    pub open spec fn wf(&self) -> bool {
        bpm_in_range(self.bpm)
    }

    /// A stopped clock seeded from `config`.
    pub fn new(config: &MetronomeConfig) -> (r: Self)
        ensures
            r == (MetronomeState {
                bpm: config.bpm,
                time_signature: config.time_signature,
                beat_sound: config.beat_sound,
                accent_sound: config.accent_sound,
                is_running: false,
                start_time: None,
                beat_count: 0,
                current_beat_in_measure: 1,
                accent_enabled: config.accent_enabled,
                volume: config.volume,
            }),
    {
        MetronomeState {
            bpm: config.bpm,
            time_signature: config.time_signature,
            beat_sound: config.beat_sound.duplicate(),
            accent_sound: config.accent_sound.duplicate(),
            is_running: false,
            start_time: None,
            beat_count: 0,
            current_beat_in_measure: 1,
            accent_enabled: config.accent_enabled,
            volume: config.volume,
        }
    }

    /// A copy of this state.
    pub fn snapshot(&self) -> (r: Self)
        ensures
            r == *self,
    {
        MetronomeState {
            bpm: self.bpm,
            time_signature: self.time_signature,
            beat_sound: self.beat_sound.duplicate(),
            accent_sound: self.accent_sound.duplicate(),
            is_running: self.is_running,
            start_time: match &self.start_time {
                Some(t) => Some(t.clone()),
                None => None,
            },
            beat_count: self.beat_count,
            current_beat_in_measure: self.current_beat_in_measure,
            accent_enabled: self.accent_enabled,
            volume: self.volume,
        }
    }

    /// Nanoseconds since the start, or 0 when not started.
    pub fn get_elapsed_time(&self) -> (r: u64)
        ensures
            self.start_time is None ==> r == 0,
    {
        match &self.start_time {
            Some(start) => nanos_since(start),
            None => 0,
        }
    }

    /// Beat period in nanoseconds.
    pub fn get_interval(&self) -> (r: u64)
        requires
            self.wf(),
        ensures
            r == interval_nanos(self.bpm),
    {
        self.calculate_beat_interval()
    }

    /// Beat period in nanoseconds: a minute divided by the tempo, rounded to
    /// the nearest nanosecond. Every time signature counts the same pulse.
    pub fn calculate_beat_interval(&self) -> (r: u64)
        requires
            self.wf(),
        ensures
            r == interval_nanos(self.bpm),
    {
        (NANOS_PER_MINUTE + self.bpm as u64 / 2) / self.bpm as u64
    }

    /// Which positions of the current signature carry any accent.
    pub fn get_accent_pattern(&self) -> (r: Vec<bool>)
        ensures
            r@.len() == measure_len(self.time_signature),
            forall|i: int|
                0 <= i < r@.len() ==> #[trigger] r@[i] == (accent_table(self.time_signature)[i] > 0),
    {
        let table = self.time_signature.accent_strengths();
        let mut r: Vec<bool> = Vec::new();
        let mut i: usize = 0;
        while i < table.len()
            invariant
                table@ == accent_table(self.time_signature),
                i <= table@.len(),
                r@.len() == i,
                forall|j: int| 0 <= j < i ==> #[trigger] r@[j] == (table@[j] > 0),
            decreases table@.len() - i,
        {
            r.push(table[i] > 0);
            i = i + 1;
        }
        r
    }

    /// Whether the current position carries any accent.
    pub fn is_accent_beat(&self) -> (r: bool)
        ensures
            r == (strength_at(self.time_signature, self.current_beat_in_measure as int, self.accent_enabled) > 0),
    {
        self.get_accent_strength() > 0
    }

    /// Accent strength (percent) of the current position.
    pub fn get_accent_strength(&self) -> (r: u32)
        ensures
            r == strength_at(self.time_signature, self.current_beat_in_measure as int, self.accent_enabled),
    {
        self.accent_strength_at(self.current_beat_in_measure)
    }

    /// Accent strength (percent) of any position of the current signature,
    /// without touching the state.
    pub fn accent_strength_at(&self, position: u32) -> (r: u32)
        ensures
            r == strength_at(self.time_signature, position as int, self.accent_enabled),
    {
        self.time_signature.accent_strength_at(position, self.accent_enabled)
    }

    /// Offset from the start (nanoseconds) at which the next beat is due,
    /// or `None` where it does not fit in 64 bits.
    pub fn next_beat_offset(&self) -> (r: Option<u64>)
        requires
            self.wf(),
        ensures
            r == (if interval_nanos(self.bpm) * (self.beat_count + 1) <= u64::MAX {
                Some((interval_nanos(self.bpm) * (self.beat_count + 1)) as u64)
            } else {
                None::<u64>
            }),
    {
        let interval = self.calculate_beat_interval();
        assert(interval >= 1) by {
            assert((NANOS_PER_MINUTE as int + self.bpm as int / 2) / self.bpm as int >= 1) by (nonlinear_arith)
                requires
                    1 <= self.bpm <= 200,
            ;
        }
        if self.beat_count == u64::MAX {
            proof {
                assert(interval * (self.beat_count + 1) > u64::MAX) by (nonlinear_arith)
                    requires
                        interval >= 1,
                        self.beat_count == u64::MAX,
                ;
            }
            return None;
        }
        let beats = self.beat_count + 1;
        if interval > u64::MAX / beats {
            proof {
                assert(interval * beats > u64::MAX) by (nonlinear_arith)
                    requires
                        interval > u64::MAX / beats,
                        beats > 0,
                ;
            }
            None
        } else {
            proof {
                assert(interval * beats <= u64::MAX) by (nonlinear_arith)
                    requires
                        interval <= u64::MAX / beats,
                        beats > 0,
                ;
            }
            Some(interval * beats)
        }
    }

    /// The instant at which the next beat is due, if the clock is started
    /// and the instant can be represented.
    pub fn get_next_beat_time(&self) -> (r: Option<Instant>)
        requires
            self.wf(),
        ensures
            self.start_time is None ==> r is None,
    {
        match &self.start_time {
            Some(start) => match self.next_beat_offset() {
                Some(offset) => add_nanos(start, offset),
                None => None,
            },
            None => None,
        }
    }

    /// Distance in nanoseconds between `actual_beat_time` and the instant the
    /// next beat is due, if the latter is known.
    pub fn get_timing_accuracy(&self, actual_beat_time: Instant) -> (r: Option<u64>)
        requires
            self.wf(),
        ensures
            self.start_time is None ==> r is None,
    {
        match self.get_next_beat_time() {
            Some(expected) => {
                let late = nanos_between(&expected, &actual_beat_time);
                let early = nanos_between(&actual_beat_time, &expected);
                Some(timing_error(late, early))
            },
            None => None,
        }
    }

    /// Whether a beat is due, `elapsed` nanoseconds after the last one.
    pub fn should_fire_after(&self, elapsed: u64) -> (r: bool)
        requires
            self.wf(),
        ensures
            r == (self.is_running && elapsed >= interval_nanos(self.bpm)),
    {
        self.is_running && elapsed >= self.calculate_beat_interval()
    }

    /// Whether a beat is due now, the last one having fired at `last_beat_time`.
    pub fn should_fire(&self, last_beat_time: &Instant) -> (r: bool)
        requires
            self.wf(),
        ensures
            r ==> self.is_running,
    {
        if !self.is_running {
            return false;
        }
        let elapsed = nanos_since(last_beat_time);
        self.should_fire_after(elapsed)
    }

    /// Fires one beat: counts it, moves the position and describes it.
    pub fn increment_beat(&mut self) -> (r: Beat)
        ensures
            *final(self) == advanced(*old(self)),
            describes(
                r,
                final(self).beat_count,
                old(self).time_signature,
                old(self).bpm,
                old(self).accent_enabled,
            ),
    {
        if self.beat_count < u64::MAX {
            self.beat_count = self.beat_count + 1;
        }
        let beats_per_measure = self.time_signature.beats_per_measure();
        self.current_beat_in_measure = ((self.beat_count - 1) % beats_per_measure as u64) as u32 + 1;
        Beat::new_with_accent_setting(
            self.beat_count,
            self.time_signature,
            self.bpm,
            self.accent_enabled,
        )
    }

    /// Starts a stopped clock from beat 0 at the first position; a running
    /// clock is left as it is.
    pub fn start(&mut self)
        ensures
            old(self).is_running ==> *final(self) == *old(self),
            !old(self).is_running ==> final(self).start_time is Some && *final(self) == (
            MetronomeState {
                is_running: true,
                beat_count: 0,
                current_beat_in_measure: 1,
                start_time: final(self).start_time,
                ..*old(self)
            }),
    {
        if !self.is_running {
            self.start_time = Some(now());
            self.beat_count = 0;
            self.current_beat_in_measure = 1;
            self.is_running = true;
        }
    }

    /// Stops the clock; the counters stay for inspection.
    pub fn stop(&mut self)
        ensures
            *final(self) == (MetronomeState { is_running: false, start_time: None, ..*old(self) }),
    {
        self.is_running = false;
        self.start_time = None;
    }

    /// Moves the position back to the first beat of the measure.
    pub fn reset_beat_position(&mut self)
        ensures
            *final(self) == (MetronomeState { current_beat_in_measure: 1, ..*old(self) }),
    {
        self.current_beat_in_measure = 1;
    }

    /// Sets the tempo; one outside the accepted range is rejected and
    /// nothing changes.
    pub fn update_bpm(&mut self, bpm: u32) -> (r: Result<(), MetronomeError>)
        ensures
            bpm_in_range(bpm) ==> r is Ok && *final(self) == (MetronomeState { bpm, ..*old(self) }),
            !bpm_in_range(bpm) ==> r == Err::<(), MetronomeError>(MetronomeError::InvalidBpm(bpm))
                && *final(self) == *old(self),
    {
        if bpm < MIN_BPM || bpm > MAX_BPM {
            return Err(MetronomeError::InvalidBpm(bpm));
        }
        self.bpm = bpm;
        Ok(())
    }

    /// Sets the signature; on a running clock a fresh measure begins.
    pub fn update_time_signature(&mut self, time_signature: TimeSignature)
        ensures
            *final(self) == (MetronomeState {
                time_signature,
                current_beat_in_measure: if old(self).is_running {
                    1
                } else {
                    old(self).current_beat_in_measure
                },
                ..*old(self)
            }),
    {
        self.time_signature = time_signature;
        if self.is_running {
            self.current_beat_in_measure = 1;
        }
    }

    pub fn update_sounds(&mut self, beat_sound: SoundType, accent_sound: SoundType)
        ensures
            *final(self) == (MetronomeState { beat_sound, accent_sound, ..*old(self) }),
    {
        self.beat_sound = beat_sound;
        self.accent_sound = accent_sound;
    }

    pub fn update_accent_enabled(&mut self, accent_enabled: bool)
        ensures
            *final(self) == (MetronomeState { accent_enabled, ..*old(self) }),
    {
        self.accent_enabled = accent_enabled;
    }

    /// Sets the volume (percent); one outside 0..=100 is rejected and
    /// nothing changes.
    pub fn update_volume(&mut self, volume: i32) -> (r: Result<(), MetronomeError>)
        ensures
            volume_in_range(volume) ==> r is Ok && *final(self) == (MetronomeState {
                volume,
                ..*old(self)
            }),
            !volume_in_range(volume) ==> r == Err::<(), MetronomeError>(
                MetronomeError::InvalidVolume(volume),
            ) && *final(self) == *old(self),
    {
        if volume < 0 || volume > 100 {
            return Err(MetronomeError::InvalidVolume(volume));
        }
        self.volume = volume;
        Ok(())
    }

    /// Applies every supplied setting, or none of them: when a field is
    /// invalid the state is left as it was and the first error is returned.
    pub fn apply_settings(
        &mut self,
        bpm: Option<u32>,
        time_signature: Option<TimeSignature>,
        beat_sound: Option<SoundType>,
        accent_sound: Option<SoundType>,
        accent_enabled: Option<bool>,
        volume: Option<i32>,
    ) -> (r: Result<(), MetronomeError>)
        ensures
            *final(self) == settings_outcome(
                *old(self),
                bpm,
                time_signature,
                beat_sound,
                accent_sound,
                accent_enabled,
                volume,
            ),
            match settings_error(bpm, volume) {
                Some(e) => r == Err::<(), MetronomeError>(e),
                None => r is Ok,
            },
    {
        if let Some(b) = bpm {
            if b < MIN_BPM || b > MAX_BPM {
                return Err(MetronomeError::InvalidBpm(b));
            }
        }
        if let Some(v) = volume {
            if v < 0 || v > 100 {
                return Err(MetronomeError::InvalidVolume(v));
            }
        }
        if let Some(b) = bpm {
            self.bpm = b;
        }
        if let Some(t) = time_signature {
            self.update_time_signature(t);
        }
        if let Some(b) = beat_sound {
            self.beat_sound = b;
        }
        if let Some(a) = accent_sound {
            self.accent_sound = a;
        }
        if let Some(e) = accent_enabled {
            self.accent_enabled = e;
        }
        if let Some(v) = volume {
            self.volume = v;
        }
        Ok(())
    }

    /// The sound for the current position: the accent sound on the first
    /// beat of a measure, the beat sound elsewhere.
    pub fn current_sound_type(&self) -> (r: &SoundType)
        ensures
            *r == if self.current_beat_in_measure == 1 {
                self.accent_sound
            } else {
                self.beat_sound
            },
    {
        if self.current_beat_in_measure == 1 {
            &self.accent_sound
        } else {
            &self.beat_sound
        }
    }
}

} // verus!
