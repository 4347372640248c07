use crate::error::MetronomeError;
use crate::models::{
    bpm_in_range, describes, interval_nanos, settings_error, volume_in_range, Beat,
    MetronomeConfig, MetronomeState, SoundType, TimeSignature,
};
use std::sync::atomic::{AtomicBool, Ordering};
use std::time::Instant;
use vstd::prelude::*;
use vstd::rwlock::{RwLock, RwLockPredicate};

verus! {

/// The invariant every state held by a [`Metronome`] satisfies.
pub struct ValidState;

impl RwLockPredicate<MetronomeState> for ValidState {
    open spec fn inv(self, v: MetronomeState) -> bool {
        v.wf()
    }
}

/// Owner of one beat clock, behind a lock taken for the span of each call.
///
/// Other threads may act on the clock between two calls, so these methods
/// promise only what holds under any interleaving: the clock's invariant
/// and what the arguments alone decide. What each call does to the state it
/// holds the lock over is the contract of the `MetronomeState` method it
/// applies.
pub struct Metronome {
    state: RwLock<MetronomeState, ValidState>,
}

impl Metronome {
    /// A stopped metronome with the default configuration.
    pub fn new() -> (r: Self) {
        let config = MetronomeConfig::default();
        let state = MetronomeState::new(&config);
        Metronome { state: RwLock::new(state, Ghost(ValidState)) }
    }

    /// A stopped metronome seeded from `config`; its tempo must be in range.
    pub fn from_config(config: MetronomeConfig) -> (r: Result<Self, MetronomeError>)
        ensures
            r is Ok <==> bpm_in_range(config.bpm),
            !bpm_in_range(config.bpm) ==> (r matches Err(MetronomeError::InvalidBpm(b)) && b
                == config.bpm),
    {
        match config.validate() {
            Err(e) => Err(e),
            Ok(()) => {
                let state = MetronomeState::new(&config);
                Ok(Metronome { state: RwLock::new(state, Ghost(ValidState)) })
            },
        }
    }

    /// A stopped metronome at `bpm`, otherwise at defaults.
    pub fn with_bpm(bpm: u32) -> (r: Result<Self, MetronomeError>)
        ensures
            r is Ok <==> bpm_in_range(bpm),
            !bpm_in_range(bpm) ==> (r matches Err(MetronomeError::InvalidBpm(b)) && b == bpm),
    {
        Self::from_config(MetronomeConfig::new(bpm))
    }

    /// Sets the tempo; one out of range is rejected and nothing changes.
    pub fn set_bpm(&self, bpm: u32) -> (r: Result<(), MetronomeError>)
        ensures
            r is Ok <==> bpm_in_range(bpm),
            !bpm_in_range(bpm) ==> r == Err::<(), MetronomeError>(MetronomeError::InvalidBpm(bpm)),
    {
        let (mut state, handle) = self.state.acquire_write();
        let r = state.update_bpm(bpm);
        handle.release_write(state);
        r
    }

    /// Sets the signature; a running clock starts a fresh measure.
    pub fn set_time_signature(&self, time_signature: TimeSignature) {
        let (mut state, handle) = self.state.acquire_write();
        state.update_time_signature(time_signature);
        handle.release_write(state);
    }

    pub fn set_sounds(&self, beat_sound: SoundType, accent_sound: SoundType) {
        let (mut state, handle) = self.state.acquire_write();
        state.update_sounds(beat_sound, accent_sound);
        handle.release_write(state);
    }

    pub fn set_accent_enabled(&self, accent_enabled: bool) {
        let (mut state, handle) = self.state.acquire_write();
        state.update_accent_enabled(accent_enabled);
        handle.release_write(state);
    }

    /// Sets the volume (percent); one outside 0..=100 is rejected and
    /// nothing changes.
    pub fn set_volume(&self, volume: i32) -> (r: Result<(), MetronomeError>)
        ensures
            r is Ok <==> volume_in_range(volume),
            !volume_in_range(volume) ==> r == Err::<(), MetronomeError>(
                MetronomeError::InvalidVolume(volume),
            ),
    {
        let (mut state, handle) = self.state.acquire_write();
        let r = state.update_volume(volume);
        handle.release_write(state);
        r
    }

    pub fn get_volume(&self) -> i32 {
        let handle = self.state.acquire_read();
        let v = handle.borrow().volume;
        handle.release_read();
        v
    }

    pub fn get_time_signature(&self) -> TimeSignature {
        let handle = self.state.acquire_read();
        let t = handle.borrow().time_signature;
        handle.release_read();
        t
    }

    pub fn get_current_beat_in_measure(&self) -> u32 {
        let handle = self.state.acquire_read();
        let p = handle.borrow().current_beat_in_measure;
        handle.release_read();
        p
    }

    pub fn get_beats_per_measure(&self) -> (r: u32)
        ensures
            1 <= r <= 8,
    {
        let handle = self.state.acquire_read();
        let n = handle.borrow().time_signature.beats_per_measure();
        handle.release_read();
        n
    }

    /// Whether the current position is the first of its measure.
    pub fn is_accent_beat(&self) -> bool {
        let handle = self.state.acquire_read();
        let first = handle.borrow().current_beat_in_measure == 1;
        handle.release_read();
        first
    }

    /// The accent sound on the first beat of a measure, the beat sound
    /// elsewhere.
    pub fn get_beat_sound(&self) -> SoundType {
        let handle = self.state.acquire_read();
        let sound = handle.borrow().current_sound_type().duplicate();
        handle.release_read();
        sound
    }

    /// Moves the position back to the first beat, leaving the running state.
    pub fn reset_beat_position(&self) {
        let (mut state, handle) = self.state.acquire_write();
        state.reset_beat_position();
        handle.release_write(state);
    }

    /// Applies every supplied setting under one lock, or none of them.
    pub fn update_settings(
        &self,
        bpm: Option<u32>,
        time_signature: Option<TimeSignature>,
        beat_sound: Option<SoundType>,
        accent_sound: Option<SoundType>,
        accent_enabled: Option<bool>,
        volume: Option<i32>,
    ) -> (r: Result<(), MetronomeError>)
        ensures
            match settings_error(bpm, volume) {
                Some(e) => r == Err::<(), MetronomeError>(e),
                None => r is Ok,
            },
    {
        let (mut state, handle) = self.state.acquire_write();
        let r = state.apply_settings(
            bpm,
            time_signature,
            beat_sound,
            accent_sound,
            accent_enabled,
            volume,
        );
        handle.release_write(state);
        r
    }

    /// Whether a beat is due, the last one having fired at `last_beat_time`.
    pub fn should_play_beat_safe(&self, last_beat_time: Instant) -> bool {
        let handle = self.state.acquire_read();
        let due = handle.borrow().should_fire(&last_beat_time);
        handle.release_read();
        due
    }

    pub fn get_current_sound_type(&self) -> SoundType {
        self.get_beat_sound()
    }

    pub fn start(&self) -> (r: Result<(), MetronomeError>)
        ensures
            r is Ok,
    {
        let (mut state, handle) = self.state.acquire_write();
        state.start();
        handle.release_write(state);
        Ok(())
    }

    pub fn stop(&self) {
        let (mut state, handle) = self.state.acquire_write();
        state.stop();
        handle.release_write(state);
    }

    pub fn is_running(&self) -> bool {
        let handle = self.state.acquire_read();
        let running = handle.borrow().is_running;
        handle.release_read();
        running
    }

    pub fn get_bpm(&self) -> (r: u32)
        ensures
            bpm_in_range(r),
    {
        let handle = self.state.acquire_read();
        let bpm = handle.borrow().bpm;
        handle.release_read();
        bpm
    }

    /// Beat period in nanoseconds at the current tempo.
    pub fn get_interval(&self) -> (r: u64)
        ensures
            exists|bpm: u32| bpm_in_range(bpm) && r == #[trigger] interval_nanos(bpm),
    {
        let handle = self.state.acquire_read();
        let state = handle.borrow();
        let interval = state.get_interval();
        assert(bpm_in_range(state.bpm) && interval == interval_nanos(state.bpm));
        handle.release_read();
        interval
    }

    /// Nanoseconds since the start, or 0 when stopped.
    pub fn get_elapsed_time(&self) -> u64 {
        let handle = self.state.acquire_read();
        let elapsed = handle.borrow().get_elapsed_time();
        handle.release_read();
        elapsed
    }

    pub fn get_beat_count(&self) -> u64 {
        let handle = self.state.acquire_read();
        let count = handle.borrow().beat_count;
        handle.release_read();
        count
    }

    /// Fires one beat and describes it.
    pub fn increment_beat(&self) -> (r: Beat)
        ensures
            bpm_in_range(r.bpm),
            describes(r, r.sequence_number, r.time_signature, r.bpm, r.accent_enabled),
    {
        let (mut state, handle) = self.state.acquire_write();
        let beat = state.increment_beat();
        handle.release_write(state);
        beat
    }

    /// A copy of the whole state.
    pub fn get_state(&self) -> (r: MetronomeState)
        ensures
            r.wf(),
    {
        let handle = self.state.acquire_read();
        let state = handle.borrow().snapshot();
        handle.release_read();
        state
    }

    pub fn should_play_beat(&self, last_beat_time: Instant) -> bool {
        self.should_play_beat_safe(last_beat_time)
    }

    /// Tempo, beat count, elapsed nanoseconds, signature, position and
    /// running flag, read under one lock.
    pub fn get_display_state(&self) -> (r: (u32, u64, u64, TimeSignature, u32, bool))
        ensures
            bpm_in_range(r.0),
    {
        let handle = self.state.acquire_read();
        let state = handle.borrow();
        let r = (
            state.bpm,
            state.beat_count,
            state.get_elapsed_time(),
            state.time_signature,
            state.current_beat_in_measure,
            state.is_running,
        );
        handle.release_read();
        r
    }
}

/// A metronome plus a continuation flag that is read and written without
/// the metronome's lock, so a cancellation source never waits on it.
pub struct MetronomeController {
    metronome: Metronome,
    running: AtomicBool,
}

impl MetronomeController {
    /// A stopped controller at `bpm`; the flag starts cleared.
    pub fn new(bpm: u32) -> (r: Result<Self, MetronomeError>)
        ensures
            r is Ok <==> bpm_in_range(bpm),
            !bpm_in_range(bpm) ==> (r matches Err(MetronomeError::InvalidBpm(b)) && b == bpm),
    {
        match Metronome::with_bpm(bpm) {
            Ok(metronome) => Ok(MetronomeController { metronome, running: AtomicBool::new(false) }),
            Err(e) => Err(e),
        }
    }

    /// Sets the flag, then starts the clock.
    pub fn start(&mut self) -> (r: Result<(), MetronomeError>)
        ensures
            r is Ok,
    {
        self.start_safe()
    }

    /// Clears the flag, then stops the clock.
    pub fn stop(&mut self) {
        self.stop_safe()
    }

    /// Whether the flag is set and the clock runs.
    pub fn is_running(&self) -> bool {
        self.running.load(Ordering::SeqCst) && self.metronome.is_running()
    }

    /// Reads the flag only; never takes the lock.
    pub fn should_continue(&self) -> bool {
        self.running.load(Ordering::SeqCst)
    }

    pub fn get_metronome(&self) -> &Metronome {
        &self.metronome
    }

    pub fn get_metronome_mut(&mut self) -> &mut Metronome {
        &mut self.metronome
    }

    /// Sets the flag, then starts the clock.
    pub fn start_safe(&self) -> (r: Result<(), MetronomeError>)
        ensures
            r is Ok,
    {
        self.running.store(true, Ordering::SeqCst);
        self.metronome.start()
    }

    /// Clears the flag, then stops the clock.
    pub fn stop_safe(&self) {
        self.running.store(false, Ordering::SeqCst);
        self.metronome.stop();
    }

    /// Clears the flag only, without the lock: for cancellation sources
    /// such as signal handlers.
    pub fn request_stop(&self) {
        self.running.store(false, Ordering::SeqCst);
    }

    /// Reads the flag only; never takes the lock.
    pub fn should_continue_safe(&self) -> bool {
        self.running.load(Ordering::SeqCst)
    }

    /// Applies every supplied setting under one lock, or none of them.
    pub fn update_metronome_settings(
        &self,
        bpm: Option<u32>,
        time_signature: Option<TimeSignature>,
        beat_sound: Option<SoundType>,
        accent_sound: Option<SoundType>,
        accent_enabled: Option<bool>,
        volume: Option<i32>,
    ) -> (r: Result<(), MetronomeError>)
        ensures
            match settings_error(bpm, volume) {
                Some(e) => r == Err::<(), MetronomeError>(e),
                None => r is Ok,
            },
    {
        self.metronome.update_settings(
            bpm,
            time_signature,
            beat_sound,
            accent_sound,
            accent_enabled,
            volume,
        )
    }
}

} // verus!
