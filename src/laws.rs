//! Properties that relate several operations of the beat clock, proved over
//! the spec functions that the operations' contracts use.
use crate::models::{
    accent_table, advanced, beat_strength, bpm_in_range, interval_nanos, measure_len,
    describes, normalized_sequence, position_of, settings_outcome, strength_at, volume_in_range, Beat,
    MetronomeState, SoundType, TimeSignature, MEDIUM_ACCENT, NANOS_PER_MINUTE, STRONG_ACCENT,
};
use vstd::arithmetic::div_mod::{lemma_fundamental_div_mod, lemma_mod_add_multiples_vanish, lemma_mod_bound};
use vstd::prelude::*;

verus! {

/// The state after `n` beats fired one after another from `s`.
pub open spec fn advanced_n(s: MetronomeState, n: nat) -> MetronomeState
    decreases n,
{
    if n == 0 {
        s
    } else {
        advanced(advanced_n(s, (n - 1) as nat))
    }
}

/// At every accepted tempo the beat period is a minute divided by the tempo,
/// rounded to the nearest nanosecond: it is off from a `bpm`-th of a minute
/// by at most half a nanosecond, and exact wherever `bpm` divides a minute.
pub proof fn interval_is_minute_over_tempo(bpm: u32)
    requires
        bpm_in_range(bpm),
    ensures
        2 * interval_nanos(bpm) * bpm <= 2 * NANOS_PER_MINUTE + bpm,
        2 * NANOS_PER_MINUTE <= 2 * interval_nanos(bpm) * bpm + bpm,
        NANOS_PER_MINUTE as int % bpm as int == 0 ==> interval_nanos(bpm) * bpm
            == NANOS_PER_MINUTE,
{
    let m = NANOS_PER_MINUTE as int;
    let b = bpm as int;
    let h = b / 2;
    let q = (m + h) / b;
    let rem = (m + h) % b;
    lemma_fundamental_div_mod(m + h, b);
    lemma_mod_bound(m + h, b);
    lemma_fundamental_div_mod(m, b);
    lemma_mod_bound(m, b);
    assert(interval_nanos(bpm) == q);
    assert(2 * h <= b && 2 * h >= b - 1);
    assert(m + h == b * q + rem);
    assert(2 * q * b <= 2 * m + b && 2 * m <= 2 * q * b + b) by (nonlinear_arith)
        requires
            m + h == b * q + rem,
            0 <= rem < b,
            2 * h <= b,
            2 * h >= b - 1,
    ;
    if m % b == 0 {
        let k = m / b;
        assert(q == k) by (nonlinear_arith)
            requires
                m == b * k + 0,
                m + h == b * q + rem,
                0 <= rem < b,
                0 <= h < b,
                b > 0,
        ;
        assert(q * b == m) by (nonlinear_arith)
            requires
                q == k,
                m == b * k,
        ;
    }
}

/// The position of the n-th beat lies within the measure and repeats with
/// the measure's length as period.
pub proof fn position_cycles(ts: TimeSignature, n: int)
    requires
        n >= 1,
    ensures
        1 <= position_of(n, measure_len(ts) as int) <= measure_len(ts),
        position_of(n + measure_len(ts), measure_len(ts) as int) == position_of(
            n,
            measure_len(ts) as int,
        ),
{
    let len = measure_len(ts) as int;
    lemma_mod_add_multiples_vanish(n - 1, len);
    assert((n + len - 1) == len + (n - 1));
}

/// From a clock started afresh (no beat counted), `n` beats leave the
/// counter at `n` and the position at the `n`-th beat's place in the
/// measure, so the k-th descriptor carries sequence number k; tempo,
/// signature, sounds, accents, volume and running state do not move.
pub proof fn beats_count_from_start(s: MetronomeState, n: nat)
    requires
        s.beat_count == 0,
        n <= u64::MAX,
    ensures
        advanced_n(s, n).beat_count == n,
        n >= 1 ==> advanced_n(s, n).current_beat_in_measure as int == position_of(
            n as int,
            measure_len(s.time_signature) as int,
        ),
        advanced_n(s, n) == (MetronomeState {
            beat_count: advanced_n(s, n).beat_count,
            current_beat_in_measure: advanced_n(s, n).current_beat_in_measure,
            ..s
        }),
    decreases n,
{
    if n > 0 {
        beats_count_from_start(s, (n - 1) as nat);
        position_cycles(s.time_signature, n as int);
    }
}

/// The descriptor that the `n`-th beat after a fresh start returns carries
/// sequence number `n` and the `n`-th beat's position in the measure.
pub proof fn nth_beat_descriptor(s: MetronomeState, n: nat, b: Beat)
    requires
        s.beat_count == 0,
        1 <= n <= u64::MAX,
        describes(
            b,
            advanced_n(s, n).beat_count,
            s.time_signature,
            s.bpm,
            s.accent_enabled,
        ),
    ensures
        b.sequence_number == n,
        b.beat_in_measure as int == position_of(n as int, measure_len(s.time_signature) as int),
        1 <= b.beat_in_measure <= measure_len(s.time_signature),
{
    beats_count_from_start(s, n);
    position_cycles(s.time_signature, n as int);
}

/// Starting a stopped clock and firing `n` beats counts exactly `n` beats,
/// the `n`-th at its place in the measure: `started` is any state that
/// `MetronomeState::start` may leave from the stopped state `s`.
pub proof fn beats_after_start(s: MetronomeState, started: MetronomeState, n: nat)
    requires
        !s.is_running,
        started.start_time is Some,
        started == (MetronomeState {
            is_running: true,
            beat_count: 0,
            current_beat_in_measure: 1,
            start_time: started.start_time,
            ..s
        }),
        n <= u64::MAX,
    ensures
        advanced_n(started, n).beat_count == n,
        advanced_n(started, n).is_running,
        n >= 1 ==> advanced_n(started, n).current_beat_in_measure as int == position_of(
            n as int,
            measure_len(s.time_signature) as int,
        ),
{
    beats_count_from_start(started, n);
}

/// With accents switched off, every position of every signature has
/// strength zero.
pub proof fn accents_off_means_silent(ts: TimeSignature, pos: int)
    ensures
        strength_at(ts, pos, false) == 0,
{
}

/// The accent pattern has one entry per beat of the measure, each of them
/// strong, medium or none, and a downbeat is strong in every signature
/// that groups beats.
pub proof fn pattern_shape(ts: TimeSignature)
    ensures
        accent_table(ts).len() == measure_len(ts),
        forall|i: int|
            0 <= i < accent_table(ts).len() ==> #[trigger] accent_table(ts)[i] == 0
                || accent_table(ts)[i] == MEDIUM_ACCENT || accent_table(ts)[i] == STRONG_ACCENT,
        ts != TimeSignature::One ==> accent_table(ts)[0] == STRONG_ACCENT,
{
}

/// Every beat is exactly one of strong, medium and weak.
pub proof fn one_class_per_beat(b: Beat)
    ensures
        (beat_strength(b) >= STRONG_ACCENT) || (0 < beat_strength(b) < STRONG_ACCENT) || (
        beat_strength(b) == 0),
        !((beat_strength(b) >= STRONG_ACCENT) && (0 < beat_strength(b) < STRONG_ACCENT)),
        !((beat_strength(b) >= STRONG_ACCENT) && (beat_strength(b) == 0)),
        !((0 < beat_strength(b) < STRONG_ACCENT) && (beat_strength(b) == 0)),
{
}

/// A settings update that carries an invalid tempo or volume leaves every
/// field as it was, the valid fields it carries included.
pub proof fn invalid_update_changes_nothing(
    s: MetronomeState,
    bpm: Option<u32>,
    time_signature: Option<TimeSignature>,
    beat_sound: Option<SoundType>,
    accent_sound: Option<SoundType>,
    accent_enabled: Option<bool>,
    volume: Option<i32>,
)
    requires
        (bpm matches Some(b) && !bpm_in_range(b)) || (volume matches Some(v) && !volume_in_range(
            v,
        )),
    ensures
        settings_outcome(s, bpm, time_signature, beat_sound, accent_sound, accent_enabled, volume)
            == s,
{
}

/// A descriptor's sequence number is never zero; any other requested
/// number is kept.
pub proof fn sequence_never_zero(n: u64)
    ensures
        normalized_sequence(n) >= 1,
        n > 0 ==> normalized_sequence(n) == n,
{
}

} // verus!
