use crate::models::{beat_strength, label_of, measure_len, Beat, TimeSignature, STRONG_ACCENT};
use crate::text::{decimal, decimal_of};
use std::time::Instant;
use vstd::prelude::*;

verus! {

/// `strong`, `medium` or `weak`, after the class of the beat's strength.
pub open spec fn by_strength(b: Beat, strong: Seq<char>, medium: Seq<char>, weak: Seq<char>) -> Seq<
    char,
> {
    if beat_strength(b) >= STRONG_ACCENT {
        strong
    } else if beat_strength(b) > 0 {
        medium
    } else {
        weak
    }
}

/// Cells 1..=i of the measure view of `b`: the beat's own cell
/// highlighted, the others dimmed, separated by spaces.
pub open spec fn position_cells(b: Beat, highlight: Seq<char>, i: nat) -> Seq<char>
    decreases i,
{
    if i == 0 {
        Seq::empty()
    } else {
        position_cells(b, highlight, (i - 1) as nat) + (if i == b.beat_in_measure {
            highlight
        } else {
            "\x1b[2m·\x1b[0m"@
        }) + (if i < measure_len(b.time_signature) {
            " "@
        } else {
            Seq::empty()
        })
    }
}

/// The first `i` cells of a progress bar with `filled` filled cells.
pub open spec fn bar_cells(filled: nat, i: nat) -> Seq<char>
    decreases i,
{
    if i == 0 {
        Seq::empty()
    } else {
        bar_cells(filled, (i - 1) as nat) + (if i - 1 < filled {
            "\x1b[32m█\x1b[0m"@
        } else {
            "\x1b[2m░\x1b[0m"@
        })
    }
}

/// Cells in a measure progress bar.
pub const BAR_WIDTH: u64 = 20;

/// Filled cells of the progress bar for position `current` of `total`.
pub open spec fn filled_cells(current: u32, total: nat) -> nat {
    (current as nat * BAR_WIDTH as nat / total) as nat
}

/// Terminal display state: when the session started.
pub struct DisplayEngine {
    pub start_time: Option<Instant>,
}

impl DisplayEngine {
    pub fn new() -> (r: Self)
        ensures
            r.start_time is None,
    {
        DisplayEngine { start_time: None }
    }

    pub fn set_start_time(&mut self, start_time: Instant)
        ensures
            final(self).start_time == Some(start_time),
    {
        self.start_time = Some(start_time);
    }

    /// Note symbol for a beat: longer for stronger beats.
    pub fn get_beat_indicator_symbol(&self, beat: &Beat) -> (r: &'static str)
        ensures
            r@ == if beat_strength(*beat) >= STRONG_ACCENT {
                "♪♫♪"@
            } else if beat_strength(*beat) > 0 {
                "♪♫"@
            } else {
                "♪"@
            },
    {
        let strength = beat.get_accent_strength();
        if strength >= STRONG_ACCENT {
            "♪♫♪"
        } else if strength > 0 {
            "♪♫"
        } else {
            "♪"
        }
    }

    /// Circle symbol for a beat: solid, half or empty.
    pub fn get_visual_beat_symbol(&self, beat: &Beat) -> (r: &'static str)
        ensures
            r@ == by_strength(*beat, "●"@, "◐"@, "○"@),
    {
        let strength = beat.get_accent_strength();
        if strength >= STRONG_ACCENT {
            "●"
        } else if strength > 0 {
            "◐"
        } else {
            "○"
        }
    }

    /// Circle symbol for a beat, coloured after its strength.
    pub fn get_enhanced_visual_beat_symbol(&self, beat: &Beat) -> (r: &'static str)
        ensures
            r@ == by_strength(
                *beat,
                "\x1b[1;31m●\x1b[0m"@,
                "\x1b[1;33m◐\x1b[0m"@,
                "\x1b[2m○\x1b[0m"@,
            ),
    {
        let strength = beat.get_accent_strength();
        if strength >= STRONG_ACCENT {
            "\x1b[1;31m●\x1b[0m"
        } else if strength > 0 {
            "\x1b[1;33m◐\x1b[0m"
        } else {
            "\x1b[2m○\x1b[0m"
        }
    }

    /// The signature's label in cyan.
    pub fn get_time_signature_display(&self, time_signature: TimeSignature) -> (r: String)
        ensures
            r@ == "\x1b[36m"@ + label_of(time_signature) + "\x1b[0m"@,
    {
        let mut r = String::from_str("\x1b[36m");
        r.append(time_signature.as_str());
        r.append("\x1b[0m");
        r
    }

    /// The measure as a row of cells, the beat's own cell highlighted after
    /// its strength.
    pub fn get_beat_position_display(&self, beat: &Beat) -> (r: String)
        ensures
            r@ == "["@ + position_cells(
                *beat,
                by_strength(
                    *beat,
                    "\x1b[1;31m●\x1b[0m"@,
                    "\x1b[1;33m◐\x1b[0m"@,
                    "\x1b[1;37m○\x1b[0m"@,
                ),
                measure_len(beat.time_signature),
            ) + "]"@,
    {
        let total = beat.time_signature.beats_per_measure();
        let highlight: &str = if beat.is_strong_beat() {
            "\x1b[1;31m●\x1b[0m"
        } else if beat.is_medium_beat() {
            "\x1b[1;33m◐\x1b[0m"
        } else {
            "\x1b[1;37m○\x1b[0m"
        };
        let mut display = String::from_str("[");
        let mut i: u32 = 1;
        while i <= total
            invariant
                1 <= i <= total + 1,
                total as nat == measure_len(beat.time_signature),
                total <= 8,
                display@ == "["@ + position_cells(*beat, highlight@, (i - 1) as nat),
            decreases total + 1 - i,
        {
            let ghost before = display@;
            if i == beat.beat_in_measure {
                display.append(highlight);
            } else {
                display.append("\x1b[2m·\x1b[0m");
            }
            if i < total {
                display.append(" ");
            }
            assert(display@ =~= "["@ + position_cells(*beat, highlight@, i as nat));
            i = i + 1;
        }
        display.append("]");
        display
    }

    /// A word for the beat's strength, coloured.
    pub fn get_beat_strength_indicator(&self, beat: &Beat) -> (r: String)
        ensures
            r@ == by_strength(
                *beat,
                "\x1b[1;31mSTRONG\x1b[0m"@,
                "\x1b[1;33mMEDIUM\x1b[0m"@,
                "\x1b[2mweak\x1b[0m"@,
            ),
    {
        let strength = beat.get_accent_strength();
        if strength >= STRONG_ACCENT {
            String::from_str("\x1b[1;31mSTRONG\x1b[0m")
        } else if strength > 0 {
            String::from_str("\x1b[1;33mMEDIUM\x1b[0m")
        } else {
            String::from_str("\x1b[2mweak\x1b[0m")
        }
    }

    /// A bar of twenty cells filled in proportion to the beat's position in
    /// its measure, followed by "position/length".
    pub fn get_measure_progress_bar(&self, beat: &Beat) -> (r: String)
        ensures
            r@ == "["@ + bar_cells(
                filled_cells(beat.beat_in_measure, measure_len(beat.time_signature)),
                BAR_WIDTH as nat,
            ) + "]"@ + " "@ + decimal_of(beat.beat_in_measure as nat) + "/"@ + decimal_of(
                measure_len(beat.time_signature),
            ),
    {
        let total = beat.time_signature.beats_per_measure();
        let current = beat.beat_in_measure;
        let filled: u64 = current as u64 * BAR_WIDTH / total as u64;
        let mut bar = String::from_str("[");
        let mut i: u64 = 0;
        while i < BAR_WIDTH
            invariant
                i <= BAR_WIDTH,
                filled == filled_cells(current, measure_len(beat.time_signature)),
                bar@ == "["@ + bar_cells(filled as nat, i as nat),
            decreases BAR_WIDTH - i,
        {
            if i < filled {
                bar.append("\x1b[32m█\x1b[0m");
            } else {
                bar.append("\x1b[2m░\x1b[0m");
            }
            assert(bar@ =~= "["@ + bar_cells(filled as nat, (i + 1) as nat));
            i = i + 1;
        }
        bar.append("]");
        bar.append(" ");
        bar.append(decimal(current as u64).as_str());
        bar.append("/");
        bar.append(decimal(total as u64).as_str());
        bar
    }
}

} // verus!
