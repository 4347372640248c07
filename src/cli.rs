use crate::error::{CliError, MetronomeError};
use crate::models::{bpm_in_range, MAX_BPM, MIN_BPM};
use crate::text::{decimal, decimal_of};
use vstd::prelude::*;

verus! {

/// What the command line asks for: a tempo for the terminal mode.
#[derive(Debug, Clone)]
pub struct CliArgs {
    pub bpm: u32,
}

impl CliArgs {
    pub fn new(bpm: u32) -> (r: Self)
        ensures
            r.bpm == bpm,
    {
        CliArgs { bpm }
    }
}

/// How the application runs.
#[derive(Debug, Clone)]
pub enum AppMode {
    /// Terminal mode, with its arguments
    Cli(CliArgs),
    /// Graphical mode (no tempo given)
    Gui,
}

impl AppMode {
    /// Terminal mode when a tempo was given, graphical mode otherwise.
    pub fn from_cli_args(args: Option<CliArgs>) -> (r: AppMode)
        ensures
            match args {
                Some(a) => r matches AppMode::Cli(b) && b.bpm == a.bpm,
                None => r is Gui,
            },
    {
        match args {
            Some(a) => AppMode::Cli(a),
            None => AppMode::Gui,
        }
    }
}

/// Message for a tempo given on the command line that is out of range.
pub open spec fn out_of_range_message(bpm: u32) -> Seq<char> {
    "BPM must be between 60 and 200, got "@ + decimal_of(bpm as nat)
}

/// Message for a tempo that fails validation.
pub open spec fn invalid_bpm_message(bpm: u32) -> Seq<char> {
    "Invalid BPM value: "@ + decimal_of(bpm as nat) + ". Must be between 60 and 200"@
}

/// The arguments for a tempo read from the command line: `None` (graphical
/// mode) when none was given, an error when it is out of range.
pub fn args_from_bpm(bpm: Option<u32>) -> (r: Result<Option<CliArgs>, MetronomeError>)
    ensures
        match bpm {
            None => r == Ok::<Option<CliArgs>, MetronomeError>(None),
            Some(b) => if bpm_in_range(b) {
                r matches Ok(Some(a)) && a.bpm == b
            } else {
                r matches Err(MetronomeError::CliError(CliError::InvalidArgument(m))) && m@
                    == out_of_range_message(b)
            },
        },
{
    match bpm {
        Some(b) => {
            if b < MIN_BPM || b > MAX_BPM {
                let mut m = String::from_str("BPM must be between 60 and 200, got ");
                m.append(decimal(b as u64).as_str());
                return Err(MetronomeError::CliError(CliError::InvalidArgument(m)));
            }
            Ok(Some(CliArgs::new(b)))
        },
        None => Ok(None),
    }
}

/// Checks a tempo, reporting an out-of-range one as an invalid argument.
pub fn validate_bpm(bpm: u32) -> (r: Result<(), MetronomeError>)
    ensures
        r is Ok <==> bpm_in_range(bpm),
        !bpm_in_range(bpm) ==> (r matches Err(
            MetronomeError::CliError(CliError::InvalidArgument(m)),
        ) && m@ == invalid_bpm_message(bpm)),
{
    if bpm < MIN_BPM || bpm > MAX_BPM {
        let mut m = String::from_str("Invalid BPM value: ");
        m.append(decimal(bpm as u64).as_str());
        m.append(". Must be between 60 and 200");
        return Err(MetronomeError::CliError(CliError::InvalidArgument(m)));
    }
    Ok(())
}

} // verus!
