//! Timing and beat-state core of a metronome: tempo, time signatures,
//! accent strengths, beat descriptors and the lock-protected controller.

pub mod audio;
pub mod cli;
pub mod clock;
pub mod display;
pub mod error;
pub mod gui_state;
pub mod laws;
pub mod metronome;
pub mod models;
pub mod text;

pub use error::{AudioError, CliError, ConfigError, GuiError, MetronomeError};
pub use gui_state::GuiState;
pub use models::{Beat, MetronomeConfig, SoundType, TimeSignature};
