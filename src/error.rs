use crate::text::{decimal, decimal_of, joined, signed_decimal, signed_decimal_of};
use vstd::prelude::*;

verus! {

/// Errors of the audio collaborator.
#[derive(Debug, Clone, PartialEq, Eq)]
pub enum AudioError {
    DeviceNotAvailable,
    InitializationFailed(String),
    PlaybackFailed(String),
    UnsupportedFormat(String),
    SoundLoadError(String),
}

/// Errors of command-line handling.
#[derive(Debug, Clone, PartialEq, Eq)]
pub enum CliError {
    MissingArgument(String),
    InvalidArgument(String),
    ParsingFailed(String),
}

/// Errors of the graphical front end.
#[derive(Debug, Clone, PartialEq, Eq)]
pub enum GuiError {
    InitializationFailed(String),
    RenderingError(String),
    InvalidInput(String),
    FileDialogError(String),
    StateError(String),
    WidgetError(String),
}

/// Errors of configuration persistence.
#[derive(Debug, Clone, PartialEq, Eq)]
pub enum ConfigError {
    FileNotFound(String),
    ReadError(String),
    WriteError(String),
    ParseError(String),
    InvalidValue(String),
    ValidationError(String),
}

/// Every error the library reports.
#[derive(Debug, Clone, PartialEq, Eq)]
pub enum MetronomeError {
    /// A tempo outside the accepted range, with the rejected value
    InvalidBpm(u32),
    /// A volume outside 0..=100 percent, with the rejected value
    InvalidVolume(i32),
    AudioError(AudioError),
    CliError(CliError),
    GuiError(GuiError),
    ConfigError(ConfigError),
    SystemError(String),
}

/// Message text of an audio error.
pub open spec fn audio_error_text(e: AudioError) -> Seq<char> {
    match e {
        AudioError::DeviceNotAvailable => "Audio device not available"@,
        AudioError::InitializationFailed(s) => "Audio initialization failed: "@ + s@,
        AudioError::PlaybackFailed(s) => "Audio playback failed: "@ + s@,
        AudioError::UnsupportedFormat(s) => "Audio format not supported: "@ + s@,
        AudioError::SoundLoadError(s) => "Failed to load sound file: "@ + s@,
    }
}

/// Message text of a command-line error.
pub open spec fn cli_error_text(e: CliError) -> Seq<char> {
    match e {
        CliError::MissingArgument(s) => "Missing required argument: "@ + s@,
        CliError::InvalidArgument(s) => "Invalid argument value: "@ + s@,
        CliError::ParsingFailed(s) => "Argument parsing failed: "@ + s@,
    }
}

/// Message text of a front-end error.
pub open spec fn gui_error_text(e: GuiError) -> Seq<char> {
    match e {
        GuiError::InitializationFailed(s) => "GUI initialization failed: "@ + s@,
        GuiError::RenderingError(s) => "GUI rendering error: "@ + s@,
        GuiError::InvalidInput(s) => "Invalid input: "@ + s@,
        GuiError::FileDialogError(s) => "File dialog error: "@ + s@,
        GuiError::StateError(s) => "GUI state error: "@ + s@,
        GuiError::WidgetError(s) => "Widget error: "@ + s@,
    }
}

/// Message text of a configuration error.
pub open spec fn config_error_text(e: ConfigError) -> Seq<char> {
    match e {
        ConfigError::FileNotFound(s) => "Configuration file not found: "@ + s@,
        ConfigError::ReadError(s) => "Configuration file read error: "@ + s@,
        ConfigError::WriteError(s) => "Configuration file write error: "@ + s@,
        ConfigError::ParseError(s) => "Configuration parsing error: "@ + s@,
        ConfigError::InvalidValue(s) => "Invalid configuration value: "@ + s@,
        ConfigError::ValidationError(s) => "Configuration validation error: "@ + s@,
    }
}

/// Message text of any library error.
pub open spec fn error_text(e: MetronomeError) -> Seq<char> {
    match e {
        MetronomeError::InvalidBpm(b) => "Invalid BPM value: "@ + decimal_of(b as nat)
            + ". Must be between 60 and 200"@,
        MetronomeError::InvalidVolume(v) => "Invalid volume value: "@ + signed_decimal_of(v as int)
            + "%. Must be between 0% and 100%"@,
        MetronomeError::AudioError(a) => "Audio system error: "@ + audio_error_text(a),
        MetronomeError::CliError(c) => "CLI parsing error: "@ + cli_error_text(c),
        MetronomeError::GuiError(g) => "GUI error: "@ + gui_error_text(g),
        MetronomeError::ConfigError(c) => "Configuration error: "@ + config_error_text(c),
        MetronomeError::SystemError(s) => "System error: "@ + s@,
    }
}

impl AudioError {
    /// The message text.
    pub fn to_string(&self) -> (r: String)
        ensures
            r@ == audio_error_text(*self),
    {
        match self {
            AudioError::DeviceNotAvailable => String::from_str("Audio device not available"),
            AudioError::InitializationFailed(s) => joined("Audio initialization failed: ", s),
            AudioError::PlaybackFailed(s) => joined("Audio playback failed: ", s),
            AudioError::UnsupportedFormat(s) => joined("Audio format not supported: ", s),
            AudioError::SoundLoadError(s) => joined("Failed to load sound file: ", s),
        }
    }
}

impl CliError {
    /// The message text.
    pub fn to_string(&self) -> (r: String)
        ensures
            r@ == cli_error_text(*self),
    {
        match self {
            CliError::MissingArgument(s) => joined("Missing required argument: ", s),
            CliError::InvalidArgument(s) => joined("Invalid argument value: ", s),
            CliError::ParsingFailed(s) => joined("Argument parsing failed: ", s),
        }
    }
}

impl GuiError {
    /// The message text.
    pub fn to_string(&self) -> (r: String)
        ensures
            r@ == gui_error_text(*self),
    {
        match self {
            GuiError::InitializationFailed(s) => joined("GUI initialization failed: ", s),
            GuiError::RenderingError(s) => joined("GUI rendering error: ", s),
            GuiError::InvalidInput(s) => joined("Invalid input: ", s),
            GuiError::FileDialogError(s) => joined("File dialog error: ", s),
            GuiError::StateError(s) => joined("GUI state error: ", s),
            GuiError::WidgetError(s) => joined("Widget error: ", s),
        }
    }
}

impl ConfigError {
    /// The message text.
    pub fn to_string(&self) -> (r: String)
        ensures
            r@ == config_error_text(*self),
    {
        match self {
            ConfigError::FileNotFound(s) => joined("Configuration file not found: ", s),
            ConfigError::ReadError(s) => joined("Configuration file read error: ", s),
            ConfigError::WriteError(s) => joined("Configuration file write error: ", s),
            ConfigError::ParseError(s) => joined("Configuration parsing error: ", s),
            ConfigError::InvalidValue(s) => joined("Invalid configuration value: ", s),
            ConfigError::ValidationError(s) => joined("Configuration validation error: ", s),
        }
    }
}

impl MetronomeError {
    /// The message text.
    pub fn to_string(&self) -> (r: String)
        ensures
            r@ == error_text(*self),
    {
        match self {
            MetronomeError::InvalidBpm(b) => {
                let mut r = String::from_str("Invalid BPM value: ");
                r.append(decimal(*b as u64).as_str());
                r.append(". Must be between 60 and 200");
                r
            },
            MetronomeError::InvalidVolume(v) => {
                let mut r = String::from_str("Invalid volume value: ");
                r.append(signed_decimal(*v).as_str());
                r.append("%. Must be between 0% and 100%");
                r
            },
            MetronomeError::AudioError(a) => joined("Audio system error: ", a.to_string().as_str()),
            MetronomeError::CliError(c) => joined("CLI parsing error: ", c.to_string().as_str()),
            MetronomeError::GuiError(g) => joined("GUI error: ", g.to_string().as_str()),
            MetronomeError::ConfigError(c) => joined(
                "Configuration error: ",
                c.to_string().as_str(),
            ),
            MetronomeError::SystemError(s) => joined("System error: ", s),
        }
    }
}

} // verus!
