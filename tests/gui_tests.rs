use cli_metronome::error::GuiError;
use cli_metronome::models::{GuiState, SoundType, TimeSignature};
use cli_metronome::MetronomeError;
use std::time::{Duration, Instant};

#[test]
fn test_gui_feature_disabled() {
    assert!(true, "GUI feature is disabled, but compilation succeeded");
}

#[test]
fn gui_tests_test_gui_state_creation() {
    let gui_state = GuiState::new();

    assert_eq!(gui_state.bpm_input, "120");
    assert!(gui_state.bpm_valid);
    assert_eq!(gui_state.selected_time_signature, TimeSignature::Four);
    assert_eq!(gui_state.selected_beat_sound, SoundType::BuiltinClick);
    assert_eq!(gui_state.selected_accent_sound, SoundType::BuiltinWood);
    assert!(!gui_state.is_running);
    assert!(gui_state.error_message.is_none());
    assert!(gui_state.last_beat_visual.is_none());
}

#[test]
fn gui_tests_test_gui_state_bpm_validation() {
    let mut gui_state = GuiState::new();

    let result = gui_state.validate_bpm("120");
    assert!(result.is_ok());
    assert_eq!(result.unwrap(), 120);
    assert!(gui_state.bpm_valid);
    assert!(gui_state.error_message.is_none());

    let result = gui_state.validate_bpm("60");
    assert!(result.is_ok());
    assert_eq!(result.unwrap(), 60);
    assert!(gui_state.bpm_valid);

    let result = gui_state.validate_bpm("200");
    assert!(result.is_ok());
    assert_eq!(result.unwrap(), 200);
    assert!(gui_state.bpm_valid);
}

#[test]
fn test_gui_state_bpm_validation_invalid() {
    let mut gui_state = GuiState::new();

    let result = gui_state.validate_bpm("59");
    assert!(result.is_err());
    assert!(!gui_state.bpm_valid);
    assert!(gui_state.error_message.is_some());
    assert!(gui_state.error_message.as_ref().unwrap().contains("60 and 200"));

    let result = gui_state.validate_bpm("201");
    assert!(result.is_err());
    assert!(!gui_state.bpm_valid);
    assert!(gui_state.error_message.is_some());
}

#[test]
fn test_gui_state_bpm_validation_non_numeric() {
    let mut gui_state = GuiState::new();

    let result = gui_state.validate_bpm("abc");
    assert!(result.is_err());
    assert!(!gui_state.bpm_valid);
    assert!(gui_state.error_message.is_some());
    assert!(gui_state.error_message.as_ref().unwrap().contains("Invalid BPM value"));

    let result = gui_state.validate_bpm("");
    assert!(result.is_err());
    assert!(!gui_state.bpm_valid);

    let result = gui_state.validate_bpm("   ");
    assert!(result.is_err());
    assert!(!gui_state.bpm_valid);
}

#[test]
fn gui_tests_test_gui_state_error_handling() {
    let mut gui_state = GuiState::new();

    gui_state.set_error("Test error message".to_string());
    assert!(gui_state.error_message.is_some());
    assert_eq!(gui_state.error_message.as_ref().unwrap(), "Test error message");

    gui_state.clear_error();
    assert!(gui_state.error_message.is_none());

    let gui_error = GuiError::InvalidInput("Test GUI error".to_string());
    gui_state.set_gui_error(gui_error);
    assert!(gui_state.error_message.is_some());
    assert!(gui_state.error_message.as_ref().unwrap().contains("Test GUI error"));
}

#[test]
fn test_gui_state_result_handling() {
    let mut gui_state = GuiState::new();

    let ok_result: Result<u32, MetronomeError> = Ok(120);
    let value = gui_state.handle_result(ok_result);
    assert_eq!(value, Some(120));
    assert!(gui_state.error_message.is_none());

    let err_result: Result<u32, MetronomeError> = Err(MetronomeError::InvalidBpm(59));
    let value = gui_state.handle_result(err_result);
    assert_eq!(value, None);
    assert!(gui_state.error_message.is_some());
    assert!(gui_state.error_message.as_ref().unwrap().contains("Invalid BPM"));
}

#[test]
fn test_gui_state_beat_visual() {
    let mut gui_state = GuiState::new();
    let window = Duration::from_millis(100).as_nanos() as u64;

    assert!(gui_state.last_beat_visual.is_none());
    assert!(!gui_state.should_show_beat_visual(window));

    gui_state.update_beat_visual();
    assert!(gui_state.last_beat_visual.is_some());
    assert!(gui_state.should_show_beat_visual(window));

    let waited = Instant::now();
    while waited.elapsed() < Duration::from_millis(150) {}
    assert!(!gui_state.should_show_beat_visual(window));
}

#[test]
fn test_gui_state_time_signature_selection() {
    let mut gui_state = GuiState::new();

    assert_eq!(gui_state.selected_time_signature, TimeSignature::Four);

    gui_state.selected_time_signature = TimeSignature::Three;
    assert_eq!(gui_state.selected_time_signature, TimeSignature::Three);

    gui_state.selected_time_signature = TimeSignature::Six;
    assert_eq!(gui_state.selected_time_signature, TimeSignature::Six);
}

#[test]
fn test_gui_state_sound_selection() {
    let mut gui_state = GuiState::new();

    assert_eq!(gui_state.selected_beat_sound, SoundType::BuiltinClick);
    assert_eq!(gui_state.selected_accent_sound, SoundType::BuiltinWood);

    gui_state.selected_beat_sound = SoundType::BuiltinBeep;
    assert_eq!(gui_state.selected_beat_sound, SoundType::BuiltinBeep);

    gui_state.selected_accent_sound = SoundType::BuiltinClick;
    assert_eq!(gui_state.selected_accent_sound, SoundType::BuiltinClick);

    let custom_path = "test.wav".to_string();
    gui_state.selected_beat_sound = SoundType::Custom(custom_path.clone());
    assert_eq!(gui_state.selected_beat_sound, SoundType::Custom(custom_path));
}

#[test]
fn test_gui_control_validation() {
    let mut gui_state = GuiState::new();

    let result = gui_state.validate_bpm("  120  ");
    assert!(result.is_ok());
    assert_eq!(result.unwrap(), 120);

    let result = gui_state.validate_bpm("120.5");
    assert!(result.is_err());

    let result = gui_state.validate_bpm("-120");
    assert!(result.is_err());

    let result = gui_state.validate_bpm("0");
    assert!(result.is_err());
}

#[test]
fn test_gui_state_running_status() {
    let mut gui_state = GuiState::new();

    assert!(!gui_state.is_running);

    gui_state.is_running = true;
    assert!(gui_state.is_running);

    gui_state.is_running = false;
    assert!(!gui_state.is_running);
}

#[test]
fn test_gui_state_accent_enabled() {
    let mut gui_state = GuiState::new();

    assert!(gui_state.accent_enabled);

    gui_state.accent_enabled = false;
    assert!(!gui_state.accent_enabled);

    gui_state.accent_enabled = true;
    assert!(gui_state.accent_enabled);
}

#[test]
fn bpm_text_messages_and_values() {
    let mut gui_state = GuiState::new();
    assert!(matches!(gui_state.check_bpm_text("+90"), Ok(90)));
    assert!(matches!(gui_state.check_bpm_text("4294967296"), Err(MetronomeError::InvalidBpm(0))));
    assert_eq!(gui_state.error_message.as_deref(), Some("Invalid BPM value. Please enter a number."));
    assert!(matches!(gui_state.check_bpm_text("250"), Err(MetronomeError::InvalidBpm(250))));
    assert_eq!(gui_state.error_message.as_deref(), Some("BPM must be between 60 and 200 (got 250)"));
    assert!(matches!(gui_state.check_bpm_text(" 90"), Err(MetronomeError::InvalidBpm(0))));
    assert!(matches!(gui_state.validate_bpm("\t75\n"), Ok(75)));
    assert!(gui_state.error_message.is_none());
}

#[test]
fn error_texts() {
    assert_eq!(
        MetronomeError::InvalidBpm(59).to_string(),
        "Invalid BPM value: 59. Must be between 60 and 200"
    );
    assert_eq!(
        MetronomeError::InvalidVolume(-10).to_string(),
        "Invalid volume value: -10%. Must be between 0% and 100%"
    );
    assert_eq!(
        MetronomeError::GuiError(GuiError::WidgetError("slider".to_string())).to_string(),
        "GUI error: Widget error: slider"
    );
    assert_eq!(
        MetronomeError::SystemError("boom".to_string()).to_string(),
        "System error: boom"
    );
}
