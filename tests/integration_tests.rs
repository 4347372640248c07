use cli_metronome::cli::validate_bpm;
use cli_metronome::metronome::{Metronome, MetronomeController};
use cli_metronome::models::MetronomeConfig;
use cli_metronome::MetronomeError;
use std::time::Duration;

#[test]
fn test_bpm_validation_integration() {
    assert!(validate_bpm(60).is_ok());
    assert!(validate_bpm(120).is_ok());
    assert!(validate_bpm(200).is_ok());

    assert!(validate_bpm(59).is_err());
    assert!(validate_bpm(201).is_err());

    let config = MetronomeConfig::new(120);
    assert!(config.validate().is_ok());

    let config = MetronomeConfig::new(59);
    assert!(config.validate().is_err());
}

#[test]
fn test_metronome_timing_accuracy() {
    let metronome = Metronome::with_bpm(60).unwrap();
    assert_eq!(Duration::from_nanos(metronome.get_interval()), Duration::from_secs(1));

    let metronome = Metronome::with_bpm(120).unwrap();
    assert_eq!(Duration::from_nanos(metronome.get_interval()), Duration::from_millis(500));

    let metronome = Metronome::with_bpm(200).unwrap();
    assert_eq!(Duration::from_nanos(metronome.get_interval()), Duration::from_millis(300));
}

#[test]
fn test_error_handling_integration() {
    let result = MetronomeController::new(300);
    assert!(result.is_err());

    if let Err(error) = result {
        match error {
            MetronomeError::InvalidBpm(bpm) => assert_eq!(bpm, 300),
            _ => panic!("Expected InvalidBpm error"),
        }
    } else {
        panic!("Expected error for invalid BPM");
    }
}
