use cli_metronome::cli::{args_from_bpm, validate_bpm, AppMode, CliArgs};
use cli_metronome::{CliError, MetronomeError};

#[test]
fn test_cli_args_creation() {
    let args = CliArgs::new(120);
    assert_eq!(args.bpm, 120);
}

#[test]
fn test_bpm_validation_valid() {
    assert!(validate_bpm(60).is_ok());
    assert!(validate_bpm(120).is_ok());
    assert!(validate_bpm(200).is_ok());
}

#[test]
fn test_bpm_validation_invalid() {
    assert!(validate_bpm(59).is_err());
    assert!(validate_bpm(201).is_err());
    assert!(validate_bpm(0).is_err());
}

#[test]
fn test_parse_args_with_bpm() {
    let args = CliArgs::new(120);
    assert_eq!(args.bpm, 120);
}

#[test]
fn test_cli_args_optional_behavior() {
    let args = CliArgs::new(120);
    assert_eq!(args.bpm, 120);

    assert!(validate_bpm(120).is_ok());
    assert!(validate_bpm(59).is_err());
    assert!(validate_bpm(201).is_err());
}

#[test]
fn test_app_mode_variants() {
    let cli_args = CliArgs { bpm: 120 };
    let cli_mode = AppMode::Cli(cli_args);
    let gui_mode = AppMode::Gui;

    match cli_mode {
        AppMode::Cli(args) => assert_eq!(args.bpm, 120),
        _ => panic!("Expected CLI mode"),
    }

    match gui_mode {
        AppMode::Gui => (),
        _ => panic!("Expected GUI mode"),
    }
}

#[test]
fn test_determine_mode_logic() {
    let cli_args = CliArgs { bpm: 120 };
    let cli_mode = AppMode::Cli(cli_args);
    let gui_mode = AppMode::Gui;

    match cli_mode {
        AppMode::Cli(args) => assert_eq!(args.bpm, 120),
        _ => panic!("Expected CLI mode"),
    }

    match gui_mode {
        AppMode::Gui => (),
        _ => panic!("Expected GUI mode"),
    }
}

#[test]
fn validate_bpm_message_names_the_value() {
    match validate_bpm(59) {
        Err(MetronomeError::CliError(CliError::InvalidArgument(m))) => {
            assert_eq!(m, "Invalid BPM value: 59. Must be between 60 and 200")
        }
        _ => panic!("expected an invalid argument"),
    }
    match validate_bpm(1234) {
        Err(MetronomeError::CliError(CliError::InvalidArgument(m))) => {
            assert_eq!(m, "Invalid BPM value: 1234. Must be between 60 and 200")
        }
        _ => panic!("expected an invalid argument"),
    }
}

#[test]
fn args_from_bpm_selects_mode() {
    assert!(matches!(args_from_bpm(None), Ok(None)));
    match args_from_bpm(Some(80)) {
        Ok(Some(a)) => assert_eq!(a.bpm, 80),
        _ => panic!("expected arguments"),
    }
    match args_from_bpm(Some(201)) {
        Err(MetronomeError::CliError(CliError::InvalidArgument(m))) => {
            assert_eq!(m, "BPM must be between 60 and 200, got 201")
        }
        _ => panic!("expected an invalid argument"),
    }
    assert!(matches!(AppMode::from_cli_args(None), AppMode::Gui));
    assert!(matches!(
        AppMode::from_cli_args(Some(CliArgs::new(90))),
        AppMode::Cli(CliArgs { bpm: 90 })
    ));
}
