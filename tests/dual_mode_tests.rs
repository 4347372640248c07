use cli_metronome::cli::{AppMode, CliArgs};
use cli_metronome::metronome::{Metronome, MetronomeController};
use cli_metronome::models::{Beat, MetronomeConfig, SoundType, TimeSignature};
use cli_metronome::MetronomeError;

#[test]
fn test_app_mode_creation() {
    let cli_args = CliArgs::new(120);
    let cli_mode = AppMode::Cli(cli_args);

    match cli_mode {
        AppMode::Cli(args) => assert_eq!(args.bpm, 120),
        _ => panic!("Expected CLI mode"),
    }

    let gui_mode = AppMode::Gui;
    match gui_mode {
        AppMode::Gui => (),
        _ => panic!("Expected GUI mode"),
    }
}

#[test]
fn test_dual_mode_consistency_bpm_validation() {
    let cli_result_valid = cli_metronome::cli::validate_bpm(120);
    assert!(cli_result_valid.is_ok());

    let cli_result_invalid = cli_metronome::cli::validate_bpm(59);
    assert!(cli_result_invalid.is_err());

    let config_valid = MetronomeConfig::new(120);
    assert!(config_valid.validate().is_ok());

    let config_invalid = MetronomeConfig::new(59);
    assert!(config_invalid.validate().is_err());
}

#[test]
fn test_dual_mode_consistency_time_signatures() {
    let time_signatures = [
        TimeSignature::Two,
        TimeSignature::Three,
        TimeSignature::Four,
        TimeSignature::Six,
    ];

    for time_sig in &time_signatures {
        let beats_per_measure = time_sig.beats_per_measure();
        let display_str = time_sig.as_str();

        assert!(beats_per_measure > 0);
        assert!(!display_str.is_empty());

        let controller = MetronomeController::new(120).unwrap();
        controller.get_metronome().set_time_signature(*time_sig);
        assert_eq!(controller.get_metronome().get_time_signature(), *time_sig);
    }
}

#[test]
fn test_dual_mode_metronome_core_consistency() {
    let bpm = 120;
    let time_sig = TimeSignature::Four;

    let cli_controller = MetronomeController::new(bpm).unwrap();
    cli_controller.get_metronome().set_time_signature(time_sig);

    assert_eq!(cli_controller.get_metronome().get_bpm(), bpm);
    assert_eq!(cli_controller.get_metronome().get_time_signature(), time_sig);
    assert!(!cli_controller.is_running());

    assert!(cli_controller.start_safe().is_ok());
    assert!(cli_controller.is_running());

    let gui_metronome = Metronome::with_bpm(bpm).unwrap();
    gui_metronome.set_time_signature(time_sig);

    assert_eq!(gui_metronome.get_bpm(), bpm);
    assert_eq!(gui_metronome.get_time_signature(), time_sig);
    assert!(!gui_metronome.is_running());

    assert!(gui_metronome.start().is_ok());
    assert!(gui_metronome.is_running());

    assert_eq!(cli_controller.get_metronome().get_interval(), gui_metronome.get_interval());

    gui_metronome.stop();
    cli_controller.stop_safe();
}

#[test]
fn test_dual_mode_error_handling_consistency() {
    let cli_error = cli_metronome::cli::validate_bpm(59);
    assert!(cli_error.is_err());

    let metronome_error = MetronomeController::new(59);
    assert!(metronome_error.is_err());

    match metronome_error {
        Err(MetronomeError::InvalidBpm(bpm)) => assert_eq!(bpm, 59),
        _ => panic!("Expected InvalidBpm error"),
    }
}

#[test]
fn test_dual_mode_beat_generation_consistency() {
    let time_sig = TimeSignature::Four;
    let bpm = 120;

    for beat_num in 1..=8 {
        let beat = Beat::new(beat_num, time_sig, bpm);

        assert_eq!(beat.sequence_number, beat_num);
        assert_eq!(beat.time_signature, time_sig);
        assert_eq!(beat.bpm, bpm);

        let expected_beat_in_measure = ((beat_num - 1) % 4) + 1;
        assert_eq!(beat.beat_in_measure, expected_beat_in_measure as u32);

        let expected_accent = beat.beat_in_measure == 1 || beat.beat_in_measure == 3;
        assert_eq!(beat.is_accent, expected_accent);

        if beat.beat_in_measure == 1 {
            assert!(beat.is_strong_beat());
            assert!(!beat.is_medium_beat());
            assert!(!beat.is_weak_beat());
        } else if beat.beat_in_measure == 3 {
            assert!(!beat.is_strong_beat());
            assert!(beat.is_medium_beat());
            assert!(!beat.is_weak_beat());
        } else {
            assert!(!beat.is_strong_beat());
            assert!(!beat.is_medium_beat());
            assert!(beat.is_weak_beat());
        }
    }
}

#[test]
fn test_dual_mode_configuration_consistency() {
    let config = MetronomeConfig::new(120)
        .with_time_signature(TimeSignature::Three)
        .with_sounds(SoundType::BuiltinWood, SoundType::BuiltinBeep)
        .with_sound(true)
        .with_visual(true);

    assert!(config.validate().is_ok());
    assert_eq!(config.bpm, 120);
    assert_eq!(config.time_signature, TimeSignature::Three);
    assert_eq!(config.beat_sound, SoundType::BuiltinWood);
    assert_eq!(config.accent_sound, SoundType::BuiltinBeep);
    assert!(config.sound_enabled);
    assert!(config.visual_enabled);

    let cli_controller = MetronomeController::new(config.bpm).unwrap();
    assert_eq!(cli_controller.get_metronome().get_bpm(), config.bpm);

    let gui_metronome = Metronome::from_config(config.clone()).unwrap();
    assert_eq!(gui_metronome.get_bpm(), config.bpm);
    assert_eq!(gui_metronome.get_time_signature(), config.time_signature);
}

#[test]
fn test_mode_switching_simulation() {
    let bpm = 140;
    let time_sig = TimeSignature::Three;

    {
        let controller = MetronomeController::new(bpm).unwrap();
        controller.get_metronome().set_time_signature(time_sig);

        assert!(controller.start_safe().is_ok());
        assert!(controller.is_running());

        let beat1 = controller.get_metronome().increment_beat();
        let beat2 = controller.get_metronome().increment_beat();
        let beat3 = controller.get_metronome().increment_beat();
        let beat4 = controller.get_metronome().increment_beat();

        assert_eq!(beat1.beat_in_measure, 1);
        assert_eq!(beat2.beat_in_measure, 2);
        assert_eq!(beat3.beat_in_measure, 3);
        assert_eq!(beat4.beat_in_measure, 1);

        controller.stop_safe();
        assert!(!controller.is_running());
    }

    {
        let metronome = Metronome::with_bpm(bpm).unwrap();
        metronome.set_time_signature(time_sig);

        assert!(metronome.start().is_ok());
        assert!(metronome.is_running());

        let beat1 = metronome.increment_beat();
        let beat2 = metronome.increment_beat();
        let beat3 = metronome.increment_beat();
        let beat4 = metronome.increment_beat();

        assert_eq!(beat1.beat_in_measure, 1);
        assert_eq!(beat2.beat_in_measure, 2);
        assert_eq!(beat3.beat_in_measure, 3);
        assert_eq!(beat4.beat_in_measure, 1);

        metronome.stop();
        assert!(!metronome.is_running());
    }
}
