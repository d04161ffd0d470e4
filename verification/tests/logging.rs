use sogs_logging::config::{
    archive_pattern, build_config, console_pattern, effective_level, service_channel_name,
    ARCHIVED_GENERATIONS, ROTATION_THRESHOLD_BYTES,
};
use sogs_logging::init::{InitError, Initializer};
use sogs_logging::rotation::RotationState;
use sogs_logging::severity::{parse_severity, record_passes, Severity};

#[test]
fn parse_recognizes_every_name_lower_case() {
    assert_eq!(parse_severity("off"), Some(Severity::Off));
    assert_eq!(parse_severity("error"), Some(Severity::Error));
    assert_eq!(parse_severity("warn"), Some(Severity::Warn));
    assert_eq!(parse_severity("info"), Some(Severity::Info));
    assert_eq!(parse_severity("debug"), Some(Severity::Debug));
    assert_eq!(parse_severity("trace"), Some(Severity::Trace));
}

#[test]
fn parse_recognizes_every_name_upper_case() {
    assert_eq!(parse_severity("OFF"), Some(Severity::Off));
    assert_eq!(parse_severity("ERROR"), Some(Severity::Error));
    assert_eq!(parse_severity("WARN"), Some(Severity::Warn));
    assert_eq!(parse_severity("INFO"), Some(Severity::Info));
    assert_eq!(parse_severity("DEBUG"), Some(Severity::Debug));
    assert_eq!(parse_severity("TRACE"), Some(Severity::Trace));
}

#[test]
fn parse_recognizes_mixed_case() {
    assert_eq!(parse_severity("Info"), Some(Severity::Info));
    assert_eq!(parse_severity("dEbUg"), Some(Severity::Debug));
    assert_eq!(parse_severity("WaRn"), Some(Severity::Warn));
}

#[test]
fn parse_rejects_other_strings() {
    assert_eq!(parse_severity(""), None);
    assert_eq!(parse_severity("bogus"), None);
    assert_eq!(parse_severity("information"), None);
    assert_eq!(parse_severity("inf"), None);
    assert_eq!(parse_severity("debug "), None);
    assert_eq!(parse_severity("débug"), None);
}

#[test]
fn absent_level_defaults_to_info() {
    assert_eq!(effective_level(&None), Some(Severity::Info));
    let config = build_config(None, None).unwrap();
    assert_eq!(config.level, Severity::Info);
}

#[test]
fn absent_path_means_console_only() {
    let config = build_config(None, Some(String::from("warn"))).unwrap();
    assert!(config.file.is_none());
    assert_eq!(config.console.threshold, Severity::Warn);
}

#[test]
fn present_path_adds_file_sink_with_rotation() {
    let config =
        build_config(Some(String::from("/var/log/app.log")), Some(String::from("info"))).unwrap();
    let file = config.file.expect("file sink should be configured");
    assert_eq!(file.path, "/var/log/app.log");
    assert_eq!(file.threshold, Severity::Info);
    assert_eq!(file.rotation.threshold_bytes, 50_000_000);
    assert_eq!(file.rotation.threshold_bytes, ROTATION_THRESHOLD_BYTES);
    assert_eq!(file.rotation.archived_generations, 1);
    assert_eq!(file.rotation.archived_generations, ARCHIVED_GENERATIONS);
    assert_eq!(file.rotation.archive_pattern, "/var/log/app.log-archive.{}");
}

#[test]
fn archive_pattern_appends_generation_slot() {
    assert_eq!(archive_pattern("app.log"), "app.log-archive.{}");
    assert_eq!(archive_pattern(""), "-archive.{}");
}

#[test]
fn console_pattern_has_level_timestamp_location_message() {
    assert_eq!(
        console_pattern(),
        "{h({l})} {d(%Y-%m-%d %H:%M:%S%.3f)} [{f}:{L}] {m}{n}"
    );
}

#[test]
fn channel_is_registered_at_effective_level() {
    assert_eq!(service_channel_name(), "session_open_group_server");
    let config = build_config(None, Some(String::from("trace"))).unwrap();
    assert_eq!(config.channel_name, "session_open_group_server");
    assert_eq!(config.channel_level, Severity::Trace);
}

#[test]
fn records_below_threshold_are_suppressed() {
    assert!(!record_passes(Severity::Info, Severity::Debug));
    assert!(!record_passes(Severity::Info, Severity::Trace));
    assert!(!record_passes(Severity::Error, Severity::Warn));
    assert!(!record_passes(Severity::Off, Severity::Error));
}

#[test]
fn records_at_or_above_threshold_pass() {
    assert!(record_passes(Severity::Info, Severity::Info));
    assert!(record_passes(Severity::Info, Severity::Error));
    assert!(record_passes(Severity::Debug, Severity::Debug));
    assert!(record_passes(Severity::Trace, Severity::Trace));
}

#[test]
fn rotation_starts_empty_and_fills_to_threshold() {
    let mut sink = RotationState::new(ROTATION_THRESHOLD_BYTES);
    assert_eq!(sink.active_bytes, 0);
    assert_eq!(sink.archived_bytes, None);
    let rotated = sink.write(49_999_999);
    assert!(!rotated);
    assert_eq!(sink.active_bytes, 49_999_999);
    assert_eq!(sink.archived_bytes, None);
    let rotated = sink.write(1);
    assert!(!rotated);
    assert_eq!(sink.active_bytes, 50_000_000);
    assert_eq!(sink.archived_bytes, None);
}

#[test]
fn write_at_threshold_rotates_into_single_archive() {
    let mut sink = RotationState::new(ROTATION_THRESHOLD_BYTES);
    sink.write(50_000_000);
    let rotated = sink.write(10);
    assert!(rotated);
    assert_eq!(sink.active_bytes, 10);
    assert_eq!(sink.archived_bytes, Some(50_000_000));
}

#[test]
fn second_rotation_replaces_the_archive() {
    let mut sink = RotationState::new(ROTATION_THRESHOLD_BYTES);
    sink.write(50_000_000);
    sink.write(60_000_000);
    assert_eq!(sink.archived_bytes, Some(50_000_000));
    let rotated = sink.write(7);
    assert!(rotated);
    assert_eq!(sink.active_bytes, 7);
    assert_eq!(sink.archived_bytes, Some(60_000_000));
}

#[test]
fn initializer_accepts_first_call_only() {
    let mut state = Initializer::new();
    assert!(!state.initialized);
    let first = state.initialize(None, None);
    assert!(first.is_ok());
    assert!(state.initialized);
    let second = state.initialize(None, None);
    assert_eq!(second.err(), Some(InitError::AlreadyInitialized));
    assert!(state.initialized);
}

#[test]
fn scenario_defaults_are_info_and_console_only() {
    let mut state = Initializer::new();
    let config = state.initialize(None, None).unwrap();
    assert_eq!(config.level, Severity::Info);
    assert!(config.file.is_none());
    assert!(!record_passes(config.console.threshold, Severity::Debug));
    assert!(record_passes(config.console.threshold, Severity::Info));
}

#[test]
fn scenario_debug_level_with_file_activates_both_sinks() {
    let mut state = Initializer::new();
    let config = state
        .initialize(Some(String::from("/tmp/app.log")), Some(String::from("debug")))
        .unwrap();
    assert_eq!(config.level, Severity::Debug);
    let file = config.file.expect("file sink should be configured");
    assert_eq!(file.path, "/tmp/app.log");
    assert_eq!(file.rotation.archive_pattern, "/tmp/app.log-archive.{}");
    assert!(record_passes(config.console.threshold, Severity::Debug));
    assert!(record_passes(file.threshold, Severity::Debug));
}

#[test]
fn scenario_bogus_level_aborts_before_installation() {
    let mut state = Initializer::new();
    let result = state.initialize(None, Some(String::from("bogus")));
    assert_eq!(result.err(), Some(InitError::InvalidLevel));
    assert!(!state.initialized);
}

#[test]
fn invalid_level_reported_even_after_installation() {
    let mut state = Initializer::new();
    state.initialize(None, None).unwrap();
    let result = state.initialize(None, Some(String::from("bogus")));
    assert_eq!(result.err(), Some(InitError::InvalidLevel));
}
