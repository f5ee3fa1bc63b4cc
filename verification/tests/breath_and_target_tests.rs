use quest_makepad_camera_shell::projection_target::{breath_scale_log_due, log_due, BreathIntakeState, BreathSampleIntake};
use quest_makepad_camera_shell::breath_feedback::breath_subscription_decision;
use quest_makepad_camera_shell::pose_publisher::PosePublishCounters;
use quest_makepad_camera_shell::breath_feedback::accepted_breath_event_stream;
use quest_makepad_camera_shell::breath_feedback::{
    manifold_breath_feedback_config_marker_line, BreathFeedbackConfigRaw,
    ManifoldBreathFeedbackConfig,
};
use quest_makepad_camera_shell::projection_target::{
    breath_controls_enabled_from_value, breath_sample_key, breath_scale_mode_is_state_ramp,
    breath_state_direction, joystick_controls_enabled_from_value, named_breath_phase, BreathPhase,
    BreathStateDirection,
};
use quest_makepad_camera_shell::texture_path::{broker_h264_requested_texture_path, MakepadCameraTexturePath};

fn default_raw() -> BreathFeedbackConfigRaw {
    BreathFeedbackConfigRaw {
        enabled: "default".to_string(),
        stream: "default".to_string(),
        receiver: "default".to_string(),
        broker_host: "default".to_string(),
        broker_port: "default".to_string(),
        connect_timeout: "default".to_string(),
    }
}

#[test]
fn breath_feedback_config_marker_exposes_resolved_subscriber_config() {
    let mut config = ManifoldBreathFeedbackConfig::default();
    config.enabled = true;
    config.broker_port = 18765;

    let marker = manifold_breath_feedback_config_marker_line(&config, &default_raw());

    assert!(marker.contains("RUSTY_QUEST_MAKEPAD_BREATH_FEEDBACK_CONFIG"));
    assert!(marker.contains("status=enabled"));
    assert!(marker.contains("enabled=true"));
    assert!(marker.contains("enabledRaw=default"));
    assert!(marker.contains("stream=stream.breath.feedback_state"));
    assert!(marker.contains("receiver=app.makepad_camera_shell.breath_feedback"));
    assert!(marker.contains("brokerPort=18765"));
    assert!(marker.contains("flagsOwner=hostessctl.record_values"));
}

#[test]
fn joystick_controls_parse_canonical_offset_scale() {
    assert!(joystick_controls_enabled_from_value("offset-scale"));
    assert!(!joystick_controls_enabled_from_value("joystick_offset_scale"));
    assert!(!joystick_controls_enabled_from_value("off"));
}

#[test]
fn breath_controls_parse_canonical_scale_mode() {
    assert!(breath_controls_enabled_from_value("scale"));
    assert!(breath_controls_enabled_from_value(" SCALE "));
    assert!(!breath_controls_enabled_from_value("off"));
}

#[test]
fn joystick_controls_ignore_case_and_white_space() {
    assert!(joystick_controls_enabled_from_value("\tOffset-Scale \n"));
    assert!(!joystick_controls_enabled_from_value("offset_scale"));
}

#[test]
fn state_ramp_modes_are_recognised() {
    assert!(breath_scale_mode_is_state_ramp("state-ramp"));
    assert!(breath_scale_mode_is_state_ramp(" STATE_SPRING "));
    assert!(breath_scale_mode_is_state_ramp("breathing_state"));
    assert!(!breath_scale_mode_is_state_ramp("volume"));
}

#[test]
fn named_phases_are_decoded() {
    assert_eq!(named_breath_phase(" Inhaling "), Some(BreathPhase::Inhale));
    assert_eq!(named_breath_phase("EXHALE"), Some(BreathPhase::Exhale));
    assert_eq!(named_breath_phase("bad_tracking"), Some(BreathPhase::BadTracking));
    assert_eq!(named_breath_phase("retention"), Some(BreathPhase::Pause));
    assert_eq!(named_breath_phase("unknown"), None);
    assert_eq!(BreathPhase::BadTracking.label(), "bad_tracking");
    assert_eq!(breath_state_direction("inhale"), BreathStateDirection::Rising);
    assert_eq!(breath_state_direction("Exhaling"), BreathStateDirection::Falling);
    assert_eq!(breath_state_direction("pause"), BreathStateDirection::Holding);
}

#[test]
fn breath_sample_key_joins_sequence_time_and_hash() {
    assert_eq!(breath_sample_key(11, 1_777_900_000_000_000_000, "hash"), "11:1777900000000000000:hash");
    assert_eq!(breath_sample_key(0, -5, "h"), "0:-5:h");
}

#[test]
fn broker_decode_output_modes_choose_texture_paths() {
    assert_eq!(
        broker_h264_requested_texture_path(" Image_Reader "),
        MakepadCameraTexturePath::BrokerH264HardwareBuffer
    );
    assert_eq!(
        broker_h264_requested_texture_path("oes"),
        MakepadCameraTexturePath::BrokerH264SurfaceTexture
    );
    assert_eq!(
        broker_h264_requested_texture_path("cpu"),
        MakepadCameraTexturePath::BrokerH264CpuYuv
    );
}

#[test]
fn breath_events_are_accepted_only_for_the_subscribed_stream() {
    let stream = "stream.breath.feedback_state";
    let fields = vec![None, Some("  ".to_string()), Some(format!(" {stream} ")), None];
    assert_eq!(
        accepted_breath_event_stream(Some("stream_event"), true, &fields, stream, true).as_deref(),
        Some(stream)
    );
    assert!(accepted_breath_event_stream(Some("stream_event"), true, &vec![None], stream, true).is_some());
    assert!(accepted_breath_event_stream(Some("hello"), true, &fields, stream, true).is_none());
    assert!(accepted_breath_event_stream(Some("stream_event"), false, &fields, stream, true).is_none());
    assert!(accepted_breath_event_stream(Some("stream_event"), true, &fields, stream, false).is_none());
    let other = vec![Some("stream.breath.volume".to_string())];
    assert!(accepted_breath_event_stream(Some("stream_event"), true, &other, stream, true).is_none());
    assert!(accepted_breath_event_stream(None, true, &fields, stream, true).is_none());
}

#[test]
fn breath_subscription_restarts_only_on_config_change() {
    let mut config = ManifoldBreathFeedbackConfig::default();
    let disabled = breath_subscription_decision(None, "marker-a", None, &config);
    assert!(disabled.emit_config_marker);
    assert!(disabled.drop_subscriber);
    assert!(!disabled.start_subscriber);

    config.enabled = true;
    let first = breath_subscription_decision(Some("marker-a"), "marker-b", None, &config);
    assert!(first.emit_config_marker);
    assert!(!first.drop_subscriber);
    assert!(first.start_subscriber);

    let mut running = ManifoldBreathFeedbackConfig::default();
    running.enabled = true;
    let same = breath_subscription_decision(Some("marker-b"), "marker-b", Some(&running), &config);
    assert!(!same.emit_config_marker);
    assert!(!same.start_subscriber);

    config.broker_port = 9000;
    let changed = breath_subscription_decision(Some("marker-b"), "marker-c", Some(&running), &config);
    assert!(changed.emit_config_marker);
    assert!(changed.start_subscriber);
}

#[test]
fn pose_counters_number_samples_and_pace_markers() {
    let mut counters = PosePublishCounters::new();
    assert_eq!(counters.next_sequence_id(), 1);
    assert_eq!(counters.next_sequence_id(), 2);
    assert!(counters.record(true));
    assert_eq!(counters.published, 1);
    assert!(!counters.record(true));
    assert!(counters.record(false));
    assert_eq!(counters.dropped, 1);
    for _ in 0..117 {
        assert!(!counters.record(true));
    }
    assert_eq!(counters.published, 119);
    assert!(counters.record(true));
    assert_eq!(counters.published, 120);
    counters.last_sequence_id = u64::MAX;
    assert_eq!(counters.next_sequence_id(), u64::MAX);
}

#[test]
fn periodic_markers_are_paced_by_xr_updates() {
    assert!(log_due(0, 5, 30));
    assert!(!log_due(10, 39, 30));
    assert!(log_due(10, 40, 30));
    assert!(!log_due(50, 40, 30));
    assert!(log_due(50, 40, 0));
    assert!(breath_scale_log_due(true, false, 10, 11));
    assert!(!breath_scale_log_due(false, true, 10, 11));
    assert!(breath_scale_log_due(false, true, 10, 40));
    assert!(!breath_scale_log_due(false, false, 0, 40));
}

#[test]
fn breath_samples_are_taken_in_once_and_gated_by_quality() {
    let stream = "stream.breath.feedback_state";
    let mut intake = BreathIntakeState::new();
    assert_eq!(intake.offer(None, stream, "1:5:abc", true), BreathSampleIntake::NoSample);
    assert_eq!(
        intake.offer(Some("stream.breath.volume"), stream, "1:5:abc", true),
        BreathSampleIntake::NoSample
    );
    assert_eq!(intake.offer(Some(stream), stream, "1:5:abc", false), BreathSampleIntake::Rejected);
    assert_eq!(intake.last_sample_key.as_deref(), Some("1:5:abc"));
    assert_eq!(intake.offer(Some(stream), stream, "1:5:abc", true), BreathSampleIntake::Duplicate);
    assert_eq!(intake.offer(Some(stream), stream, "2:6:abd", true), BreathSampleIntake::Accepted);
    intake.clear();
    assert_eq!(intake.offer(Some(stream), stream, "2:6:abd", true), BreathSampleIntake::Accepted);
}
