use quest_makepad_camera_shell::stereo_frames::{
    frame_adoption_marker_due, stereo_frame_adoption_marker_line, PoseSnapshotFields,
};
use quest_makepad_camera_shell::orientation::{
    broker_pair_pose_source, FrameOrientationDecision, StimulusOrientation,
};
use quest_makepad_camera_shell::stereo_frames::{
    optional_i64_token, optional_u64_token, AdoptedStereoCameraFrame, CameraTextureFrameSample,
    PairingStatus, StereoEye, StereoFramePairing, StereoFrameTracker,
};
use quest_makepad_camera_shell::texture_path::MakepadCameraTexturePath;

fn frame_sample(
    side: StereoEye,
    camera_frame_sequence: Option<u64>,
    camera_timestamp_ns: Option<u64>,
    texture_update_count: u64,
) -> CameraTextureFrameSample<()> {
    CameraTextureFrameSample::new(
        side,
        camera_frame_sequence,
        camera_timestamp_ns,
        texture_update_count as u128,
        texture_update_count,
        MakepadCameraTexturePath::DirectHardwareBufferExternal,
        (),
    )
}

#[test]
fn stereo_frame_pairing_prefers_matching_camera_sequence() {
    let left = frame_sample(StereoEye::Left, Some(42), Some(1_000_000), 7);
    let right = frame_sample(StereoEye::Right, Some(42), Some(8_000_000), 8);

    let pairing = StereoFramePairing::from_samples(&left, &right);

    assert_eq!(pairing.status.label(), "sequence-match");
    assert_eq!(pairing.sequence_delta, Some(0));
    assert_eq!(pairing.timestamp_delta_ns, Some(7_000_000));
}

#[test]
fn stereo_frame_pairing_accepts_close_timestamps_when_sequences_differ() {
    let left = frame_sample(StereoEye::Left, Some(101), Some(20_000_000), 3);
    let right = frame_sample(StereoEye::Right, Some(102), Some(30_000_000), 4);

    let pairing = StereoFramePairing::from_samples(&left, &right);

    assert_eq!(pairing.status.label(), "timestamp-close");
    assert_eq!(pairing.sequence_delta, Some(-1));
    assert!(pairing.close_timestamp_match);
}

#[test]
fn stereo_frame_pairing_reports_timing_gap_for_distant_frames() {
    let left = frame_sample(StereoEye::Left, Some(101), Some(20_000_000), 3);
    let right = frame_sample(StereoEye::Right, Some(105), Some(80_000_000), 4);

    let pairing = StereoFramePairing::from_samples(&left, &right);

    assert_eq!(pairing.status.label(), "latest-complete-with-timing-gap");
    assert_eq!(pairing.sequence_delta, Some(-4));
    assert_eq!(pairing.timestamp_delta_ns, Some(60_000_000));
    assert!(!pairing.close_timestamp_match);
}

#[test]
fn stereo_frame_pairing_without_timing_says_so() {
    let left = frame_sample(StereoEye::Left, None, None, 1);
    let right = frame_sample(StereoEye::Right, None, Some(5), 1);
    let pairing = StereoFramePairing::from_samples(&left, &right);
    assert_eq!(pairing.status, PairingStatus::LatestCompleteNoFrameTiming);
    assert_eq!(pairing.timestamp_delta_ns, None);
    let exact = StereoFramePairing::from_samples(
        &frame_sample(StereoEye::Left, Some(1), Some(0), 1),
        &frame_sample(StereoEye::Right, Some(9), Some(25_000_000), 1),
    );
    assert_eq!(exact.status, PairingStatus::TimestampClose);
}

#[test]
fn frame_adoption_requires_both_eyes_and_a_pose_and_moves_forward() {
    let mut tracker: StereoFrameTracker<(), u8> = StereoFrameTracker::new();
    assert_eq!(tracker.record_camera_texture_update(StereoEye::Left, 10), 1);
    assert_eq!(tracker.record_camera_texture_update(StereoEye::Left, 20), 2);
    assert_eq!(tracker.left_last_position_ms, 20);
    tracker.record_pending_camera_frame(frame_sample(StereoEye::Left, Some(1), None, 2));
    assert!(!tracker.try_adopt_pending_stereo_camera_frame());
    tracker.record_pending_camera_frame(frame_sample(StereoEye::Right, Some(1), None, 2));
    assert!(!tracker.try_adopt_pending_stereo_camera_frame());
    tracker.record_xr_pose_snapshot(9);
    assert!(tracker.try_adopt_pending_stereo_camera_frame());
    let first: AdoptedStereoCameraFrame<(), u8> = tracker.adopted.unwrap();
    assert_eq!(first.adoption_id, 1);
    assert_eq!(first.pose, Some(9));
    assert_eq!(first.pairing.status, PairingStatus::SequenceMatch);

    assert!(!tracker.try_adopt_pending_stereo_camera_frame());
    tracker.record_pending_camera_frame(frame_sample(StereoEye::Left, Some(2), None, 3));
    assert!(!tracker.try_adopt_pending_stereo_camera_frame());
    tracker.record_pending_camera_frame(frame_sample(StereoEye::Right, Some(2), None, 3));
    assert!(tracker.try_adopt_pending_stereo_camera_frame());
    assert_eq!(tracker.adopted.unwrap().adoption_id, 2);
    assert_eq!(tracker.next_adopted_id, 2);
}

#[test]
fn optional_tokens_name_missing_values() {
    assert_eq!(optional_u64_token(Some(42)), "42");
    assert_eq!(optional_u64_token(None), "missing");
    assert_eq!(optional_i64_token(Some(-4)), "-4");
    assert_eq!(optional_i64_token(None), "missing");
    assert_eq!(StereoEye::Right.label(), "right");
}

fn orientation(raster: &str, explicit: bool) -> StimulusOrientation {
    StimulusOrientation {
        explicit,
        raster_orientation: raster.to_string(),
        orientation_kind: "camera-frame".to_string(),
        upright_marker: "camera-native-upright".to_string(),
        metadata_source: "stream-stimulus-contract".to_string(),
        pose_source: "platform".to_string(),
    }
}

#[test]
fn broker_orientation_sampling_uses_stimulus_metadata_only() {
    let metadata = orientation("bottom-left-origin-y-up", true);

    let decision = FrameOrientationDecision::from_broker_pair(&metadata, &metadata);

    assert!(decision.source_sample_y_flip);
    assert_eq!(decision.raster_orientation, "bottom-left-origin-y-up");
    assert_eq!(decision.metadata_source, "stream-stimulus-contract");
}

#[test]
fn direct_camera_orientation_sampling_keeps_top_left_stimulus_unflipped() {
    let decision = FrameOrientationDecision::direct_camera2();

    assert!(!decision.source_sample_y_flip);
    assert_eq!(decision.raster_orientation, "top-left-origin-y-down");
    assert_eq!(
        decision.metadata_source,
        "generated-direct-camera2-stimulus-metadata"
    );
}

#[test]
fn broker_orientation_falls_back_with_a_reason() {
    let top = orientation("top-left-origin-y-down", true);
    let bottom = orientation("bottom-left-origin-y-up", true);
    let missing = FrameOrientationDecision::from_broker_pair(&orientation("top-left-origin-y-down", false), &top);
    assert!(missing.orientation_default);
    assert_eq!(missing.fallback_reason, "broker-h264-explicit-stimulus-orientation-missing");
    let mismatch = FrameOrientationDecision::from_broker_pair(&top, &bottom);
    assert_eq!(mismatch.fallback_reason, "broker-h264-left-right-stimulus-orientation-mismatch");
    let odd = orientation("diagonal", true);
    let unsupported = FrameOrientationDecision::from_broker_pair(&odd, &odd);
    assert_eq!(unsupported.fallback_reason, "broker-h264-unsupported-stimulus-orientation");
    assert_eq!(unsupported.raster_orientation, "top-left-origin-y-down");

    let mut right = top.clone_for_test();
    right.upright_marker = "other".to_string();
    let merged = FrameOrientationDecision::from_broker_pair(&top, &right);
    assert!(!merged.source_sample_y_flip);
    assert_eq!(merged.upright_marker, "camera-native-upright+other");
    assert_eq!(merged.fallback_reason, "none");
}

trait CloneForTest {
    fn clone_for_test(&self) -> Self;
}

impl CloneForTest for StimulusOrientation {
    fn clone_for_test(&self) -> Self {
        StimulusOrientation {
            explicit: self.explicit,
            raster_orientation: self.raster_orientation.clone(),
            orientation_kind: self.orientation_kind.clone(),
            upright_marker: self.upright_marker.clone(),
            metadata_source: self.metadata_source.clone(),
            pose_source: self.pose_source.clone(),
        }
    }
}

#[test]
fn broker_pose_source_merges_differing_eyes() {
    let left = orientation("top-left-origin-y-down", true);
    let mut right = left.clone_for_test();
    assert_eq!(broker_pair_pose_source(&left, &right), "platform");
    right.pose_source = "synthetic".to_string();
    assert_eq!(broker_pair_pose_source(&left, &right), "platform+synthetic");
}

#[test]
fn adoption_marker_reports_frames_timing_and_pose() {
    let left = frame_sample(StereoEye::Left, Some(5), Some(100), 3);
    let right = frame_sample(StereoEye::Right, Some(6), None, 4);
    let adopted: AdoptedStereoCameraFrame<(), u8> = AdoptedStereoCameraFrame::new(12, left, right, Some(1));
    let pose = PoseSnapshotFields {
        update_count: 77,
        predicted_display_time_ns: -1,
        left_valid: true,
        right_valid: false,
        left_position: "0.000000,1.000000,2.000000".to_string(),
        right_position: "r".to_string(),
        left_orientation: "lo".to_string(),
        right_orientation: "ro".to_string(),
    };
    let line = stereo_frame_adoption_marker_line("xr update", &adopted, Some(&pose));
    assert!(line.starts_with(
        "RUSTY_QUEST_MAKEPAD_FRAME_ADOPTION schema=rusty.quest.makepad-stereo-frame-adoption.v1 phase=adopt status=ok reason=xr_update adoptionId=12 leftSide=left rightSide=right leftTextureUpdateCount=3 rightTextureUpdateCount=4 leftPositionMs=3 rightPositionMs=4"
    ));
    assert!(line.contains(
        "leftCameraFrameSeq=5 rightCameraFrameSeq=6 frameSequenceDelta=-1 leftCameraTimestampNs=100 rightCameraTimestampNs=missing timestampDeltaNs=missing closeTimestampMatch=false pairingStatus=latest-complete-with-timing-gap texturePath=direct-camera-hardware-buffer-external"
    ));
    assert!(line.contains(
        "poseSource=makepad-quest-update-predicted-display-pose poseUpdateCount=77 predictedDisplayTimeNs=-1 leftPoseValid=true rightPoseValid=false leftPosePosition=0.000000,1.000000,2.000000"
    ));
    assert!(line.ends_with("adoptionPolicy=latest-complete-stereo-pair panelUpdatePolicy=adopted-pair-xr-update-only"));
    let missing = stereo_frame_adoption_marker_line("", &adopted, None);
    assert!(missing.contains("reason=empty"));
    assert!(missing.contains("poseSource=missing-xr-update-pose poseUpdateCount=missing"));
    assert!(frame_adoption_marker_due(0));
    assert!(frame_adoption_marker_due(23));
    assert!(!frame_adoption_marker_due(24));
    assert!(frame_adoption_marker_due(240));
}

#[test]
fn swapped_frames_pair_with_opposite_sequence_difference() {
    let a = frame_sample(StereoEye::Left, Some(10), Some(1_000), 1);
    let b = frame_sample(StereoEye::Right, Some(13), Some(50_000_000), 1);
    let forward = StereoFramePairing::from_samples(&a, &b);
    let backward = StereoFramePairing::from_samples(&b, &a);
    assert_eq!(forward.status, backward.status);
    assert_eq!(forward.sequence_delta, Some(-3));
    assert_eq!(backward.sequence_delta, Some(3));
    assert_eq!(forward.timestamp_delta_ns, backward.timestamp_delta_ns);
}
