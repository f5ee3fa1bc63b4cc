use quest_makepad_camera_shell::acamera::{
    ACAMERA_LENS_FACING_BACK, ACAMERA_LENS_FACING_FRONT, AIMAGE_FORMAT_PRIVATE,
};
use quest_makepad_camera_shell::camera_probe::{
    active_array_size, emit_acquisition_marker, emit_metadata_marker, emit_stereo_projection_marker,
    index_token, metadata_string_list, optional_i64_token, private_output_sizes,
    repeating_request_failure_message, step_failure_message, FirstFrameWait, ProbeResource,
    ProbeSessionSetup, ProbeSetupStep, ProbeState,
};
use quest_makepad_camera_shell::camera_source::{
    pick_capture_size, score_size, select_best_index_ordered_stereo_projection_sources,
    select_camera_source, select_capture_size, select_stereo_capture_size, CameraSource,
};
use quest_makepad_camera_shell::probe_markers::{
    acquisition_complete_body, acquisition_error_body, buffer_id_present,
    camera_source_from_metadata, device_error_body, first_frame_body, metadata_marker_line,
    private_source_count, select_probe_capture, stereo_projection_metadata_line,
    thread_start_error_body, usable_sources, HardwareBufferDescription, HomographyTokens,
    ProbeEnumerationError, StereoPlanSummary,
};

type Source = CameraSource<u8, u8, u8>;

fn source(id: &str, facing: u8, sizes: Vec<(u32, u32)>, calibrated: bool) -> Source {
    CameraSource {
        camera_id: id.to_string(),
        lens_facing: facing,
        logical_multi_camera: false,
        physical_camera_ids: Vec::new(),
        sensor_sync_type: None,
        private_sizes: sizes,
        intrinsics: if calibrated { Some(1) } else { None },
        active_array_size: None,
        pose_translation: if calibrated { Some(1) } else { None },
        pose_rotation: if calibrated { Some(1) } else { None },
    }
}

#[test]
fn marker_lines_carry_their_schema_prefix() {
    assert_eq!(
        emit_metadata_marker("phase=x"),
        "RUSTY_QUEST_MAKEPAD_CAMERA2_METADATA schema=rusty.quest.makepad-camera2.metadata.v1 phase=x"
    );
    assert_eq!(
        emit_acquisition_marker("phase=y"),
        "RUSTY_QUEST_MAKEPAD_CAMERA2_ACQUISITION schema=rusty.quest.makepad-camera2.acquisition.v1 phase=y"
    );
    assert_eq!(
        emit_stereo_projection_marker("phase=z"),
        "RUSTY_QUEST_MAKEPAD_STEREO_PROJECTION schema=rusty.quest.makepad-stereo-projection.v1 phase=z"
    );
    assert_eq!(index_token(17), "17");
    assert_eq!(optional_i64_token(Some(-3)), "-3");
    assert_eq!(optional_i64_token(None), "not-logged");
}

#[test]
fn size_score_prefers_square_1280() {
    assert_eq!(score_size(1280, 1280), 1280 * 1280);
    assert_eq!(score_size(1920, 1080), 1920 * 1080 - (640 + 200) * 2048 - 840 * 4096);
    assert!(score_size(1280, 1280) > score_size(1920, 1080));
}

#[test]
fn capture_size_stays_within_limit_or_takes_smallest() {
    assert_eq!(pick_capture_size(&vec![(640, 480), (1280, 1280), (1920, 1920)]), Some((1280, 1280)));
    assert_eq!(pick_capture_size(&vec![(4000, 3000), (2000, 2000)]), Some((2000, 2000)));
    assert_eq!(pick_capture_size(&vec![]), None);
    let back = source("0", ACAMERA_LENS_FACING_BACK, vec![(1280, 720), (1280, 1280)], false);
    assert_eq!(select_capture_size(&back), Some((1280, 1280)));
}

#[test]
fn stereo_size_is_shared_by_both_sources() {
    let left = source("0", ACAMERA_LENS_FACING_BACK, vec![(640, 480), (1280, 1280)], false);
    let right = source("1", ACAMERA_LENS_FACING_BACK, vec![(640, 480)], false);
    assert_eq!(select_stereo_capture_size(&left, &right), Some((640, 480)));
    let other = source("2", ACAMERA_LENS_FACING_BACK, vec![(320, 240)], false);
    assert_eq!(select_stereo_capture_size(&left, &other), None);
}

#[test]
fn probe_selects_back_camera_and_index_ordered_pair() {
    let sources = vec![
        source("0", ACAMERA_LENS_FACING_FRONT, vec![(1280, 1280)], false),
        source("50", ACAMERA_LENS_FACING_BACK, vec![(1280, 1280)], true),
        source("51", ACAMERA_LENS_FACING_BACK, vec![(1280, 1280)], true),
        source("9", ACAMERA_LENS_FACING_BACK, vec![], false),
    ];
    assert_eq!(select_camera_source(&sources), Some(2));
    let pair = select_best_index_ordered_stereo_projection_sources(&sources).unwrap();
    assert_eq!((pair.left_source_index, pair.right_source_index), (1, 2));
    assert_eq!((pair.width, pair.height), (1280, 1280));
    assert_eq!(private_source_count(&sources), 3);
    let capture = select_probe_capture(&sources).unwrap();
    assert_eq!((capture.selected_index, capture.width, capture.height), (2, 1280, 1280));

    let empty: Vec<Source> = vec![source("9", ACAMERA_LENS_FACING_BACK, vec![], false)];
    assert_eq!(
        select_probe_capture(&empty).unwrap_err(),
        ProbeEnumerationError::NoPrivateCameraSource
    );
    assert_eq!(
        ProbeEnumerationError::NoPrivateCameraSource.message(),
        "no_private_camera_source"
    );
    assert_eq!(
        ProbeEnumerationError::CameraIdListFailed(-2).message(),
        "get_camera_id_list_failed_-2"
    );
    assert!(usable_sources(Vec::<Source>::new()).is_err());
    assert_eq!(usable_sources(sources).unwrap().len(), 4);
}

#[test]
fn stream_configurations_give_sorted_private_sizes() {
    let private = AIMAGE_FORMAT_PRIVATE as i32;
    let values = vec![
        private, 1920, 1080, 0,
        private, 640, 480, 0,
        35, 320, 240, 0,
        private, 640, 480, 0,
        private, 800, 600, 1,
        private, 0, 100, 0,
        private, 640, 360,
    ];
    assert_eq!(private_output_sizes(&values), vec![(640, 480), (1920, 1080)]);
    assert_eq!(active_array_size(&[8, 16, 4008, 3016]), Some((4000, 3000)));
    assert_eq!(active_array_size(&[10, 0, 10, 5]), None);
    assert_eq!(active_array_size(&[1, 2, 3]), None);
    assert_eq!(active_array_size(&[i32::MAX, 0, i32::MIN, 5]), None);
}

#[test]
fn physical_id_list_splits_on_zero_bytes() {
    assert_eq!(metadata_string_list(b"2\x003\x00"), vec!["2".to_string(), "3".to_string()]);
    assert_eq!(metadata_string_list(b"\x00\x00ab\x00\xff\x00c"), vec!["ab".to_string(), "c".to_string()]);
    assert!(metadata_string_list(b"").is_empty());
}

#[test]
fn camera_source_reads_its_characteristics() {
    let private = AIMAGE_FORMAT_PRIVATE as i32;
    let made: Option<Source> = camera_source_from_metadata(
        "50".to_string(),
        Some(ACAMERA_LENS_FACING_BACK),
        &[0, 11],
        b"2\x003\x00",
        Some(1),
        &[private, 1280, 1280, 0],
        Some(7),
        &[0, 0, 4000, 3000],
        None,
        Some(3),
    );
    let made = made.unwrap();
    assert!(made.logical_multi_camera);
    assert_eq!(made.physical_camera_ids, vec!["2".to_string(), "3".to_string()]);
    assert_eq!(made.private_sizes, vec![(1280, 1280)]);
    assert_eq!(made.active_array_size, Some((4000, 3000)));
    assert!(!made.has_projection_metadata());
    assert_eq!(made.lens_facing_label(), "back");
    let none: Option<Source> =
        camera_source_from_metadata("1".to_string(), None, &[], &[], None, &[], None, &[], None, None);
    assert!(none.is_none());
}

#[test]
fn first_frame_is_signalled_once() {
    let mut state = ProbeState::new();
    assert!(state.alive);
    state.record_acquire_failure();
    assert!(!state.record_acquired_image(false));
    assert!(state.record_acquired_image(true));
    assert!(!state.record_acquired_image(true));
    assert_eq!(state.frame_count, 3);
    assert_eq!(state.hardware_buffer_frames, 2);
    assert_eq!(state.acquire_errors, 2);
    assert!(state.first_frame_logged);
    state.stop();
    assert!(!state.alive);
}

#[test]
fn first_frame_wait_follows_readiness_and_deadline() {
    let mut state = ProbeState::new();
    assert_eq!(state.wait_for_first_frame(Some(5), false), FirstFrameWait::WaitFor(5));
    assert_eq!(state.wait_for_first_frame(None, false), FirstFrameWait::GaveUp);
    assert_eq!(state.wait_for_first_frame(Some(5), true), FirstFrameWait::GaveUp);
    state.notify_first_frame();
    assert_eq!(state.wait_for_first_frame(None, true), FirstFrameWait::Seen);
}

#[test]
fn failed_setup_releases_what_it_holds_latest_first() {
    let mut setup = ProbeSessionSetup::new();
    assert_eq!(setup.next_step(), Some(ProbeSetupStep::OpenCamera));
    for _ in 0..5 {
        setup.step_succeeded();
    }
    assert_eq!(setup.next_step(), Some(ProbeSetupStep::CreateOutputTarget));
    assert_eq!(
        setup.failure_cleanup(),
        vec![
            ProbeResource::ReaderWindow,
            ProbeResource::ImageReader,
            ProbeResource::CaptureRequest,
            ProbeResource::CameraDevice,
        ]
    );
    for _ in 0..6 {
        setup.step_succeeded();
    }
    assert!(setup.is_complete());
    assert_eq!(setup.next_step(), None);
    assert_eq!(setup.failure_cleanup().len(), 9);
    assert_eq!(
        step_failure_message(ProbeSetupStep::AddRequestTarget, -10),
        "add_target_failed_-10"
    );
    assert_eq!(repeating_request_failure_message(3), "set_repeating_request_failed_3");
}

fn plan_summary() -> StereoPlanSummary {
    let token = |name: &str| name.to_string();
    StereoPlanSummary {
        left_source_index: 1,
        right_source_index: 2,
        left_camera_id: "50".to_string(),
        right_camera_id: "5 1".to_string(),
        left_facing: "back".to_string(),
        right_facing: "back".to_string(),
        width: 1280,
        height: 1280,
        projection_metadata_ready: true,
        projection_homography_ready: false,
        pose_source: "camera2".to_string(),
        source_eye_mapping: "display-left-from-left-source".to_string(),
        coordinate_chain: "chain".to_string(),
        fallback_reason: "waiting for views".to_string(),
        homographies: HomographyTokens {
            left_surface_to_camera: token("lsc"),
            right_surface_to_camera: token("rsc"),
            left_surface_to_screen: token("lss"),
            right_surface_to_screen: token("rss"),
            left_screen_to_camera: token("lcc"),
            right_screen_to_camera: token("rcc"),
            left_screen_to_surface: token("lsu"),
            right_screen_to_surface: token("rsu"),
        },
    }
}

#[test]
fn enumeration_line_reports_selection_and_plan() {
    let sources = vec![
        source("0", ACAMERA_LENS_FACING_FRONT, vec![(1280, 1280)], false),
        source("50", ACAMERA_LENS_FACING_BACK, vec![(1280, 1280)], true),
    ];
    let plan = plan_summary();
    let line = metadata_marker_line(&sources, 2, Some(1), Some(&plan));
    assert!(line.starts_with(
        "phase=enumerated status=ok sourceCount=2 privateSourceCount=2 selected=true selectedIndex=1 selectedFacing=back selectedWidth=1280 selectedHeight=1280 selectedHasIntrinsics=true selectedHasPose=true"
    ));
    assert!(line.contains("selectedSensorSync=none stereoPairSelected=true stereoLeftIndex=1 stereoRightIndex=2"));
    assert!(line.contains("stereoLeftSurfaceToCameraH=lsc stereoRightSurfaceToCameraH=rsc stereoLeftScreenToCameraH=lcc"));
    assert!(line.ends_with("acquisitionPlan=bounded-single-private import=none"));

    let none = metadata_marker_line(&sources, 2, None, None);
    assert!(none.contains("selected=false selectedIndex=none selectedFacing=none selectedWidth=0"));
    assert!(none.contains("stereoLeftSurfaceToCameraH=identity"));
}

#[test]
fn stereo_metadata_line_reports_plan_or_missing_pair() {
    let plan = plan_summary();
    let line = stereo_projection_metadata_line(3, Some(&plan));
    assert!(line.starts_with("phase=metadata status=ok sourceCount=3 leftSourceIndex=1 rightSourceIndex=2 leftCameraId=50 rightCameraId=5_1"));
    assert!(line.contains("projectionMappingReady=true alignedProjection=false projectionMetadataReady=true"));
    assert!(line.ends_with("sourceSelection=pose-x-ordered-camera2 fallbackReason=waiting_for_views"));
    assert_eq!(
        stereo_projection_metadata_line(0, None),
        "phase=metadata status=error sourceCount=0 pairedLeftRightGpuBuffers=false projectionMappingReady=false alignedProjection=false projectionMetadataReady=false poseSource=missing fallbackReason=no_camera2_stereo_pair"
    );
}

#[test]
fn acquisition_lines_report_outcome() {
    assert_eq!(
        acquisition_complete_body(true, 2, 1280, 720, 10, 9, 1, 5000),
        "phase=complete status=ok selectedIndex=2 width=1280 height=720 frameCount=10 hardwareBufferFrames=9 acquireErrors=1 elapsedMs=5000 import=none"
    );
    assert!(acquisition_complete_body(false, 0, 1, 1, 0, 0, 0, 0).starts_with("phase=complete status=timeout"));
    assert_eq!(
        acquisition_error_body("no private source", 12),
        "phase=complete status=error errorKind=no_private_source elapsedMs=12"
    );
    let desc = HardwareBufferDescription { format: 34, usage: 256, layers: 1, stride: 1280 };
    assert!(buffer_id_present(0, 5));
    assert!(!buffer_id_present(0, 0));
    assert!(!buffer_id_present(-1, 5));
    assert_eq!(
        first_frame_body(0, 1280, 1280, -7, &desc, true),
        "phase=first-frame status=frame selectedIndex=0 width=1280 height=1280 timestampNs=-7 hardwareBufferPresent=true nativeFormat=34 usage=256 layers=1 stride=1280 bufferIdPresent=true import=none"
    );
    assert_eq!(device_error_body(-3), "phase=device-callback status=error errorCode=-3");
    assert_eq!(
        thread_start_error_body("no threads left"),
        "phase=thread-start status=error errorKind=thread_spawn_failed message=no_threads_left"
    );
}
