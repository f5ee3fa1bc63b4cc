use quest_makepad_camera_shell::camera_pairing::{collect_makepad_camera_choices, CameraInputDesc};
use quest_makepad_camera_shell::camera_pairing::pick_makepad_camera_pair;
use quest_makepad_camera_shell::pair_markers::{
    makepad_native_video_widget_surface_marker_fields, makepad_paired_projection_progress_marker_fields,
    makepad_projection_enumerated_marker_fields, projection_homography_marker_fields,
    ProjectionHomographyTexts,
};
use quest_makepad_camera_shell::camera_pairing::{
    best_choice_for_camera_id, best_choice_for_source_index, camera_id_from_makepad_desc_name,
    camera_source_class, display_source_eye_mapping, pixel_format_label, source_class_rank,
    BrokerH264Source, Camera2StereoPlan, CameraFormat, MakepadCameraChoice, MakepadCameraPair,
    PixelFormat, ProjectionHomography, SourceClass, StereoHomographies,
    DEFAULT_DISPLAY_SOURCE_EYE_MAPPING,
};

type Matrix = [[f32; 3]; 3];
type Pair = MakepadCameraPair<u32, Matrix, u8>;

fn yuv_choice(
    source_index: usize,
    camera_id: Option<&str>,
    width: usize,
    height: usize,
) -> MakepadCameraChoice<u32> {
    MakepadCameraChoice::new(
        source_index,
        0,
        CameraFormat {
            width,
            height,
            frame_rate_milli: Some(72_000),
            pixel_format: PixelFormat::Yuv420,
        },
        SourceClass::Back,
        camera_id.map(str::to_string),
    )
}

fn test_plan() -> Camera2StereoPlan<Matrix, u8> {
    Camera2StereoPlan {
        left_source_index: 0,
        right_source_index: 1,
        left_camera_id: "50".to_string(),
        right_camera_id: "51".to_string(),
        width: 1280,
        height: 1280,
        projection_metadata_ready: true,
        projection_geometry_profile: "camera2-platform-unprofiled".to_string(),
        pose_source: "platform-openxr-view".to_string(),
        source_eye_mapping: DEFAULT_DISPLAY_SOURCE_EYE_MAPPING.to_string(),
        coordinate_chain: "camera2-sensor-reference-to-openxr-head-basis".to_string(),
        fallback_reason: "none".to_string(),
        homographies: StereoHomographies::identity(),
        projection_homography_ready: true,
        runtime_xr_view_state_ready: true,
        openxr_contract: 0,
    }
}

#[test]
fn parses_makepad_descriptor_camera_id_token() {
    assert_eq!(
        camera_id_from_makepad_desc_name("Back Camera cameraId=50").as_deref(),
        Some("50")
    );
    assert_eq!(
        camera_id_from_makepad_desc_name("External cameraId=cam_12-3.4 fps=72").as_deref(),
        Some("cam_12-3.4")
    );
    assert_eq!(camera_id_from_makepad_desc_name("Back Camera"), None);
}

#[test]
fn empty_camera_id_token_is_no_camera_id() {
    assert_eq!(camera_id_from_makepad_desc_name("Back cameraId= fps=72"), None);
    assert_eq!(
        camera_id_from_makepad_desc_name("cameraId=1 cameraId=2").as_deref(),
        Some("1")
    );
}

#[test]
fn camera_id_choice_prefers_requested_size() {
    let choices = vec![
        yuv_choice(0, Some("50"), 640, 640),
        yuv_choice(1, Some("51"), 1280, 1280),
        yuv_choice(2, Some("50"), 1280, 1280),
    ];

    let choice = best_choice_for_camera_id(&choices, "50", (1280, 1280)).unwrap();

    assert_eq!(choice.source_index, 2);
    assert_eq!(choice.camera_id.as_deref(), Some("50"));
    assert_eq!((choice.width, choice.height), (1280, 1280));
}

#[test]
fn camera_id_lookup_ignores_empty_id_and_takes_last_of_equals() {
    let choices = vec![
        yuv_choice(0, Some(""), 1280, 1280),
        yuv_choice(3, Some("50"), 1280, 1280),
        yuv_choice(4, Some("50"), 1280, 1280),
    ];
    assert!(best_choice_for_camera_id(&choices, "", (1280, 1280)).is_none());
    let choice = best_choice_for_camera_id(&choices, "50", (1280, 1280)).unwrap();
    assert_eq!(choice.source_index, 4);
    assert!(best_choice_for_source_index(&choices, 7, (1280, 1280)).is_none());
    let by_index = best_choice_for_source_index(&choices, 3, (640, 640)).unwrap();
    assert_eq!(by_index.source_index, 3);
}

#[test]
fn camera_id_pair_binding_overrides_misleading_source_index() {
    let choices = vec![
        yuv_choice(0, Some("51"), 1280, 1280),
        yuv_choice(1, Some("50"), 1280, 1280),
    ];
    let plan = test_plan();

    let pair: Pair = MakepadCameraPair::from_camera2_plan(&choices, &plan, None).unwrap();

    assert_eq!(pair.source_binding_mode, "camera-id");
    assert_eq!(pair.left.camera_id.as_deref(), Some("50"));
    assert_eq!(pair.right.camera_id.as_deref(), Some("51"));
    assert_eq!(pair.left.source_index, 1);
    assert_eq!(pair.right.source_index, 0);
    assert!(pair.matches_camera2_plan(&plan));
}

#[test]
fn plan_pair_falls_back_to_source_index_and_refuses_one_input() {
    let choices = vec![yuv_choice(0, None, 1280, 1280), yuv_choice(1, None, 1280, 1280)];
    let plan = test_plan();
    let pair: Pair = MakepadCameraPair::from_camera2_plan(&choices, &plan, None).unwrap();
    assert_eq!(pair.source_binding_mode, "source-index-fallback");
    assert_eq!((pair.left.source_index, pair.right.source_index), (0, 1));
    assert!(pair.matches_camera2_plan(&plan));

    let single = vec![yuv_choice(0, Some("50"), 1280, 1280), yuv_choice(0, Some("51"), 1280, 1280)];
    let none: Option<Pair> = MakepadCameraPair::from_camera2_plan(&single, &plan, None);
    assert!(none.is_none());
}

#[test]
fn direct_full_frame_profile_marks_source_binding_and_homography() {
    let choices = vec![
        yuv_choice(0, Some("51"), 1280, 1280),
        yuv_choice(1, Some("50"), 1280, 1280),
    ];
    let mut plan = test_plan();

    plan.apply_projection_geometry_profile("full-frame-diagnostic");
    let pair: Pair = MakepadCameraPair::from_camera2_plan(&choices, &plan, None).unwrap();

    assert_eq!(
        pair.source_binding_mode,
        "direct-camera2-full-frame-diagnostic-camera-id"
    );
    assert!(matches!(
        pair.homographies.left_surface_to_camera,
        ProjectionHomography::Identity
    ));
    assert!(matches!(
        pair.homographies.left_screen_to_camera,
        ProjectionHomography::Identity
    ));
    assert!(pair
        .coordinate_chain
        .contains("direct-camera2-full-frame-diagnostic-projection-surface"));
}

#[test]
fn full_frame_profile_moves_screen_to_surface_into_screen_to_camera() {
    let mut plan = test_plan();
    let m: Matrix = [[2.0, 0.0, 0.0], [0.0, 2.0, 0.0], [0.0, 0.0, 1.0]];
    plan.homographies.left_screen_to_surface = ProjectionHomography::Measured(m);
    plan.homographies.left_surface_to_camera = ProjectionHomography::Measured(m);
    plan.runtime_xr_view_state_ready = false;
    plan.apply_projection_geometry_profile("full-frame-diagnostic");
    assert!(matches!(plan.homographies.left_screen_to_camera, ProjectionHomography::Measured(x) if x == m));
    assert!(matches!(plan.homographies.left_surface_to_camera, ProjectionHomography::Identity));
    assert!(!plan.projection_metadata_ready);
    assert!(!plan.projection_homography_ready);
    assert_eq!(plan.pose_source, "projection-surface");
    assert_eq!(plan.fallback_reason, "waiting_for_runtime_openxr_view_state");
}

#[test]
fn camera_projection_profile_marks_chain_once() {
    let mut plan = test_plan();
    plan.fallback_reason = "unsupported_direct_camera_projection_geometry_profile".to_string();
    plan.apply_projection_geometry_profile("camera-projection");
    assert_eq!(
        plan.coordinate_chain,
        "direct-camera2-screen-to-camera-homography/camera2-sensor-reference-to-openxr-head-basis"
    );
    assert_eq!(plan.fallback_reason, "none");
    let once = plan.coordinate_chain.clone();
    plan.apply_projection_geometry_profile("camera-projection");
    assert_eq!(plan.coordinate_chain, once);
    assert_eq!(plan.projection_geometry_profile, "camera-projection");
}

#[test]
fn unsupported_profile_drops_readiness() {
    let mut plan = test_plan();
    plan.apply_projection_geometry_profile("odd profile");
    assert!(!plan.projection_metadata_ready);
    assert!(!plan.projection_homography_ready);
    assert_eq!(
        plan.fallback_reason,
        "unsupported_direct_camera_projection_geometry_profile:odd_profile"
    );
    assert_eq!(
        plan.coordinate_chain,
        "unsupported-direct-camera-projection-geometry-profile:odd_profile/camera2-sensor-reference-to-openxr-head-basis"
    );
    let chain = plan.coordinate_chain.clone();
    plan.apply_projection_geometry_profile("odd profile");
    assert_eq!(plan.coordinate_chain, chain);
}

#[test]
fn best_available_pair_prefers_back_cameras_and_close_indices() {
    let mut front = yuv_choice(0, Some("f"), 1280, 1280);
    front.source_class = SourceClass::Front;
    let choices = vec![
        front,
        yuv_choice(1, Some("a"), 1280, 1280),
        yuv_choice(2, Some("b"), 1280, 1280),
        yuv_choice(5, Some("c"), 1280, 1280),
        yuv_choice(6, Some("d"), 640, 480),
    ];
    let pair: Pair = MakepadCameraPair::from_best_available_pair(&choices, None).unwrap();
    assert_eq!((pair.left.source_index, pair.right.source_index), (1, 2));
    assert_eq!(pair.source_binding_mode, "best-available-fallback");
    assert_eq!(pair.pose_source, "missing");
    assert_eq!(pair.coordinate_chain, "unresolved");
    assert_eq!(pair.projection_geometry_profile, "camera-projection");
    assert_eq!(
        pair.fallback_reason,
        "camera2 stereo projection metadata was not correlated"
    );
    assert!(pair.openxr_contract.is_none());
    assert!(!pair.projection_metadata_ready);
}

#[test]
fn best_available_pair_needs_two_inputs_with_one_format() {
    let choices = vec![yuv_choice(0, None, 1280, 1280), yuv_choice(1, None, 640, 640)];
    let pair: Option<Pair> = MakepadCameraPair::from_best_available_pair(&choices, None);
    assert!(pair.is_none());
}

#[test]
fn broker_source_modes_bind_the_stream_kind() {
    let camera: Pair = MakepadCameraPair::from_broker_h264_source(&BrokerH264Source {
        preferred_width: 0,
        preferred_height: 720,
        source_mode: " Camera2 ".to_string(),
        synthetic_projection_profile: "uv-grid".to_string(),
    });
    assert_eq!(camera.source_binding_mode, "broker-h264-camera-stereo-stream");
    assert_eq!(camera.pose_source, "broker-camera-h264-stream-header-pending");
    assert_eq!((camera.left.width, camera.left.height), (1, 720));
    assert_eq!(camera.left.camera_id.as_deref(), Some("broker-h264-left"));
    assert_eq!(camera.right.camera_id.as_deref(), Some("broker-h264-right"));
    assert_eq!((camera.left.source_index, camera.right.source_index), (0, 1));
    assert_eq!(camera.projection_geometry_profile, "uv-grid");
    assert_eq!(camera.source_eye_mapping, "left-right");

    let existing: Pair = MakepadCameraPair::from_broker_h264_source(&BrokerH264Source {
        preferred_width: 1280,
        preferred_height: 1280,
        source_mode: "proxy_stream".to_string(),
        synthetic_projection_profile: String::new(),
    });
    assert_eq!(existing.source_binding_mode, "broker-h264-existing-stereo-stream");

    let synthetic: Pair = MakepadCameraPair::from_broker_h264_source(&BrokerH264Source {
        preferred_width: 1280,
        preferred_height: 1280,
        source_mode: "pattern".to_string(),
        synthetic_projection_profile: String::new(),
    });
    assert_eq!(synthetic.source_binding_mode, "broker-h264-synthetic-stereo-stream");
    assert_eq!(synthetic.pose_source, "broker-synthetic-h264-stream-header-pending");
}

#[test]
fn compile_time_source_eye_mapping_is_sanitized() {
    let configured: Option<&str> = None;
    let expected = match configured {
        Some("display-left-from-left-source") => "display-left-from-left-source",
        Some("display-left-from-right-source") => "display-left-from-right-source",
        _ => DEFAULT_DISPLAY_SOURCE_EYE_MAPPING,
    };
    assert_eq!(display_source_eye_mapping(configured), expected);
    assert_eq!(
        display_source_eye_mapping(Some("display-left-from-right-source")),
        "display-left-from-right-source"
    );
    assert_eq!(
        display_source_eye_mapping(Some("sideways")),
        "display-left-from-left-source"
    );
}

#[test]
fn default_source_eye_mapping_matches_hwb_and_oes() {
    assert_eq!(
        DEFAULT_DISPLAY_SOURCE_EYE_MAPPING,
        "display-left-from-left-source"
    );
}

#[test]
fn descriptor_names_classify_sources() {
    assert_eq!(camera_source_class("Rear BACK camera"), SourceClass::Back);
    assert_eq!(camera_source_class("USB External"), SourceClass::External);
    assert_eq!(camera_source_class("front facing"), SourceClass::Front);
    assert_eq!(camera_source_class("depth"), SourceClass::Unknown);
    assert_eq!(source_class_rank(SourceClass::Back), 3);
    assert_eq!(source_class_rank(SourceClass::Synthetic), 0);
    assert_eq!(SourceClass::External.label(), "external");
    assert_eq!(pixel_format_label(PixelFormat::Yuv420), "yuv420");
    assert_eq!(pixel_format_label(PixelFormat::Unsupported(7)), "unsupported");
}

#[test]
fn choice_score_ranks_class_rate_and_size() {
    let choice = yuv_choice(0, None, 1280, 1280);
    assert_eq!(choice.score(), (3, 72_000, 1280 * 1280, 1280 * 1280));
    let odd = yuv_choice(0, None, 1920, 1080);
    let area = 1920i64 * 1080;
    assert_eq!(odd.score().2, area - (640 + 200) * 2048 - 840 * 4096);
}

#[test]
fn input_descriptors_yield_yuv_choices_in_order() {
    let format = |width: usize, pixel_format: PixelFormat| CameraFormat {
        width,
        height: width,
        frame_rate_milli: None,
        pixel_format,
    };
    let descs = vec![
        CameraInputDesc {
            name: "Back Camera cameraId=50".to_string(),
            input_id: 7u8,
            formats: vec![(1u8, format(640, PixelFormat::Yuv420)), (2u8, format(800, PixelFormat::Nv12))],
        },
        CameraInputDesc {
            name: "Front".to_string(),
            input_id: 8u8,
            formats: vec![(3u8, format(1280, PixelFormat::Yuv420))],
        },
    ];
    let choices = collect_makepad_camera_choices(&descs);
    assert_eq!(choices.len(), 2);
    assert_eq!(choices[0].source_index, 0);
    assert_eq!(choices[0].input, Some((7, 1)));
    assert_eq!(choices[0].camera_id.as_deref(), Some("50"));
    assert_eq!(choices[0].source_class, SourceClass::Back);
    assert_eq!(choices[1].source_index, 1);
    assert_eq!(choices[1].input, Some((8, 3)));
    assert_eq!(choices[1].camera_id, None);
    assert_eq!(choices[1].source_class, SourceClass::Front);
    assert_eq!(choices[1].width, 1280);
}

#[test]
fn pair_pick_prefers_broker_then_plan_then_best_available() {
    let choices = vec![
        yuv_choice(0, Some("51"), 1280, 1280),
        yuv_choice(1, Some("50"), 1280, 1280),
    ];
    let plan = test_plan();
    let broker = BrokerH264Source {
        preferred_width: 1280,
        preferred_height: 1280,
        source_mode: "camera".to_string(),
        synthetic_projection_profile: String::new(),
    };
    let from_broker: Pair = pick_makepad_camera_pair(Some(&broker), &choices, Some(&plan), None).unwrap();
    assert_eq!(from_broker.source_binding_mode, "broker-h264-camera-stereo-stream");
    let from_plan: Pair = pick_makepad_camera_pair(None, &choices, Some(&plan), None).unwrap();
    assert_eq!(from_plan.source_binding_mode, "camera-id");
    let fallback: Pair = pick_makepad_camera_pair(None, &choices, None, None).unwrap();
    assert_eq!(fallback.source_binding_mode, "best-available-fallback");
    let mut far_plan = test_plan();
    far_plan.left_camera_id = "70".to_string();
    far_plan.left_source_index = 9;
    let unmatched: Pair = pick_makepad_camera_pair(None, &choices, Some(&far_plan), None).unwrap();
    assert_eq!(unmatched.source_binding_mode, "best-available-fallback");
}

#[test]
fn pair_markers_carry_homography_fields() {
    let choices = vec![
        yuv_choice(0, Some("51"), 1280, 1280),
        yuv_choice(1, Some("50"), 1280, 1280),
    ];
    let pair: Pair = MakepadCameraPair::from_camera2_plan(&choices, &test_plan(), None).unwrap();
    let h = |s: &str| s.to_string();
    let texts = ProjectionHomographyTexts {
        openxr_contract_fields: h("referenceSpace=stage"),
        left_surface_to_camera: h("1"),
        right_surface_to_camera: h("2"),
        left_surface_to_screen: h("3"),
        right_surface_to_screen: h("4"),
        left_screen_to_camera: h("5"),
        right_screen_to_camera: h("6"),
        left_screen_to_surface: h("7"),
        right_screen_to_surface: h("8"),
        source_valid_footprint_fields: h("footprint=a"),
        projection_target_fields: h("target=b"),
        target_footprint_fields: h("targetFootprint=c"),
    };
    let fields = projection_homography_marker_fields(&pair, &texts);
    assert!(fields.starts_with(
        "projectionHomographyReady=true runtimeXrViewStateReady=true sourceBindingMode=camera-id projectionGeometryProfile=camera2-platform-unprofiled geometry_profile=camera2-platform-unprofiled displayLeftCameraId=50 displayRightCameraId=51 makepadLeftCameraId=50 makepadRightCameraId=51"
    ));
    assert!(fields.contains("cpuUploadRect=0,0,1280,1280 cpuUploadStride=not-exposed referenceSpace=stage leftSurfaceToCameraH=1"));
    assert!(fields.ends_with("rightScreenToSurfaceH=8 footprint=a target=b targetFootprint=c"));

    let enumerated = makepad_projection_enumerated_marker_fields(&pair, &texts, 2, 4);
    assert!(enumerated.starts_with("phase=enumerated status=ok makepadSourceCount=2 makepadFormatCount=4"));
    assert!(enumerated.contains("leftSourceIndex=1 rightSourceIndex=0 sourceBindingMode=camera-id leftSourceClass=back rightSourceClass=back"));
    assert!(enumerated.ends_with("fallbackReason=none"));
    let progress = makepad_paired_projection_progress_marker_fields(&pair, &texts, "prepared", true, true, false, false);
    assert!(progress.starts_with("phase=prepared status=progress leftPrepared=true rightPrepared=true"));
    let surface = makepad_native_video_widget_surface_marker_fields(&pair, 2);
    assert!(surface.contains("leftSourceIndex=1 rightSourceIndex=0"));
}
