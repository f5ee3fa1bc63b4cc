use quest_makepad_camera_shell::pair_updates::BrokerStreamHeader;
use quest_makepad_camera_shell::camera_pairing::{
    BrokerH264Source, Camera2StereoPlan, CameraFormat, MakepadCameraChoice, MakepadCameraPair, PixelFormat,
    ProjectionHomography, SourceClass, StereoHomographies,
};
use quest_makepad_camera_shell::orientation::StimulusOrientation;
use quest_makepad_camera_shell::stereo_frames::StereoEye;

type Pair = MakepadCameraPair<u32, [[f32; 3]; 3], u8>;

fn header(camera_id: &str, width: u32, height: u32, ready: bool, pose_source: &str) -> BrokerStreamHeader {
    BrokerStreamHeader {
        camera_id: camera_id.to_string(),
        delivered_width: width,
        delivered_height: height,
        projection_metadata_ready: ready,
        orientation: StimulusOrientation {
            explicit: true,
            raster_orientation: "top-left-origin-y-down".to_string(),
            orientation_kind: "camera-frame".to_string(),
            upright_marker: "camera-native-upright".to_string(),
            metadata_source: "stream-stimulus-contract".to_string(),
            pose_source: pose_source.to_string(),
        },
    }
}

fn broker_pair() -> Pair {
    MakepadCameraPair::from_broker_h264_source(&BrokerH264Source {
        preferred_width: 1280,
        preferred_height: 960,
        source_mode: "camera".to_string(),
        synthetic_projection_profile: String::new(),
    })
}

#[test]
fn first_header_updates_its_eye_and_waits_for_the_other() {
    let mut pair = broker_pair();
    let left = Some(header("50", 1920, 0, true, "platform"));
    let right: Option<BrokerStreamHeader> = None;
    pair.apply_broker_stream_header(StereoEye::Left, &left, &right);
    assert_eq!(pair.left.camera_id.as_deref(), Some("50"));
    assert_eq!((pair.left.width, pair.left.height), (1920, 960));
    assert_eq!(pair.right.camera_id.as_deref(), Some("broker-h264-right"));
    assert!(!pair.projection_metadata_ready);
    assert_eq!(pair.pose_source, "platform");
    assert_eq!(pair.source_binding_mode, "broker-h264-stream-header");
    assert_eq!(pair.coordinate_chain, "broker-h264-stream-header-to-runtime-openxr-view");
    assert_eq!(pair.fallback_reason, "broker_stream_metadata_not_projection_ready");
}

#[test]
fn both_headers_make_projection_metadata_ready_and_merge_pose_sources() {
    let mut pair = broker_pair();
    let left = Some(header("50", 1280, 1280, true, "platform"));
    let right = Some(header("51", 1280, 1280, true, "synthetic"));
    pair.apply_broker_stream_header(StereoEye::Right, &left, &right);
    assert_eq!(pair.right.camera_id.as_deref(), Some("51"));
    assert_eq!((pair.right.width, pair.right.height), (1280, 1280));
    assert_eq!(pair.left.camera_id.as_deref(), Some("broker-h264-left"));
    assert!(pair.projection_metadata_ready);
    assert_eq!(pair.pose_source, "platform+synthetic");
    assert_eq!(pair.fallback_reason, "waiting_for_runtime_xr_view_projection");

    let not_ready = Some(header("51", 0, 0, false, "platform"));
    pair.apply_broker_stream_header(StereoEye::Right, &left, &not_ready);
    assert!(!pair.projection_metadata_ready);
    assert_eq!(pair.pose_source, "platform");
    assert_eq!((pair.right.width, pair.right.height), (1280, 1280));
}

fn plan(width: u32, ready: bool) -> Camera2StereoPlan<[[f32; 3]; 3], u8> {
    Camera2StereoPlan {
        left_source_index: 0,
        right_source_index: 1,
        left_camera_id: "50".to_string(),
        right_camera_id: "51".to_string(),
        width,
        height: 1280,
        projection_metadata_ready: ready,
        projection_geometry_profile: "camera2-platform-unprofiled".to_string(),
        pose_source: "platform-openxr-view".to_string(),
        source_eye_mapping: "display-left-from-left-source".to_string(),
        coordinate_chain: "camera2-sensor-reference-to-openxr-head-basis".to_string(),
        fallback_reason: "none".to_string(),
        homographies: StereoHomographies::identity(),
        projection_homography_ready: ready,
        runtime_xr_view_state_ready: ready,
        openxr_contract: 7,
    }
}

fn choice(source_index: usize, camera_id: &str) -> MakepadCameraChoice<u32> {
    MakepadCameraChoice::new(
        source_index,
        source_index as u32,
        CameraFormat {
            width: 1280,
            height: 1280,
            frame_rate_milli: Some(72_000),
            pixel_format: PixelFormat::Yuv420,
        },
        SourceClass::Back,
        Some(camera_id.to_string()),
    )
}

#[test]
fn refreshed_plan_of_the_same_cameras_updates_the_projection() {
    let choices = vec![choice(0, "50"), choice(1, "51")];
    let mut pair: Pair = MakepadCameraPair::from_camera2_plan(&choices, &plan(1280, false), None).unwrap();
    assert!(!pair.projection_homography_ready);
    let mut refreshed = plan(1280, true);
    refreshed.fallback_reason = "refreshed".to_string();
    refreshed.homographies.left_surface_to_camera =
        ProjectionHomography::Measured([[2.0, 0.0, 0.0], [0.0, 2.0, 0.0], [0.0, 0.0, 1.0]]);
    assert!(pair.refresh_from_camera2_plan(&refreshed, Some("display-left-from-right-source")));
    assert!(pair.projection_homography_ready);
    assert!(pair.projection_metadata_ready);
    assert!(pair.runtime_xr_view_state_ready);
    assert_eq!(pair.fallback_reason, "refreshed");
    assert_eq!(pair.source_eye_mapping, "display-left-from-right-source");
    assert_eq!(pair.openxr_contract, Some(7));
    assert!(matches!(
        pair.homographies.left_surface_to_camera,
        ProjectionHomography::Measured(_)
    ));
    assert_eq!(pair.left.camera_id.as_deref(), Some("50"));
}

#[test]
fn plan_of_another_size_is_not_taken_over() {
    let choices = vec![choice(0, "50"), choice(1, "51")];
    let mut pair: Pair = MakepadCameraPair::from_camera2_plan(&choices, &plan(1280, false), None).unwrap();
    assert!(!pair.refresh_from_camera2_plan(&plan(1920, true), None));
    assert!(!pair.projection_homography_ready);
    assert_eq!(pair.fallback_reason, "none");
}
