use quest_makepad_camera_shell::text::{marker_token, marker_value};
use quest_makepad_camera_shell::projection_markers::{
    complete_marker_fields, draw_vars_bound_marker_fields,
    makepad_native_video_widget_reset_error_marker_fields,
    makepad_projection_complete_error_marker_fields, makepad_single_stream_proof_wait_marker_fields,
    makepad_stereo_projection_marker_line, native_video_widget_reset_marker_fields,
    native_video_widget_surface_marker_fields, paired_projection_progress_marker_fields,
    projection_complete_error_marker_fields, projection_enumerated_marker_fields,
    projection_start_marker_fields, single_stream_proof_wait_marker_fields,
    stereo_comparison_marker_line_fields, CompleteMarkerFields,
    MakepadStereoComparisonMarkerInputs, StereoComparisonPairFields,
};
use quest_makepad_camera_shell::texture_path::MakepadCameraTexturePath;

#[test]
fn draw_vars_bound_marker_keeps_projection_contract_shape() {
    let fields = draw_vars_bound_marker_fields(
        MakepadCameraTexturePath::DirectCpuYuvPlane,
        false,
        true,
        "left",
        true,
        true,
        "projectionHomographyReady=true runtimeXrViewStateReady=true",
    );

    assert!(fields.starts_with("phase=draw-vars-bound status=ok cameraReady=true yuvMode=true"));
    assert!(fields.contains(
        "leftYuvTextureBound=true rightYuvTextureBound=true brokerH264SurfaceTexture=false"
    ));
    assert!(fields.contains("singleStreamVisualProof=true updatedStreamVisualProofSide=left"));
    assert!(fields.contains("projectionHomographyReady=true runtimeXrViewStateReady=true"));
    assert!(fields.ends_with("visualInspection=required visualReleaseAccepted=false"));
}

#[test]
fn draw_vars_bound_marker_can_report_no_camera_texture_binding() {
    let fields = draw_vars_bound_marker_fields(
        MakepadCameraTexturePath::DirectCpuYuvPlane,
        false,
        false,
        "paired",
        false,
        true,
        "projectionHomographyReady=true runtimeXrViewStateReady=true",
    );

    assert!(fields.contains("yuvMode=false"));
    assert!(fields.contains("directCameraYuvColorAccepted=false"));
    assert!(fields.contains("cameraTextureBinding=false"));
    assert!(fields.contains("leftYuvTextureBound=false rightYuvTextureBound=false"));
    assert!(fields.contains("cameraTexturePath=direct-camera-cpu-yuv-plane"));
}

#[test]
fn stereo_projection_marker_line_keeps_prefix_shape() {
    assert_eq!(
        makepad_stereo_projection_marker_line("phase=start status=started"),
        "RUSTY_QUEST_MAKEPAD_STEREO_PROJECTION schema=rusty.quest.makepad-stereo-projection.v1 phase=start status=started"
    );
}

#[test]
fn complete_marker_keeps_projection_contract_shape() {
    let left_rotation = format!("{:.0}", 90.0_f32);
    let right_rotation = format!("{:.0}", 270.0_f32);
    let projection_scale = format!("{:.2}", 1.25_f64);
    let xr_render_scale = format!("{:.2}", 1.5_f64);
    let fields = complete_marker_fields(CompleteMarkerFields {
        paired_streams_ready: true,
        broker_h264_surface_texture: false,
        texture_path: MakepadCameraTexturePath::DirectCpuYuvPlane,
        projection_mapping_ready: true,
        aligned_projection: true,
        visible_projection_ready: true,
        projection_metadata_ready: true,
        pose_source: "camera2-openxr-view",
        source_eye_mapping: "left-right",
        coordinate_chain: "camera2-to-shader-surface",
        projection_mode: "camera",
        left_source_index: 0,
        right_source_index: 1,
        left_source_class: "back",
        right_source_class: "back",
        left_width: 1280,
        left_height: 1280,
        right_width: 1280,
        right_height: 1280,
        left_rotation_steps: &left_rotation,
        right_rotation_steps: &right_rotation,
        projection_scale: &projection_scale,
        xr_render_scale: &xr_render_scale,
        homography_marker_fields: "projectionHomographyReady=true runtimeXrViewStateReady=true",
        fallback_reason: "none",
    });

    assert!(fields.starts_with("phase=complete status=ok pairedLeftRightCameraFrames=true"));
    assert!(fields.contains(
        "projectionMappingReady=true alignedProjection=true visibleCameraProjectionReady=true"
    ));
    assert!(fields.contains(
        "projectionMode=camera leftEyeSource=makepad-camera-source-0 rightEyeSource=makepad-camera-source-1"
    ));
    assert!(fields.contains("leftRotationSteps=90 rightRotationSteps=270"));
    assert!(fields.contains("projectionScale=1.25 xrRenderScale=1.50"));
    assert!(fields.contains("projectionHomographyReady=true runtimeXrViewStateReady=true"));
    assert!(fields.contains("cpuUploadPath=makepad-camera-cpu-yuv-plane"));
    assert!(fields.ends_with("fallbackReason=none"));
}

#[test]
fn complete_error_marker_keeps_projection_contract_shape() {
    let fields = projection_complete_error_marker_fields("left");

    assert_eq!(
        fields,
        "phase=complete status=error side=left pairedLeftRightGpuBuffers=false projectionMappingReady=false alignedProjection=false fallbackReason=makepad_video_import_failed"
    );
}

#[test]
fn projection_start_marker_keeps_projection_contract_shape() {
    let projection_scale = format!("{:.2}", 1.25_f64);
    let xr_render_scale = format!("{:.2}", 1.5_f64);
    let fields = projection_start_marker_fields(
        true,
        true,
        "camera2-openxr-view",
        "left-right",
        "camera2-to-shader-surface",
        "projectionHomographyReady=true runtimeXrViewStateReady=true",
        0,
        1,
        "camera",
        &projection_scale,
        &xr_render_scale,
        "none",
    );

    assert!(fields.starts_with("phase=start status=started pairedLeftRightGpuBuffers=false"));
    assert!(fields.contains(
        "projectionMappingReady=true alignedProjection=false projectionMetadataReady=true"
    ));
    assert!(fields.contains("poseSource=camera2-openxr-view sourceEyeMapping=left-right"));
    assert!(fields.contains("projectionHomographyReady=true runtimeXrViewStateReady=true"));
    assert!(fields.contains("projectionMode=camera projectionScale=1.25 xrRenderScale=1.50"));
    assert!(fields.ends_with("fallbackReason=none"));
}

#[test]
fn paired_projection_progress_marker_keeps_projection_contract_shape() {
    let fields = paired_projection_progress_marker_fields(
        "texture-updated",
        true,
        false,
        true,
        false,
        true,
        true,
        "camera2-openxr-view",
        "left-right",
        "projectionHomographyReady=true runtimeXrViewStateReady=true",
        0,
        1,
        "waiting_for_right",
    );

    assert!(fields.starts_with(
        "phase=texture-updated status=progress leftPrepared=true rightPrepared=false"
    ));
    assert!(fields.contains("leftUpdated=true rightUpdated=false"));
    assert!(fields.contains(
        "projectionMappingReady=true alignedProjection=false projectionMetadataReady=true"
    ));
    assert!(fields.contains("poseSource=camera2-openxr-view sourceEyeMapping=left-right"));
    assert!(fields.contains("projectionHomographyReady=true runtimeXrViewStateReady=true"));
    assert!(fields.ends_with("leftSourceIndex=0 rightSourceIndex=1 fallbackReason=waiting_for_right"));
}

#[test]
fn single_stream_proof_wait_marker_keeps_projection_contract_shape() {
    let fields = single_stream_proof_wait_marker_fields(
        true,
        false,
        true,
        false,
        MakepadCameraTexturePath::DirectCpuYuvPlane,
        true,
        true,
        "left",
    );

    assert!(fields.starts_with(
        "phase=single-stream-proof status=waiting pairedLeftRightCameraFrames=false"
    ));
    assert!(fields.contains("singleStreamCameraPixels=true leftUpdated=true rightUpdated=false"));
    assert!(fields.contains("leftYuvReady=true rightYuvReady=false"));
    assert!(fields.contains(
        "projectionMappingReady=true alignedProjection=false visibleCameraProjectionReady=true"
    ));
    assert!(fields.contains("updatedStreamVisualProofSide=left"));
    assert!(fields.ends_with("fallbackReason=waiting_for_second_cpu_yuv_stream"));
}

#[test]
fn projection_enumerated_marker_keeps_projection_contract_shape() {
    let fields = projection_enumerated_marker_fields(
        2,
        4,
        true,
        true,
        "camera2-openxr-view",
        "left-right",
        "camera2-to-shader-surface",
        "projectionHomographyReady=true runtimeXrViewStateReady=true",
        0,
        1,
        "camera2-direct",
        "back",
        "back",
        1280,
        1280,
        1280,
        1280,
        "none",
    );

    assert!(fields.starts_with("phase=enumerated status=ok makepadSourceCount=2 makepadFormatCount=4"));
    assert!(fields.contains(
        "projectionMappingReady=true alignedProjection=false projectionMetadataReady=true"
    ));
    assert!(fields.contains("projectionHomographyReady=true runtimeXrViewStateReady=true"));
    assert!(fields.contains("sourceBindingMode=camera2-direct leftSourceClass=back"));
    assert!(fields.ends_with("fallbackReason=none"));
}

#[test]
fn stereo_comparison_marker_keeps_projection_contract_shape() {
    let projection_scale = format!("{:.2}", 1.25_f64);
    let xr_render_scale = format!("{:.2}", 1.5_f64);
    let inputs = MakepadStereoComparisonMarkerInputs {
        phase: "paired-projection-ready",
        runtime_profile: "fast-visual",
        comparison_baseline: "canvas-custom",
        camera_tier: "direct-camera",
        acquisition_profile: "camera2",
        transport_profile: "cpu-yuv",
        projection_mode: "camera",
        synthetic_scene: "hidden",
        projection_scale: &projection_scale,
        xr_render_scale: &xr_render_scale,
        texture_path: MakepadCameraTexturePath::DirectCpuYuvPlane,
        aligned_projection: true,
        visible_projection_ready: true,
        makepad_fork_branch: "branch",
        makepad_fork_commit: "commit",
    };
    let fields = stereo_comparison_marker_line_fields(
        StereoComparisonPairFields {
            left_source_index: 0,
            right_source_index: 1,
            source_eye_mapping: "left-right",
        },
        &inputs,
        "projectionHomographyReady=true runtimeXrViewStateReady=true",
    );

    assert!(fields.starts_with(
        "RUSTY_QUEST_MAKEPAD_STEREO_COMPARISON schema=rusty.quest.makepad-stereo-comparison.v1"
    ));
    assert!(fields.contains("phase=paired-projection-ready profile=fast-visual"));
    assert!(fields.contains("projectionMode=camera syntheticScene=hidden"));
    assert!(fields.contains("projectionScale=1.25 xrRenderScale=1.50"));
    assert!(fields.contains("projectionHomographyReady=true runtimeXrViewStateReady=true"));
    assert!(fields.contains("makepadForkBranch=branch makepadForkCommit=commit"));
    assert!(fields.ends_with("visualInspection=required visualReleaseAccepted=false"));
}

#[test]
fn native_video_widget_markers_keep_projection_contract_shape() {
    let error =
        native_video_widget_reset_marker_fields("error", false, true, true, false, false, true, 3, None);
    assert!(error.starts_with("phase=native-video-widget-reset status=error leftUnprepared=false"));
    assert!(!error.contains("retrySeconds="));
    assert!(error.ends_with("fallbackReason=makepad_video_widget_not_unprepared"));

    let retry = format!("{}", 0.5_f64);
    let waiting = native_video_widget_reset_marker_fields(
        "waiting",
        false,
        false,
        true,
        true,
        false,
        false,
        1,
        Some(&retry),
    );
    assert!(waiting.contains("status=waiting"));
    assert!(waiting.contains("resetCount=1 retrySeconds=0.5"));

    let surface = native_video_widget_surface_marker_fields(0, 1, 1280, 720, 1280, 720, 1);
    assert!(surface.starts_with(
        "phase=native-video-widget-surface status=started renderPath=makepad-quest-view-video-widget"
    ));
    assert!(surface.contains("leftSourceIndex=0 rightSourceIndex=1"));
    assert!(surface.ends_with("visualInspection=required visualReleaseAccepted=false"));
}

#[test]
fn makepad_wrappers_forward_their_fields() {
    assert_eq!(
        makepad_projection_complete_error_marker_fields("right"),
        projection_complete_error_marker_fields("right")
    );
    assert_eq!(
        makepad_single_stream_proof_wait_marker_fields(
            false,
            true,
            false,
            true,
            MakepadCameraTexturePath::DirectHardwareBufferExternal,
            false,
            false,
            "right",
        ),
        single_stream_proof_wait_marker_fields(
            false,
            true,
            false,
            true,
            MakepadCameraTexturePath::DirectHardwareBufferExternal,
            false,
            false,
            "right",
        )
    );
    let error = makepad_native_video_widget_reset_error_marker_fields(true, true, false, false, false, false, 2);
    assert!(error.contains("status=error"));
    assert!(error.contains("resetCount=2 fallbackReason=makepad_video_widget_not_unprepared"));
}

#[test]
fn single_stream_wait_on_external_texture_names_the_external_stream() {
    let fields = single_stream_proof_wait_marker_fields(
        false,
        true,
        false,
        false,
        MakepadCameraTexturePath::DirectHardwareBufferExternal,
        false,
        false,
        "right",
    );
    assert!(fields.ends_with("fallbackReason=waiting_for_second_external_texture_stream"));
}

#[test]
fn marker_tokens_are_stable_under_resanitizing() {
    let once = marker_token("a b/c:d.e-f_g");
    assert_eq!(once, "a_b_c_d.e-f_g");
    assert_eq!(marker_token(&once), once);
    assert_eq!(marker_value("  a b/c:d  "), "a_b/c:d");
    assert_eq!(marker_value("   "), "empty");
}
