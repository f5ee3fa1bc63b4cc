//! Marker fields that describe the projection pipeline's progress. Values
//! that the app measures in floating point arrive here already formatted.
use vstd::prelude::*;
use crate::text::{bool_text, dec_nat, push_bool, push_u64};
use crate::texture_path::MakepadCameraTexturePath;

verus! {

/// Everything the completion marker reports.
pub struct CompleteMarkerFields<'a> {
    pub paired_streams_ready: bool,
    pub broker_h264_surface_texture: bool,
    pub texture_path: MakepadCameraTexturePath,
    pub projection_mapping_ready: bool,
    pub aligned_projection: bool,
    pub visible_projection_ready: bool,
    pub projection_metadata_ready: bool,
    pub pose_source: &'a str,
    pub source_eye_mapping: &'a str,
    pub coordinate_chain: &'a str,
    pub projection_mode: &'a str,
    pub left_source_index: usize,
    pub right_source_index: usize,
    pub left_source_class: &'a str,
    pub right_source_class: &'a str,
    pub left_width: usize,
    pub left_height: usize,
    pub right_width: usize,
    pub right_height: usize,
    /// Left rotation in degrees, formatted without decimals.
    pub left_rotation_steps: &'a str,
    /// Right rotation in degrees, formatted without decimals.
    pub right_rotation_steps: &'a str,
    /// Projection scale, formatted with two decimals.
    pub projection_scale: &'a str,
    /// XR render scale, formatted with two decimals.
    pub xr_render_scale: &'a str,
    pub homography_marker_fields: &'a str,
    pub fallback_reason: &'a str,
}

/// The runtime profile inputs of a stereo comparison marker.
pub struct MakepadStereoComparisonMarkerInputs<'a> {
    pub phase: &'a str,
    pub runtime_profile: &'a str,
    pub comparison_baseline: &'a str,
    pub camera_tier: &'a str,
    pub acquisition_profile: &'a str,
    pub transport_profile: &'a str,
    pub projection_mode: &'a str,
    pub synthetic_scene: &'a str,
    /// Projection scale, formatted with two decimals.
    pub projection_scale: &'a str,
    /// XR render scale, formatted with two decimals.
    pub xr_render_scale: &'a str,
    pub texture_path: MakepadCameraTexturePath,
    pub aligned_projection: bool,
    pub visible_projection_ready: bool,
    pub makepad_fork_branch: &'a str,
    pub makepad_fork_commit: &'a str,
}

/// The camera pair facts that a stereo comparison marker reports.
pub struct StereoComparisonPairFields<'a> {
    pub left_source_index: usize,
    pub right_source_index: usize,
    pub source_eye_mapping: &'a str,
}

/// Why a single-stream proof still waits: for the second CPU YUV stream on
/// YUV paths, else for the second external texture stream.
pub open spec fn single_stream_fallback_reason(texture_path: MakepadCameraTexturePath) -> Seq<char> {
    if texture_path.yuv_sampling_spec() {
        "waiting_for_second_cpu_yuv_stream"@
    } else {
        "waiting_for_second_external_texture_stream"@
    }
}

/// The native video widget reset fields; `retry_seconds` is the retry delay
/// already formatted with one decimal, present only while waiting.
pub open spec fn native_video_widget_reset_marker_fields_spec(
    status: &str,
    left_unprepared: bool,
    right_unprepared: bool,
    left_playing: bool,
    right_playing: bool,
    left_cleaning_up: bool,
    right_cleaning_up: bool,
    reset_count: usize,
    retry_seconds: Option<&str>,
) -> Seq<char> {
    "phase=native-video-widget-reset status="@ + status@ + " leftUnprepared="@ + bool_text(
        left_unprepared,
    ) + " rightUnprepared="@ + bool_text(right_unprepared) + " leftPlaying="@ + bool_text(
        left_playing,
    ) + " rightPlaying="@ + bool_text(right_playing) + " leftCleaningUp="@ + bool_text(
        left_cleaning_up,
    ) + " rightCleaningUp="@ + bool_text(right_cleaning_up) + " resetCount="@ + dec_nat(
        reset_count as nat,
    ) + (match retry_seconds {
        Some(r) => " retrySeconds="@ + r@,
        None => Seq::<char>::empty(),
    }) + " fallbackReason=makepad_video_widget_not_unprepared"@
}

/// The fields reported while the native video widgets are being reset.
pub fn native_video_widget_reset_marker_fields(
    status: &str,
    left_unprepared: bool,
    right_unprepared: bool,
    left_playing: bool,
    right_playing: bool,
    left_cleaning_up: bool,
    right_cleaning_up: bool,
    reset_count: usize,
    retry_seconds: Option<&str>,
) -> (fields: String)
    ensures
        fields@ == native_video_widget_reset_marker_fields_spec(
            status,
            left_unprepared,
            right_unprepared,
            left_playing,
            right_playing,
            left_cleaning_up,
            right_cleaning_up,
            reset_count,
            retry_seconds,
        ),
{
    let mut out = String::from_str("phase=native-video-widget-reset status=");
    out.append(status);
    out.append(" leftUnprepared=");
    push_bool(&mut out, left_unprepared);
    out.append(" rightUnprepared=");
    push_bool(&mut out, right_unprepared);
    out.append(" leftPlaying=");
    push_bool(&mut out, left_playing);
    out.append(" rightPlaying=");
    push_bool(&mut out, right_playing);
    out.append(" leftCleaningUp=");
    push_bool(&mut out, left_cleaning_up);
    out.append(" rightCleaningUp=");
    push_bool(&mut out, right_cleaning_up);
    out.append(" resetCount=");
    push_u64(&mut out, reset_count as u64);
    let ghost before = out@;
    match retry_seconds {
        Some(r) => {
            out.append(" retrySeconds=");
            out.append(r);
            assert(out@ == before + (" retrySeconds="@ + r@));
        },
        None => {
            assert(out@ == before + Seq::<char>::empty());
        },
    }
    out.append(" fallbackReason=makepad_video_widget_not_unprepared");
    out
}

/// The reset fields reported when the native video widgets failed to reset.
pub fn makepad_native_video_widget_reset_error_marker_fields(
    left_unprepared: bool,
    right_unprepared: bool,
    left_playing: bool,
    right_playing: bool,
    left_cleaning_up: bool,
    right_cleaning_up: bool,
    reset_count: usize,
) -> (fields: String)
    ensures
        fields@ == native_video_widget_reset_marker_fields_spec(
            "error",
            left_unprepared,
            right_unprepared,
            left_playing,
            right_playing,
            left_cleaning_up,
            right_cleaning_up,
            reset_count,
            None,
        ),
{
    native_video_widget_reset_marker_fields(
        "error",
        left_unprepared,
        right_unprepared,
        left_playing,
        right_playing,
        left_cleaning_up,
        right_cleaning_up,
        reset_count,
        None,
    )
}

/// The completion error fields of one side.
pub fn makepad_projection_complete_error_marker_fields(side: &str) -> (fields: String)
    ensures
        fields@ == projection_complete_error_marker_fields_spec(side),
{
    projection_complete_error_marker_fields(side)
}

/// The single-stream waiting fields.
pub fn makepad_single_stream_proof_wait_marker_fields(
    left_updated: bool,
    right_updated: bool,
    left_yuv_ready: bool,
    right_yuv_ready: bool,
    texture_path: MakepadCameraTexturePath,
    projection_mapping_ready: bool,
    visible_projection_ready: bool,
    updated_stream_visual_proof_side: &str,
) -> (fields: String)
    ensures
        fields@ == single_stream_proof_wait_marker_fields_spec(
            left_updated,
            right_updated,
            left_yuv_ready,
            right_yuv_ready,
            texture_path,
            projection_mapping_ready,
            visible_projection_ready,
            updated_stream_visual_proof_side,
        ),
{
    single_stream_proof_wait_marker_fields(
        left_updated,
        right_updated,
        left_yuv_ready,
        right_yuv_ready,
        texture_path,
        projection_mapping_ready,
        visible_projection_ready,
        updated_stream_visual_proof_side,
    )
}

/// The stereo projection marker line for `body`.
pub open spec fn makepad_stereo_projection_marker_line_spec(body: &str) -> Seq<char> {
    "RUSTY_QUEST_MAKEPAD_STEREO_PROJECTION schema=rusty.quest.makepad-stereo-projection.v1 "@
        + body@
}

/// Prefixes a stereo projection marker body with its marker name and schema.
pub fn makepad_stereo_projection_marker_line(body: &str) -> (line: String)
    ensures
        line@ == makepad_stereo_projection_marker_line_spec(body),
{
    let mut out = String::from_str("RUSTY_QUEST_MAKEPAD_STEREO_PROJECTION schema=rusty.quest.makepad-stereo-projection.v1 ");
    out.append(body);
    out
}

/// The completion error fields for `side`.
pub open spec fn projection_complete_error_marker_fields_spec(side: &str) -> Seq<char> {
    "phase=complete status=error side="@
        + side@
        + " pairedLeftRightGpuBuffers=false projectionMappingReady=false alignedProjection=false fallbackReason=makepad_video_import_failed"@
}

/// The fields reported when importing one side of the camera pair failed.
pub fn projection_complete_error_marker_fields(side: &str) -> (fields: String)
    ensures
        fields@ == projection_complete_error_marker_fields_spec(side),
{
    let mut out = String::from_str("phase=complete status=error side=");
    out.append(side);
    out.append(" pairedLeftRightGpuBuffers=false projectionMappingReady=false alignedProjection=false fallbackReason=makepad_video_import_failed");
    out
}

/// The native video widget surface fields.
pub open spec fn native_video_widget_surface_marker_fields_spec(left_source_index: usize, right_source_index: usize, left_width: usize, left_height: usize, right_width: usize, right_height: usize, reset_count: usize) -> Seq<char> {
    "phase=native-video-widget-surface status=started renderPath=makepad-quest-view-video-widget visibleCameraProjectionReady=false leftSourceIndex="@
        + dec_nat(left_source_index as nat)
        + " rightSourceIndex="@
        + dec_nat(right_source_index as nat)
        + " leftWidth="@
        + dec_nat(left_width as nat)
        + " leftHeight="@
        + dec_nat(left_height as nat)
        + " rightWidth="@
        + dec_nat(right_width as nat)
        + " rightHeight="@
        + dec_nat(right_height as nat)
        + " resetCount="@
        + dec_nat(reset_count as nat)
        + " projectionShaderPath=makepad-video-widget-yuv visualInspection=required visualReleaseAccepted=false"@
}

/// The fields reported when the native video widget surface starts.
pub fn native_video_widget_surface_marker_fields(left_source_index: usize, right_source_index: usize, left_width: usize, left_height: usize, right_width: usize, right_height: usize, reset_count: usize) -> (fields: String)
    ensures
        fields@ == native_video_widget_surface_marker_fields_spec(left_source_index, right_source_index, left_width, left_height, right_width, right_height, reset_count),
{
    let mut out = String::from_str("phase=native-video-widget-surface status=started renderPath=makepad-quest-view-video-widget visibleCameraProjectionReady=false leftSourceIndex=");
    push_u64(&mut out, left_source_index as u64);
    out.append(" rightSourceIndex=");
    push_u64(&mut out, right_source_index as u64);
    out.append(" leftWidth=");
    push_u64(&mut out, left_width as u64);
    out.append(" leftHeight=");
    push_u64(&mut out, left_height as u64);
    out.append(" rightWidth=");
    push_u64(&mut out, right_width as u64);
    out.append(" rightHeight=");
    push_u64(&mut out, right_height as u64);
    out.append(" resetCount=");
    push_u64(&mut out, reset_count as u64);
    out.append(" projectionShaderPath=makepad-video-widget-yuv visualInspection=required visualReleaseAccepted=false");
    out
}

/// The enumeration fields.
pub open spec fn projection_enumerated_marker_fields_spec(source_count: usize, format_count: usize, projection_mapping_ready: bool, projection_metadata_ready: bool, pose_source: Seq<char>, source_eye_mapping: Seq<char>, coordinate_chain: Seq<char>, homography_marker_fields: Seq<char>, left_source_index: usize, right_source_index: usize, source_binding_mode: Seq<char>, left_source_class: Seq<char>, right_source_class: Seq<char>, left_width: usize, left_height: usize, right_width: usize, right_height: usize, fallback_reason: Seq<char>) -> Seq<char> {
    "phase=enumerated status=ok makepadSourceCount="@
        + dec_nat(source_count as nat)
        + " makepadFormatCount="@
        + dec_nat(format_count as nat)
        + " pairedLeftRightGpuBuffers=false projectionMappingReady="@
        + bool_text(projection_mapping_ready)
        + " alignedProjection=false projectionMetadataReady="@
        + bool_text(projection_metadata_ready)
        + " poseSource="@
        + pose_source
        + " sourceEyeMapping="@
        + source_eye_mapping
        + " coordinateChain="@
        + coordinate_chain
        + " "@
        + homography_marker_fields
        + " leftSourceIndex="@
        + dec_nat(left_source_index as nat)
        + " rightSourceIndex="@
        + dec_nat(right_source_index as nat)
        + " sourceBindingMode="@
        + source_binding_mode
        + " leftSourceClass="@
        + left_source_class
        + " rightSourceClass="@
        + right_source_class
        + " leftWidth="@
        + dec_nat(left_width as nat)
        + " leftHeight="@
        + dec_nat(left_height as nat)
        + " rightWidth="@
        + dec_nat(right_width as nat)
        + " rightHeight="@
        + dec_nat(right_height as nat)
        + " fallbackReason="@
        + fallback_reason
}

/// The fields reported once the camera sources are enumerated and a pair is bound.
pub fn projection_enumerated_marker_fields(source_count: usize, format_count: usize, projection_mapping_ready: bool, projection_metadata_ready: bool, pose_source: &str, source_eye_mapping: &str, coordinate_chain: &str, homography_marker_fields: &str, left_source_index: usize, right_source_index: usize, source_binding_mode: &str, left_source_class: &str, right_source_class: &str, left_width: usize, left_height: usize, right_width: usize, right_height: usize, fallback_reason: &str) -> (fields: String)
    ensures
        fields@ == projection_enumerated_marker_fields_spec(source_count, format_count, projection_mapping_ready, projection_metadata_ready, pose_source@, source_eye_mapping@, coordinate_chain@, homography_marker_fields@, left_source_index, right_source_index, source_binding_mode@, left_source_class@, right_source_class@, left_width, left_height, right_width, right_height, fallback_reason@),
{
    let mut out = String::from_str("phase=enumerated status=ok makepadSourceCount=");
    push_u64(&mut out, source_count as u64);
    out.append(" makepadFormatCount=");
    push_u64(&mut out, format_count as u64);
    out.append(" pairedLeftRightGpuBuffers=false projectionMappingReady=");
    push_bool(&mut out, projection_mapping_ready);
    out.append(" alignedProjection=false projectionMetadataReady=");
    push_bool(&mut out, projection_metadata_ready);
    out.append(" poseSource=");
    out.append(pose_source);
    out.append(" sourceEyeMapping=");
    out.append(source_eye_mapping);
    out.append(" coordinateChain=");
    out.append(coordinate_chain);
    out.append(" ");
    out.append(homography_marker_fields);
    out.append(" leftSourceIndex=");
    push_u64(&mut out, left_source_index as u64);
    out.append(" rightSourceIndex=");
    push_u64(&mut out, right_source_index as u64);
    out.append(" sourceBindingMode=");
    out.append(source_binding_mode);
    out.append(" leftSourceClass=");
    out.append(left_source_class);
    out.append(" rightSourceClass=");
    out.append(right_source_class);
    out.append(" leftWidth=");
    push_u64(&mut out, left_width as u64);
    out.append(" leftHeight=");
    push_u64(&mut out, left_height as u64);
    out.append(" rightWidth=");
    push_u64(&mut out, right_width as u64);
    out.append(" rightHeight=");
    push_u64(&mut out, right_height as u64);
    out.append(" fallbackReason=");
    out.append(fallback_reason);
    out
}

/// The progress fields.
pub open spec fn paired_projection_progress_marker_fields_spec(phase: Seq<char>, left_prepared: bool, right_prepared: bool, left_updated: bool, right_updated: bool, projection_mapping_ready: bool, projection_metadata_ready: bool, pose_source: Seq<char>, source_eye_mapping: Seq<char>, homography_marker_fields: Seq<char>, left_source_index: usize, right_source_index: usize, fallback_reason: Seq<char>) -> Seq<char> {
    "phase="@
        + phase
        + " status=progress leftPrepared="@
        + bool_text(left_prepared)
        + " rightPrepared="@
        + bool_text(right_prepared)
        + " leftUpdated="@
        + bool_text(left_updated)
        + " rightUpdated="@
        + bool_text(right_updated)
        + " pairedLeftRightGpuBuffers=false projectionMappingReady="@
        + bool_text(projection_mapping_ready)
        + " alignedProjection=false projectionMetadataReady="@
        + bool_text(projection_metadata_ready)
        + " poseSource="@
        + pose_source
        + " sourceEyeMapping="@
        + source_eye_mapping
        + " "@
        + homography_marker_fields
        + " leftSourceIndex="@
        + dec_nat(left_source_index as nat)
        + " rightSourceIndex="@
        + dec_nat(right_source_index as nat)
        + " fallbackReason="@
        + fallback_reason
}

/// The fields reported while the two camera streams are being prepared.
pub fn paired_projection_progress_marker_fields(phase: &str, left_prepared: bool, right_prepared: bool, left_updated: bool, right_updated: bool, projection_mapping_ready: bool, projection_metadata_ready: bool, pose_source: &str, source_eye_mapping: &str, homography_marker_fields: &str, left_source_index: usize, right_source_index: usize, fallback_reason: &str) -> (fields: String)
    ensures
        fields@ == paired_projection_progress_marker_fields_spec(phase@, left_prepared, right_prepared, left_updated, right_updated, projection_mapping_ready, projection_metadata_ready, pose_source@, source_eye_mapping@, homography_marker_fields@, left_source_index, right_source_index, fallback_reason@),
{
    let mut out = String::from_str("phase=");
    out.append(phase);
    out.append(" status=progress leftPrepared=");
    push_bool(&mut out, left_prepared);
    out.append(" rightPrepared=");
    push_bool(&mut out, right_prepared);
    out.append(" leftUpdated=");
    push_bool(&mut out, left_updated);
    out.append(" rightUpdated=");
    push_bool(&mut out, right_updated);
    out.append(" pairedLeftRightGpuBuffers=false projectionMappingReady=");
    push_bool(&mut out, projection_mapping_ready);
    out.append(" alignedProjection=false projectionMetadataReady=");
    push_bool(&mut out, projection_metadata_ready);
    out.append(" poseSource=");
    out.append(pose_source);
    out.append(" sourceEyeMapping=");
    out.append(source_eye_mapping);
    out.append(" ");
    out.append(homography_marker_fields);
    out.append(" leftSourceIndex=");
    push_u64(&mut out, left_source_index as u64);
    out.append(" rightSourceIndex=");
    push_u64(&mut out, right_source_index as u64);
    out.append(" fallbackReason=");
    out.append(fallback_reason);
    out
}

/// The projection start fields.
pub open spec fn projection_start_marker_fields_spec(projection_mapping_ready: bool, projection_metadata_ready: bool, pose_source: Seq<char>, source_eye_mapping: Seq<char>, coordinate_chain: Seq<char>, homography_marker_fields: Seq<char>, left_source_index: usize, right_source_index: usize, projection_mode: Seq<char>, projection_scale: Seq<char>, xr_render_scale: Seq<char>, fallback_reason: Seq<char>) -> Seq<char> {
    "phase=start status=started pairedLeftRightGpuBuffers=false projectionMappingReady="@
        + bool_text(projection_mapping_ready)
        + " alignedProjection=false projectionMetadataReady="@
        + bool_text(projection_metadata_ready)
        + " poseSource="@
        + pose_source
        + " sourceEyeMapping="@
        + source_eye_mapping
        + " coordinateChain="@
        + coordinate_chain
        + " "@
        + homography_marker_fields
        + " leftSourceIndex="@
        + dec_nat(left_source_index as nat)
        + " rightSourceIndex="@
        + dec_nat(right_source_index as nat)
        + " projectionMode="@
        + projection_mode
        + " projectionScale="@
        + projection_scale
        + " xrRenderScale="@
        + xr_render_scale
        + " fallbackReason="@
        + fallback_reason
}

/// The fields reported when projection starts; the two scales arrive already formatted with two decimals.
pub fn projection_start_marker_fields(projection_mapping_ready: bool, projection_metadata_ready: bool, pose_source: &str, source_eye_mapping: &str, coordinate_chain: &str, homography_marker_fields: &str, left_source_index: usize, right_source_index: usize, projection_mode: &str, projection_scale: &str, xr_render_scale: &str, fallback_reason: &str) -> (fields: String)
    ensures
        fields@ == projection_start_marker_fields_spec(projection_mapping_ready, projection_metadata_ready, pose_source@, source_eye_mapping@, coordinate_chain@, homography_marker_fields@, left_source_index, right_source_index, projection_mode@, projection_scale@, xr_render_scale@, fallback_reason@),
{
    let mut out = String::from_str("phase=start status=started pairedLeftRightGpuBuffers=false projectionMappingReady=");
    push_bool(&mut out, projection_mapping_ready);
    out.append(" alignedProjection=false projectionMetadataReady=");
    push_bool(&mut out, projection_metadata_ready);
    out.append(" poseSource=");
    out.append(pose_source);
    out.append(" sourceEyeMapping=");
    out.append(source_eye_mapping);
    out.append(" coordinateChain=");
    out.append(coordinate_chain);
    out.append(" ");
    out.append(homography_marker_fields);
    out.append(" leftSourceIndex=");
    push_u64(&mut out, left_source_index as u64);
    out.append(" rightSourceIndex=");
    push_u64(&mut out, right_source_index as u64);
    out.append(" projectionMode=");
    out.append(projection_mode);
    out.append(" projectionScale=");
    out.append(projection_scale);
    out.append(" xrRenderScale=");
    out.append(xr_render_scale);
    out.append(" fallbackReason=");
    out.append(fallback_reason);
    out
}

/// The single-stream waiting fields.
pub open spec fn single_stream_proof_wait_marker_fields_spec(left_updated: bool, right_updated: bool, left_yuv_ready: bool, right_yuv_ready: bool, texture_path: MakepadCameraTexturePath, projection_mapping_ready: bool, visible_projection_ready: bool, updated_stream_visual_proof_side: &str) -> Seq<char> {
    "phase=single-stream-proof status=waiting pairedLeftRightCameraFrames=false singleStreamCameraPixels=true leftUpdated="@
        + bool_text(left_updated)
        + " rightUpdated="@
        + bool_text(right_updated)
        + " leftYuvReady="@
        + bool_text(left_yuv_ready)
        + " rightYuvReady="@
        + bool_text(right_yuv_ready)
        + " projectionMappingReady="@
        + bool_text(projection_mapping_ready)
        + " alignedProjection=false visibleCameraProjectionReady="@
        + bool_text(visible_projection_ready)
        + " sceneOwnedPanel=true projectionShaderPath=makepad-full-frame-source-display-row-vertical-uv textureProbeMode=single-quad-target-screen-uv syntheticLumaSlotProof=false directCameraYuvColorAccepted="@
        + bool_text(texture_path.yuv_sampling_spec())
        + " directCameraYuvColorSwapUv=false colorConversion="@
        + texture_path.color_conversion_spec()
        + " colorReference="@
        + texture_path.color_reference_spec()
        + " perEyeTextureSelection=true activeEyeSelector=xr_view_id sourceEyeSelector=display_source_eye_mapping projectionPanelPlacement=single-quad-fullscreen-target-screen-uv s62VisiblePanelBaseline=true s67bBasePassthroughOffPanel=true s68ActiveEyeNonWorldPanelPlacement=true s69SourceEyeSwap=true s69bHorizontalMirrorFix=false s70SquareAspectFix=true s72HeadCenteredSquareRestored=true s72MetadataUvBaselineCorrection=true s73ScalarHomographyBinding=true s74LiteralHomographyRows=false s75DynamicHomographyBinding=false s76DirectDrawVarsHomography=true s77SourceUvValidityFallback=true s78ClipSpaceSurfaceHomography=true s79TargetSourceEyeMapping=false s80FullViewContentUvScale=false s81DynamicScreenSurfaceUv=false s82CollapsedScreenToCameraHomography=false s83DrawPassProjectionInverseHomography=false s84ProjectionInverseNearFarFallback=false s85ForcedScreenToCameraFallback=false s86DirectYuvFullscreenControl=false s87RuntimeXrViewHomography=true s88SourceValidityFallback=true s89SingleQuadTargetScreenUv=true s90CameraIdSourceBinding=true s91ProjectionMathCorrection=true s91ConfigurableSourceEyeSelector=true s91DisplayIndexedHomographyRows=true s91VerticalOnlyTextureUv=true contentUvScale=1.6000 projectionUvCorrection=runtime-openxr-view-screen-to-camera-homography-configured-source-display-row-vertical-uv displayEyeOffsetMeters=0.032 displayFovSource=makepad_quest_update_runtime_openxr_view displayAspect=1.00 nativePassthroughStaticMarker=deprecated s98NativePassthroughHudSplitStaticMarker=deprecated s109SolidRedProjectionExterior=true s118ProjectedFootprintLiveWindow=true backgroundClearColor=203040 diagnosticUvTransform=see-source-sampling diagnosticUvRotation=0 diagnosticHorizontalMirrorCorrected=requires-visual-review panelTargetDefaults=runtime panelTargetFields=runtime diagnosticVisualLayer=none neutralWaitingPanel=true depthClip=false environmentDepthClip=false drawVarsTextureRedraw=true shaderAreaStateUpdate=true updatedStreamVisualProofSide="@
        + updated_stream_visual_proof_side@
        + " "@
        + texture_path.marker_fields_spec()
        + " visualInspection=required visualReleaseAccepted=false fallbackReason="@
        + single_stream_fallback_reason(texture_path)
}

/// The fields reported while only one camera stream delivers pixels.
pub fn single_stream_proof_wait_marker_fields(left_updated: bool, right_updated: bool, left_yuv_ready: bool, right_yuv_ready: bool, texture_path: MakepadCameraTexturePath, projection_mapping_ready: bool, visible_projection_ready: bool, updated_stream_visual_proof_side: &str) -> (fields: String)
    ensures
        fields@ == single_stream_proof_wait_marker_fields_spec(left_updated, right_updated, left_yuv_ready, right_yuv_ready, texture_path, projection_mapping_ready, visible_projection_ready, updated_stream_visual_proof_side),
{
    let fallback_reason = if texture_path.yuv_sampling_enabled() {
        "waiting_for_second_cpu_yuv_stream"
    } else {
        "waiting_for_second_external_texture_stream"
    };
    let mut out = String::from_str("phase=single-stream-proof status=waiting pairedLeftRightCameraFrames=false singleStreamCameraPixels=true leftUpdated=");
    push_bool(&mut out, left_updated);
    out.append(" rightUpdated=");
    push_bool(&mut out, right_updated);
    out.append(" leftYuvReady=");
    push_bool(&mut out, left_yuv_ready);
    out.append(" rightYuvReady=");
    push_bool(&mut out, right_yuv_ready);
    out.append(" projectionMappingReady=");
    push_bool(&mut out, projection_mapping_ready);
    out.append(" alignedProjection=false visibleCameraProjectionReady=");
    push_bool(&mut out, visible_projection_ready);
    out.append(" sceneOwnedPanel=true projectionShaderPath=makepad-full-frame-source-display-row-vertical-uv textureProbeMode=single-quad-target-screen-uv syntheticLumaSlotProof=false directCameraYuvColorAccepted=");
    push_bool(&mut out, texture_path.yuv_sampling_enabled());
    out.append(" directCameraYuvColorSwapUv=false colorConversion=");
    out.append(texture_path.color_conversion());
    out.append(" colorReference=");
    out.append(texture_path.color_reference());
    out.append(" perEyeTextureSelection=true activeEyeSelector=xr_view_id sourceEyeSelector=display_source_eye_mapping projectionPanelPlacement=single-quad-fullscreen-target-screen-uv s62VisiblePanelBaseline=true s67bBasePassthroughOffPanel=true s68ActiveEyeNonWorldPanelPlacement=true s69SourceEyeSwap=true s69bHorizontalMirrorFix=false s70SquareAspectFix=true s72HeadCenteredSquareRestored=true s72MetadataUvBaselineCorrection=true s73ScalarHomographyBinding=true s74LiteralHomographyRows=false s75DynamicHomographyBinding=false s76DirectDrawVarsHomography=true s77SourceUvValidityFallback=true s78ClipSpaceSurfaceHomography=true s79TargetSourceEyeMapping=false s80FullViewContentUvScale=false s81DynamicScreenSurfaceUv=false s82CollapsedScreenToCameraHomography=false s83DrawPassProjectionInverseHomography=false s84ProjectionInverseNearFarFallback=false s85ForcedScreenToCameraFallback=false s86DirectYuvFullscreenControl=false s87RuntimeXrViewHomography=true s88SourceValidityFallback=true s89SingleQuadTargetScreenUv=true s90CameraIdSourceBinding=true s91ProjectionMathCorrection=true s91ConfigurableSourceEyeSelector=true s91DisplayIndexedHomographyRows=true s91VerticalOnlyTextureUv=true contentUvScale=1.6000 projectionUvCorrection=runtime-openxr-view-screen-to-camera-homography-configured-source-display-row-vertical-uv displayEyeOffsetMeters=0.032 displayFovSource=makepad_quest_update_runtime_openxr_view displayAspect=1.00 nativePassthroughStaticMarker=deprecated s98NativePassthroughHudSplitStaticMarker=deprecated s109SolidRedProjectionExterior=true s118ProjectedFootprintLiveWindow=true backgroundClearColor=203040 diagnosticUvTransform=see-source-sampling diagnosticUvRotation=0 diagnosticHorizontalMirrorCorrected=requires-visual-review panelTargetDefaults=runtime panelTargetFields=runtime diagnosticVisualLayer=none neutralWaitingPanel=true depthClip=false environmentDepthClip=false drawVarsTextureRedraw=true shaderAreaStateUpdate=true updatedStreamVisualProofSide=");
    out.append(updated_stream_visual_proof_side);
    out.append(" ");
    let tp_fields = texture_path.marker_fields();
    out.append(tp_fields.as_str());
    out.append(" visualInspection=required visualReleaseAccepted=false fallbackReason=");
    out.append(fallback_reason);
    out
}

/// The draw-variables-bound fields.
pub open spec fn draw_vars_bound_marker_fields_spec(texture_path: MakepadCameraTexturePath, broker_h264_surface_texture: bool, single_stream_visual_proof: bool, updated_stream_visual_proof_side: Seq<char>, camera_texture_binding_enabled: bool, projection_panel_draw_enabled: bool, homography_marker_fields: Seq<char>) -> Seq<char> {
    let yuv_mode = camera_texture_binding_enabled && texture_path.yuv_sampling_spec();
    "phase=draw-vars-bound status=ok cameraReady=true yuvMode="@
        + bool_text(yuv_mode)
        + " neutralWaitingPanel=true textureProbeMode=single-quad-target-screen-uv syntheticLumaSlotProof=false directCameraYuvColorAccepted="@
        + bool_text(yuv_mode)
        + " directCameraYuvColorSwapUv=false colorConversion="@
        + texture_path.color_conversion_spec()
        + " colorReference="@
        + texture_path.color_reference_spec()
        + " perEyeTextureSelection=true activeEyeSelector=xr_view_id sourceEyeSelector=display_source_eye_mapping cameraTextureBinding="@
        + bool_text(camera_texture_binding_enabled)
        + " projectionPanelDrawEnabled="@
        + bool_text(projection_panel_draw_enabled)
        + " "@
        + texture_path.marker_fields_spec()
        + " drawVarsTextureRedraw=true shaderAreaStateUpdate=true leftYuvTextureBound="@
        + bool_text(yuv_mode)
        + " rightYuvTextureBound="@
        + bool_text(yuv_mode)
        + " brokerH264SurfaceTexture="@
        + bool_text(broker_h264_surface_texture)
        + " singleStreamVisualProof="@
        + bool_text(single_stream_visual_proof)
        + " updatedStreamVisualProofSide="@
        + updated_stream_visual_proof_side
        + " visibleCameraProjectionReady=true sceneOwnedPanel=true projectionShaderPath=makepad-full-frame-source-display-row-vertical-uv projectionPanelPlacement=single-quad-fullscreen-target-screen-uv s62VisiblePanelBaseline=true s67bBasePassthroughOffPanel=true s68ActiveEyeNonWorldPanelPlacement=true s69SourceEyeSwap=true s69bHorizontalMirrorFix=false s70SquareAspectFix=true s72HeadCenteredSquareRestored=true s72MetadataUvBaselineCorrection=true s73ScalarHomographyBinding=true s74LiteralHomographyRows=false s75DynamicHomographyBinding=false s76DirectDrawVarsHomography=true s77SourceUvValidityFallback=true s78ClipSpaceSurfaceHomography=true s79TargetSourceEyeMapping=false s80FullViewContentUvScale=false s81DynamicScreenSurfaceUv=false s82CollapsedScreenToCameraHomography=false s83DrawPassProjectionInverseHomography=false s84ProjectionInverseNearFarFallback=false s85ForcedScreenToCameraFallback=false s86DirectYuvFullscreenControl=false s87RuntimeXrViewHomography=true s88SourceValidityFallback=true s89SingleQuadTargetScreenUv=true s90CameraIdSourceBinding=true s91ProjectionMathCorrection=true s91ConfigurableSourceEyeSelector=true s91DisplayIndexedHomographyRows=true s91VerticalOnlyTextureUv=true contentUvScale=1.6000 projectionUvCorrection=runtime-openxr-view-screen-to-camera-homography-configured-source-display-row-vertical-uv displayEyeOffsetMeters=0.032 displayFovSource=makepad_quest_update_runtime_openxr_view displayAspect=1.00 "@
        + homography_marker_fields
        + " nativePassthroughStaticMarker=deprecated s98NativePassthroughHudSplitStaticMarker=deprecated s109SolidRedProjectionExterior=true s118ProjectedFootprintLiveWindow=true backgroundClearColor=203040 diagnosticUvTransform=see-source-sampling diagnosticUvRotation=0 diagnosticHorizontalMirrorCorrected=requires-visual-review panelTargetDefaults=runtime panelTargetFields=runtime "@
        + texture_path.marker_fields_spec()
        + " diagnosticVisualLayer=none depthClip=false environmentDepthClip=false visualInspection=required visualReleaseAccepted=false"@
}

/// The fields reported when the panel draw variables are bound; YUV mode is on when the camera textures are bound and the path samples YUV planes.
pub fn draw_vars_bound_marker_fields(texture_path: MakepadCameraTexturePath, broker_h264_surface_texture: bool, single_stream_visual_proof: bool, updated_stream_visual_proof_side: &str, camera_texture_binding_enabled: bool, projection_panel_draw_enabled: bool, homography_marker_fields: &str) -> (fields: String)
    ensures
        fields@ == draw_vars_bound_marker_fields_spec(texture_path, broker_h264_surface_texture, single_stream_visual_proof, updated_stream_visual_proof_side@, camera_texture_binding_enabled, projection_panel_draw_enabled, homography_marker_fields@),
{
    let yuv_mode = camera_texture_binding_enabled && texture_path.yuv_sampling_enabled();
    let mut out = String::from_str("phase=draw-vars-bound status=ok cameraReady=true yuvMode=");
    push_bool(&mut out, yuv_mode);
    out.append(" neutralWaitingPanel=true textureProbeMode=single-quad-target-screen-uv syntheticLumaSlotProof=false directCameraYuvColorAccepted=");
    push_bool(&mut out, yuv_mode);
    out.append(" directCameraYuvColorSwapUv=false colorConversion=");
    out.append(texture_path.color_conversion());
    out.append(" colorReference=");
    out.append(texture_path.color_reference());
    out.append(" perEyeTextureSelection=true activeEyeSelector=xr_view_id sourceEyeSelector=display_source_eye_mapping cameraTextureBinding=");
    push_bool(&mut out, camera_texture_binding_enabled);
    out.append(" projectionPanelDrawEnabled=");
    push_bool(&mut out, projection_panel_draw_enabled);
    out.append(" ");
    let tp_fields = texture_path.marker_fields();
    out.append(tp_fields.as_str());
    out.append(" drawVarsTextureRedraw=true shaderAreaStateUpdate=true leftYuvTextureBound=");
    push_bool(&mut out, yuv_mode);
    out.append(" rightYuvTextureBound=");
    push_bool(&mut out, yuv_mode);
    out.append(" brokerH264SurfaceTexture=");
    push_bool(&mut out, broker_h264_surface_texture);
    out.append(" singleStreamVisualProof=");
    push_bool(&mut out, single_stream_visual_proof);
    out.append(" updatedStreamVisualProofSide=");
    out.append(updated_stream_visual_proof_side);
    out.append(" visibleCameraProjectionReady=true sceneOwnedPanel=true projectionShaderPath=makepad-full-frame-source-display-row-vertical-uv projectionPanelPlacement=single-quad-fullscreen-target-screen-uv s62VisiblePanelBaseline=true s67bBasePassthroughOffPanel=true s68ActiveEyeNonWorldPanelPlacement=true s69SourceEyeSwap=true s69bHorizontalMirrorFix=false s70SquareAspectFix=true s72HeadCenteredSquareRestored=true s72MetadataUvBaselineCorrection=true s73ScalarHomographyBinding=true s74LiteralHomographyRows=false s75DynamicHomographyBinding=false s76DirectDrawVarsHomography=true s77SourceUvValidityFallback=true s78ClipSpaceSurfaceHomography=true s79TargetSourceEyeMapping=false s80FullViewContentUvScale=false s81DynamicScreenSurfaceUv=false s82CollapsedScreenToCameraHomography=false s83DrawPassProjectionInverseHomography=false s84ProjectionInverseNearFarFallback=false s85ForcedScreenToCameraFallback=false s86DirectYuvFullscreenControl=false s87RuntimeXrViewHomography=true s88SourceValidityFallback=true s89SingleQuadTargetScreenUv=true s90CameraIdSourceBinding=true s91ProjectionMathCorrection=true s91ConfigurableSourceEyeSelector=true s91DisplayIndexedHomographyRows=true s91VerticalOnlyTextureUv=true contentUvScale=1.6000 projectionUvCorrection=runtime-openxr-view-screen-to-camera-homography-configured-source-display-row-vertical-uv displayEyeOffsetMeters=0.032 displayFovSource=makepad_quest_update_runtime_openxr_view displayAspect=1.00 ");
    out.append(homography_marker_fields);
    out.append(" nativePassthroughStaticMarker=deprecated s98NativePassthroughHudSplitStaticMarker=deprecated s109SolidRedProjectionExterior=true s118ProjectedFootprintLiveWindow=true backgroundClearColor=203040 diagnosticUvTransform=see-source-sampling diagnosticUvRotation=0 diagnosticHorizontalMirrorCorrected=requires-visual-review panelTargetDefaults=runtime panelTargetFields=runtime ");
    let tp_fields = texture_path.marker_fields();
    out.append(tp_fields.as_str());
    out.append(" diagnosticVisualLayer=none depthClip=false environmentDepthClip=false visualInspection=required visualReleaseAccepted=false");
    out
}

/// The completion fields.
pub open spec fn complete_marker_fields_spec(fields: CompleteMarkerFields) -> Seq<char> {
    "phase=complete status=ok pairedLeftRightCameraFrames="@
        + bool_text(fields.paired_streams_ready)
        + " brokerH264SurfaceTexture="@
        + bool_text(fields.broker_h264_surface_texture)
        + " projectionMappingReady="@
        + bool_text(fields.projection_mapping_ready)
        + " alignedProjection="@
        + bool_text(fields.aligned_projection)
        + " visibleCameraProjectionReady="@
        + bool_text(fields.visible_projection_ready)
        + " projectionMetadataReady="@
        + bool_text(fields.projection_metadata_ready)
        + " poseSource="@
        + fields.pose_source@
        + " sourceEyeMapping="@
        + fields.source_eye_mapping@
        + " coordinateChain="@
        + fields.coordinate_chain@
        + " projectionMode="@
        + fields.projection_mode@
        + " leftEyeSource=makepad-camera-source-"@
        + dec_nat(fields.left_source_index as nat)
        + " rightEyeSource=makepad-camera-source-"@
        + dec_nat(fields.right_source_index as nat)
        + " leftSourceClass="@
        + fields.left_source_class@
        + " rightSourceClass="@
        + fields.right_source_class@
        + " leftWidth="@
        + dec_nat(fields.left_width as nat)
        + " leftHeight="@
        + dec_nat(fields.left_height as nat)
        + " rightWidth="@
        + dec_nat(fields.right_width as nat)
        + " rightHeight="@
        + dec_nat(fields.right_height as nat)
        + " leftRotationSteps="@
        + fields.left_rotation_steps@
        + " rightRotationSteps="@
        + fields.right_rotation_steps@
        + " projectionScale="@
        + fields.projection_scale@
        + " xrRenderScale="@
        + fields.xr_render_scale@
        + " renderPath=makepad-quest projectionShaderPath=makepad-full-frame-source-display-row-vertical-uv textureProbeMode=single-quad-target-screen-uv syntheticLumaSlotProof=false directCameraYuvColorAccepted="@
        + bool_text(fields.texture_path.yuv_sampling_spec())
        + " directCameraYuvColorSwapUv=false colorConversion="@
        + fields.texture_path.color_conversion_spec()
        + " colorReference="@
        + fields.texture_path.color_reference_spec()
        + " perEyeTextureSelection=true activeEyeSelector=xr_view_id sourceEyeSelector=display_source_eye_mapping projectionPanelPlacement=single-quad-fullscreen-target-screen-uv s62VisiblePanelBaseline=true s67bBasePassthroughOffPanel=true s68ActiveEyeNonWorldPanelPlacement=true s69SourceEyeSwap=true s69bHorizontalMirrorFix=false s70SquareAspectFix=true s72HeadCenteredSquareRestored=true s72MetadataUvBaselineCorrection=true s73ScalarHomographyBinding=true s74LiteralHomographyRows=false s75DynamicHomographyBinding=false s76DirectDrawVarsHomography=true s77SourceUvValidityFallback=true s78ClipSpaceSurfaceHomography=true s79TargetSourceEyeMapping=false s80FullViewContentUvScale=false s81DynamicScreenSurfaceUv=false s82CollapsedScreenToCameraHomography=false s83DrawPassProjectionInverseHomography=false s84ProjectionInverseNearFarFallback=false s85ForcedScreenToCameraFallback=false s86DirectYuvFullscreenControl=false s87RuntimeXrViewHomography=true s88SourceValidityFallback=true s89SingleQuadTargetScreenUv=true s90CameraIdSourceBinding=true s91ProjectionMathCorrection=true s91ConfigurableSourceEyeSelector=true s91DisplayIndexedHomographyRows=true s91VerticalOnlyTextureUv=true contentUvScale=1.6000 projectionUvCorrection=runtime-openxr-view-screen-to-camera-homography-configured-source-display-row-vertical-uv displayEyeOffsetMeters=0.032 displayFovSource=makepad_quest_update_runtime_openxr_view displayAspect=1.00 "@
        + fields.homography_marker_fields@
        + " nativePassthroughStaticMarker=deprecated s98NativePassthroughHudSplitStaticMarker=deprecated s109SolidRedProjectionExterior=true s118ProjectedFootprintLiveWindow=true backgroundClearColor=203040 diagnosticUvTransform=see-source-sampling diagnosticUvRotation=0 diagnosticHorizontalMirrorCorrected=requires-visual-review panelTargetDefaults=runtime panelTargetFields=runtime "@
        + fields.texture_path.marker_fields_spec()
        + " diagnosticVisualLayer=none neutralWaitingPanel=true visualIsolation=s118_projected_footprint_solid_red_exterior depthClip=false environmentDepthClip=false drawVarsTextureRedraw=true shaderAreaStateUpdate=true visualInspection=required visualReleaseAccepted=false fallbackReason="@
        + fields.fallback_reason@
}

/// The fields reported when the paired projection is complete.
pub fn complete_marker_fields(fields: CompleteMarkerFields) -> (text: String)
    ensures
        text@ == complete_marker_fields_spec(fields),
{
    let mut out = String::from_str("phase=complete status=ok pairedLeftRightCameraFrames=");
    push_bool(&mut out, fields.paired_streams_ready);
    out.append(" brokerH264SurfaceTexture=");
    push_bool(&mut out, fields.broker_h264_surface_texture);
    out.append(" projectionMappingReady=");
    push_bool(&mut out, fields.projection_mapping_ready);
    out.append(" alignedProjection=");
    push_bool(&mut out, fields.aligned_projection);
    out.append(" visibleCameraProjectionReady=");
    push_bool(&mut out, fields.visible_projection_ready);
    out.append(" projectionMetadataReady=");
    push_bool(&mut out, fields.projection_metadata_ready);
    out.append(" poseSource=");
    out.append(fields.pose_source);
    out.append(" sourceEyeMapping=");
    out.append(fields.source_eye_mapping);
    out.append(" coordinateChain=");
    out.append(fields.coordinate_chain);
    out.append(" projectionMode=");
    out.append(fields.projection_mode);
    out.append(" leftEyeSource=makepad-camera-source-");
    push_u64(&mut out, fields.left_source_index as u64);
    out.append(" rightEyeSource=makepad-camera-source-");
    push_u64(&mut out, fields.right_source_index as u64);
    out.append(" leftSourceClass=");
    out.append(fields.left_source_class);
    out.append(" rightSourceClass=");
    out.append(fields.right_source_class);
    out.append(" leftWidth=");
    push_u64(&mut out, fields.left_width as u64);
    out.append(" leftHeight=");
    push_u64(&mut out, fields.left_height as u64);
    out.append(" rightWidth=");
    push_u64(&mut out, fields.right_width as u64);
    out.append(" rightHeight=");
    push_u64(&mut out, fields.right_height as u64);
    out.append(" leftRotationSteps=");
    out.append(fields.left_rotation_steps);
    out.append(" rightRotationSteps=");
    out.append(fields.right_rotation_steps);
    out.append(" projectionScale=");
    out.append(fields.projection_scale);
    out.append(" xrRenderScale=");
    out.append(fields.xr_render_scale);
    out.append(" renderPath=makepad-quest projectionShaderPath=makepad-full-frame-source-display-row-vertical-uv textureProbeMode=single-quad-target-screen-uv syntheticLumaSlotProof=false directCameraYuvColorAccepted=");
    push_bool(&mut out, fields.texture_path.yuv_sampling_enabled());
    out.append(" directCameraYuvColorSwapUv=false colorConversion=");
    out.append(fields.texture_path.color_conversion());
    out.append(" colorReference=");
    out.append(fields.texture_path.color_reference());
    out.append(" perEyeTextureSelection=true activeEyeSelector=xr_view_id sourceEyeSelector=display_source_eye_mapping projectionPanelPlacement=single-quad-fullscreen-target-screen-uv s62VisiblePanelBaseline=true s67bBasePassthroughOffPanel=true s68ActiveEyeNonWorldPanelPlacement=true s69SourceEyeSwap=true s69bHorizontalMirrorFix=false s70SquareAspectFix=true s72HeadCenteredSquareRestored=true s72MetadataUvBaselineCorrection=true s73ScalarHomographyBinding=true s74LiteralHomographyRows=false s75DynamicHomographyBinding=false s76DirectDrawVarsHomography=true s77SourceUvValidityFallback=true s78ClipSpaceSurfaceHomography=true s79TargetSourceEyeMapping=false s80FullViewContentUvScale=false s81DynamicScreenSurfaceUv=false s82CollapsedScreenToCameraHomography=false s83DrawPassProjectionInverseHomography=false s84ProjectionInverseNearFarFallback=false s85ForcedScreenToCameraFallback=false s86DirectYuvFullscreenControl=false s87RuntimeXrViewHomography=true s88SourceValidityFallback=true s89SingleQuadTargetScreenUv=true s90CameraIdSourceBinding=true s91ProjectionMathCorrection=true s91ConfigurableSourceEyeSelector=true s91DisplayIndexedHomographyRows=true s91VerticalOnlyTextureUv=true contentUvScale=1.6000 projectionUvCorrection=runtime-openxr-view-screen-to-camera-homography-configured-source-display-row-vertical-uv displayEyeOffsetMeters=0.032 displayFovSource=makepad_quest_update_runtime_openxr_view displayAspect=1.00 ");
    out.append(fields.homography_marker_fields);
    out.append(" nativePassthroughStaticMarker=deprecated s98NativePassthroughHudSplitStaticMarker=deprecated s109SolidRedProjectionExterior=true s118ProjectedFootprintLiveWindow=true backgroundClearColor=203040 diagnosticUvTransform=see-source-sampling diagnosticUvRotation=0 diagnosticHorizontalMirrorCorrected=requires-visual-review panelTargetDefaults=runtime panelTargetFields=runtime ");
    let tp_fields = fields.texture_path.marker_fields();
    out.append(tp_fields.as_str());
    out.append(" diagnosticVisualLayer=none neutralWaitingPanel=true visualIsolation=s118_projected_footprint_solid_red_exterior depthClip=false environmentDepthClip=false drawVarsTextureRedraw=true shaderAreaStateUpdate=true visualInspection=required visualReleaseAccepted=false fallbackReason=");
    out.append(fields.fallback_reason);
    out
}

/// The stereo comparison line.
pub open spec fn stereo_comparison_marker_line_fields_spec(pair: StereoComparisonPairFields, inputs: MakepadStereoComparisonMarkerInputs, homography_marker_fields: &str) -> Seq<char> {
    "RUSTY_QUEST_MAKEPAD_STEREO_COMPARISON schema=rusty.quest.makepad-stereo-comparison.v1 phase="@
        + inputs.phase@
        + " profile="@
        + inputs.runtime_profile@
        + " comparisonBaseline="@
        + inputs.comparison_baseline@
        + " cameraTier="@
        + inputs.camera_tier@
        + " acquisition="@
        + inputs.acquisition_profile@
        + " transport="@
        + inputs.transport_profile@
        + " projectionMode="@
        + inputs.projection_mode@
        + " syntheticScene="@
        + inputs.synthetic_scene@
        + " leftEyeSource=makepad-camera-source-"@
        + dec_nat(pair.left_source_index as nat)
        + " rightEyeSource=makepad-camera-source-"@
        + dec_nat(pair.right_source_index as nat)
        + " sourceEyeMapping="@
        + pair.source_eye_mapping@
        + " projectionScale="@
        + inputs.projection_scale@
        + " xrRenderScale="@
        + inputs.xr_render_scale@
        + " pairedLeftRightCameraFrames=true alignedProjection="@
        + bool_text(inputs.aligned_projection)
        + " visibleCameraProjectionReady="@
        + bool_text(inputs.visible_projection_ready)
        + " renderPath=makepad-quest projectionShaderPath=makepad-full-frame-source-display-row-vertical-uv textureProbeMode=single-quad-target-screen-uv syntheticLumaSlotProof=false directCameraYuvColorAccepted="@
        + bool_text(inputs.texture_path.yuv_sampling_spec())
        + " directCameraYuvColorSwapUv=false colorConversion="@
        + inputs.texture_path.color_conversion_spec()
        + " colorReference="@
        + inputs.texture_path.color_reference_spec()
        + " perEyeTextureSelection=true activeEyeSelector=xr_view_id sourceEyeSelector=display_source_eye_mapping projectionPanelPlacement=single-quad-fullscreen-target-screen-uv s62VisiblePanelBaseline=true s67bBasePassthroughOffPanel=true s68ActiveEyeNonWorldPanelPlacement=true s69SourceEyeSwap=true s69bHorizontalMirrorFix=false s70SquareAspectFix=true s72HeadCenteredSquareRestored=true s72MetadataUvBaselineCorrection=true s73ScalarHomographyBinding=true s74LiteralHomographyRows=false s75DynamicHomographyBinding=false s76DirectDrawVarsHomography=true s77SourceUvValidityFallback=true s78ClipSpaceSurfaceHomography=true s79TargetSourceEyeMapping=false s80FullViewContentUvScale=false s81DynamicScreenSurfaceUv=false s82CollapsedScreenToCameraHomography=false s83DrawPassProjectionInverseHomography=false s84ProjectionInverseNearFarFallback=false s85ForcedScreenToCameraFallback=false s86DirectYuvFullscreenControl=false s87RuntimeXrViewHomography=true s88SourceValidityFallback=true s89SingleQuadTargetScreenUv=true s90CameraIdSourceBinding=true s91ProjectionMathCorrection=true s91ConfigurableSourceEyeSelector=true s91DisplayIndexedHomographyRows=true s91VerticalOnlyTextureUv=true contentUvScale=1.6000 projectionUvCorrection=runtime-openxr-view-screen-to-camera-homography-configured-source-display-row-vertical-uv displayEyeOffsetMeters=0.032 displayFovSource=makepad_quest_update_runtime_openxr_view displayAspect=1.00 "@
        + homography_marker_fields@
        + " makepadForkBranch="@
        + inputs.makepad_fork_branch@
        + " makepadForkCommit="@
        + inputs.makepad_fork_commit@
        + " nativePassthroughStaticMarker=deprecated s98NativePassthroughHudSplitStaticMarker=deprecated s109SolidRedProjectionExterior=true s118ProjectedFootprintLiveWindow=true backgroundClearColor=203040 diagnosticUvTransform=see-source-sampling diagnosticUvRotation=0 diagnosticHorizontalMirrorCorrected=requires-visual-review panelTargetDefaults=runtime panelTargetFields=runtime diagnosticVisualLayer=none neutralWaitingPanel=true visualIsolation=s118_projected_footprint_solid_red_exterior depthClip=false environmentDepthClip=false "@
        + inputs.texture_path.marker_fields_spec()
        + " drawVarsTextureRedraw=true shaderAreaStateUpdate=true visualInspection=required visualReleaseAccepted=false"@
}

/// The stereo comparison marker line for a bound camera pair.
pub fn stereo_comparison_marker_line_fields(pair: StereoComparisonPairFields, inputs: &MakepadStereoComparisonMarkerInputs, homography_marker_fields: &str) -> (line: String)
    ensures
        line@ == stereo_comparison_marker_line_fields_spec(pair, *inputs, homography_marker_fields),
{
    let mut out = String::from_str("RUSTY_QUEST_MAKEPAD_STEREO_COMPARISON schema=rusty.quest.makepad-stereo-comparison.v1 phase=");
    out.append(inputs.phase);
    out.append(" profile=");
    out.append(inputs.runtime_profile);
    out.append(" comparisonBaseline=");
    out.append(inputs.comparison_baseline);
    out.append(" cameraTier=");
    out.append(inputs.camera_tier);
    out.append(" acquisition=");
    out.append(inputs.acquisition_profile);
    out.append(" transport=");
    out.append(inputs.transport_profile);
    out.append(" projectionMode=");
    out.append(inputs.projection_mode);
    out.append(" syntheticScene=");
    out.append(inputs.synthetic_scene);
    out.append(" leftEyeSource=makepad-camera-source-");
    push_u64(&mut out, pair.left_source_index as u64);
    out.append(" rightEyeSource=makepad-camera-source-");
    push_u64(&mut out, pair.right_source_index as u64);
    out.append(" sourceEyeMapping=");
    out.append(pair.source_eye_mapping);
    out.append(" projectionScale=");
    out.append(inputs.projection_scale);
    out.append(" xrRenderScale=");
    out.append(inputs.xr_render_scale);
    out.append(" pairedLeftRightCameraFrames=true alignedProjection=");
    push_bool(&mut out, inputs.aligned_projection);
    out.append(" visibleCameraProjectionReady=");
    push_bool(&mut out, inputs.visible_projection_ready);
    out.append(" renderPath=makepad-quest projectionShaderPath=makepad-full-frame-source-display-row-vertical-uv textureProbeMode=single-quad-target-screen-uv syntheticLumaSlotProof=false directCameraYuvColorAccepted=");
    push_bool(&mut out, inputs.texture_path.yuv_sampling_enabled());
    out.append(" directCameraYuvColorSwapUv=false colorConversion=");
    out.append(inputs.texture_path.color_conversion());
    out.append(" colorReference=");
    out.append(inputs.texture_path.color_reference());
    out.append(" perEyeTextureSelection=true activeEyeSelector=xr_view_id sourceEyeSelector=display_source_eye_mapping projectionPanelPlacement=single-quad-fullscreen-target-screen-uv s62VisiblePanelBaseline=true s67bBasePassthroughOffPanel=true s68ActiveEyeNonWorldPanelPlacement=true s69SourceEyeSwap=true s69bHorizontalMirrorFix=false s70SquareAspectFix=true s72HeadCenteredSquareRestored=true s72MetadataUvBaselineCorrection=true s73ScalarHomographyBinding=true s74LiteralHomographyRows=false s75DynamicHomographyBinding=false s76DirectDrawVarsHomography=true s77SourceUvValidityFallback=true s78ClipSpaceSurfaceHomography=true s79TargetSourceEyeMapping=false s80FullViewContentUvScale=false s81DynamicScreenSurfaceUv=false s82CollapsedScreenToCameraHomography=false s83DrawPassProjectionInverseHomography=false s84ProjectionInverseNearFarFallback=false s85ForcedScreenToCameraFallback=false s86DirectYuvFullscreenControl=false s87RuntimeXrViewHomography=true s88SourceValidityFallback=true s89SingleQuadTargetScreenUv=true s90CameraIdSourceBinding=true s91ProjectionMathCorrection=true s91ConfigurableSourceEyeSelector=true s91DisplayIndexedHomographyRows=true s91VerticalOnlyTextureUv=true contentUvScale=1.6000 projectionUvCorrection=runtime-openxr-view-screen-to-camera-homography-configured-source-display-row-vertical-uv displayEyeOffsetMeters=0.032 displayFovSource=makepad_quest_update_runtime_openxr_view displayAspect=1.00 ");
    out.append(homography_marker_fields);
    out.append(" makepadForkBranch=");
    out.append(inputs.makepad_fork_branch);
    out.append(" makepadForkCommit=");
    out.append(inputs.makepad_fork_commit);
    out.append(" nativePassthroughStaticMarker=deprecated s98NativePassthroughHudSplitStaticMarker=deprecated s109SolidRedProjectionExterior=true s118ProjectedFootprintLiveWindow=true backgroundClearColor=203040 diagnosticUvTransform=see-source-sampling diagnosticUvRotation=0 diagnosticHorizontalMirrorCorrected=requires-visual-review panelTargetDefaults=runtime panelTargetFields=runtime diagnosticVisualLayer=none neutralWaitingPanel=true visualIsolation=s118_projected_footprint_solid_red_exterior depthClip=false environmentDepthClip=false ");
    let tp_fields = inputs.texture_path.marker_fields();
    out.append(tp_fields.as_str());
    out.append(" drawVarsTextureRedraw=true shaderAreaStateUpdate=true visualInspection=required visualReleaseAccepted=false");
    out
}

} // verus!
