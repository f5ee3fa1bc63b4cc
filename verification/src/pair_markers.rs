//! Marker fields that report a bound camera pair. Homographies, OpenXR
//! contract values and footprints are measured in floating point and arrive
//! already formatted.
use vstd::prelude::*;
use crate::camera_pairing::MakepadCameraPair;
use crate::projection_markers::{
    draw_vars_bound_marker_fields, draw_vars_bound_marker_fields_spec,
    native_video_widget_surface_marker_fields, native_video_widget_surface_marker_fields_spec,
    paired_projection_progress_marker_fields, paired_projection_progress_marker_fields_spec,
    projection_enumerated_marker_fields, projection_enumerated_marker_fields_spec,
    projection_start_marker_fields, projection_start_marker_fields_spec,
};
use crate::text::{bool_text, dec_nat, marker_token, marker_token_spec, push_bool, push_u64};
use crate::texture_path::MakepadCameraTexturePath;

verus! {

/// The formatted floating-point parts of a pair's homography fields.
pub struct ProjectionHomographyTexts {
    pub openxr_contract_fields: String,
    pub left_surface_to_camera: String,
    pub right_surface_to_camera: String,
    pub left_surface_to_screen: String,
    pub right_surface_to_screen: String,
    pub left_screen_to_camera: String,
    pub right_screen_to_camera: String,
    pub left_screen_to_surface: String,
    pub right_screen_to_surface: String,
    pub source_valid_footprint_fields: String,
    pub projection_target_fields: String,
    pub target_footprint_fields: String,
}

/// The marker token of an optional camera id, `unknown` when absent.
pub open spec fn camera_id_token(id: Option<String>) -> Seq<char> {
    match id {
        Some(v) => marker_token_spec(v@),
        None => "unknown"@,
    }
}

fn push_camera_id_token(out: &mut String, id: &Option<String>)
    ensures
        final(out)@ == old(out)@ + camera_id_token(*id),
{
    match id {
        Some(v) => {
            let token = marker_token(v.as_str());
            out.append(token.as_str());
        },
        None => {
            out.append("unknown");
            proof {
                reveal_strlit("unknown");
            }
        },
    }
}

/// The readiness, binding and profile part of the homography fields.
pub open spec fn homography_state_spec<I, M, C>(pair: MakepadCameraPair<I, M, C>) -> Seq<char> {
    let profile = marker_token_spec(pair.projection_geometry_profile@);
    "projectionHomographyReady="@ + bool_text(pair.projection_homography_ready)
        + " runtimeXrViewStateReady="@ + bool_text(pair.runtime_xr_view_state_ready)
        + " sourceBindingMode="@ + pair.source_binding_mode@ + " projectionGeometryProfile="@
        + profile + " geometry_profile="@ + profile
}

/// The camera id part of the homography fields.
pub open spec fn homography_ids_spec<I, M, C>(pair: MakepadCameraPair<I, M, C>) -> Seq<char> {
    let left_id = camera_id_token(pair.left.camera_id);
    let right_id = camera_id_token(pair.right.camera_id);
    " displayLeftCameraId="@ + left_id + " displayRightCameraId="@ + right_id
        + " makepadLeftCameraId="@ + left_id + " makepadRightCameraId="@ + right_id
}

/// The raster and upload part of the homography fields.
pub open spec fn homography_upload_spec<I, M, C>(pair: MakepadCameraPair<I, M, C>) -> Seq<char> {
    " sourceRasterOriginPolicy=explicit-broker-raster-or-camera2-import sourceRasterUvCorrectionStage=projection-plan-for-broker-top-left-raster projectionAreaTransformStage=pre_homography_screen_uv projectionAreaWarpParity=diagnostic_only contentUvRect=0,0,1,1 cpuUploadRect=0,0,"@
        + dec_nat(pair.left.width as nat) + ","@ + dec_nat(pair.left.height as nat)
        + " cpuUploadStride=not-exposed "@
}

/// The identity part of the homography fields: readiness, binding, profile,
/// camera ids and the upload rectangle.
pub open spec fn homography_head_spec<I, M, C>(pair: MakepadCameraPair<I, M, C>) -> Seq<char> {
    homography_state_spec(pair) + homography_ids_spec(pair) + homography_upload_spec(pair)
}

/// The measured part of the homography fields.
pub open spec fn homography_tail_spec(t: ProjectionHomographyTexts) -> Seq<char> {
    t.openxr_contract_fields@ + " leftSurfaceToCameraH="@ + t.left_surface_to_camera@
        + " rightSurfaceToCameraH="@ + t.right_surface_to_camera@ + " leftSurfaceToScreenH="@
        + t.left_surface_to_screen@ + " rightSurfaceToScreenH="@ + t.right_surface_to_screen@
        + " leftScreenToCameraH="@ + t.left_screen_to_camera@ + " rightScreenToCameraH="@
        + t.right_screen_to_camera@ + " leftScreenToSurfaceH="@ + t.left_screen_to_surface@
        + " rightScreenToSurfaceH="@ + t.right_screen_to_surface@ + " "@
        + t.source_valid_footprint_fields@ + " "@ + t.projection_target_fields@ + " "@
        + t.target_footprint_fields@
}

/// The homography fields of a pair.
pub open spec fn projection_homography_marker_fields_spec<I, M, C>(
    pair: MakepadCameraPair<I, M, C>,
    texts: ProjectionHomographyTexts,
) -> Seq<char> {
    homography_head_spec(pair) + homography_tail_spec(texts)
}

fn push_homography_state<I, M, C>(out: &mut String, pair: &MakepadCameraPair<I, M, C>)
    ensures
        final(out)@ == old(out)@ + homography_state_spec(*pair),
{
    let profile = marker_token(pair.projection_geometry_profile.as_str());
    let ghost start = out@;
    out.append("projectionHomographyReady=");
    push_bool(out, pair.projection_homography_ready);
    out.append(" runtimeXrViewStateReady=");
    push_bool(out, pair.runtime_xr_view_state_ready);
    out.append(" sourceBindingMode=");
    out.append(pair.source_binding_mode.as_str());
    out.append(" projectionGeometryProfile=");
    out.append(profile.as_str());
    out.append(" geometry_profile=");
    out.append(profile.as_str());
    proof {
        assert(out@ =~= start + homography_state_spec(*pair));
    }
}

fn push_homography_ids<I, M, C>(out: &mut String, pair: &MakepadCameraPair<I, M, C>)
    ensures
        final(out)@ == old(out)@ + homography_ids_spec(*pair),
{
    let ghost start = out@;
    out.append(" displayLeftCameraId=");
    push_camera_id_token(out, &pair.left.camera_id);
    out.append(" displayRightCameraId=");
    push_camera_id_token(out, &pair.right.camera_id);
    out.append(" makepadLeftCameraId=");
    push_camera_id_token(out, &pair.left.camera_id);
    out.append(" makepadRightCameraId=");
    push_camera_id_token(out, &pair.right.camera_id);
    proof {
        assert(out@ =~= start + homography_ids_spec(*pair));
    }
}

fn push_homography_upload<I, M, C>(out: &mut String, pair: &MakepadCameraPair<I, M, C>)
    ensures
        final(out)@ == old(out)@ + homography_upload_spec(*pair),
{
    let ghost start = out@;
    out.append(
        " sourceRasterOriginPolicy=explicit-broker-raster-or-camera2-import sourceRasterUvCorrectionStage=projection-plan-for-broker-top-left-raster projectionAreaTransformStage=pre_homography_screen_uv projectionAreaWarpParity=diagnostic_only contentUvRect=0,0,1,1 cpuUploadRect=0,0,",
    );
    push_u64(out, pair.left.width as u64);
    out.append(",");
    push_u64(out, pair.left.height as u64);
    out.append(" cpuUploadStride=not-exposed ");
    proof {
        assert(out@ =~= start + homography_upload_spec(*pair));
    }
}

fn push_homography_head<I, M, C>(out: &mut String, pair: &MakepadCameraPair<I, M, C>)
    ensures
        final(out)@ == old(out)@ + homography_head_spec(*pair),
{
    let ghost start = out@;
    push_homography_state(out, pair);
    push_homography_ids(out, pair);
    push_homography_upload(out, pair);
    proof {
        assert(out@ =~= start + homography_head_spec(*pair));
    }
}

fn push_homography_tail(out: &mut String, t: &ProjectionHomographyTexts)
    ensures
        final(out)@ == old(out)@ + homography_tail_spec(*t),
{
    let ghost start = out@;
    out.append(t.openxr_contract_fields.as_str());
    out.append(" leftSurfaceToCameraH=");
    out.append(t.left_surface_to_camera.as_str());
    out.append(" rightSurfaceToCameraH=");
    out.append(t.right_surface_to_camera.as_str());
    out.append(" leftSurfaceToScreenH=");
    out.append(t.left_surface_to_screen.as_str());
    out.append(" rightSurfaceToScreenH=");
    out.append(t.right_surface_to_screen.as_str());
    out.append(" leftScreenToCameraH=");
    out.append(t.left_screen_to_camera.as_str());
    out.append(" rightScreenToCameraH=");
    out.append(t.right_screen_to_camera.as_str());
    out.append(" leftScreenToSurfaceH=");
    out.append(t.left_screen_to_surface.as_str());
    out.append(" rightScreenToSurfaceH=");
    out.append(t.right_screen_to_surface.as_str());
    out.append(" ");
    out.append(t.source_valid_footprint_fields.as_str());
    out.append(" ");
    out.append(t.projection_target_fields.as_str());
    out.append(" ");
    out.append(t.target_footprint_fields.as_str());
    proof {
        assert(out@ =~= start + homography_tail_spec(*t));
    }
}

/// The homography fields that every projection marker of a pair carries.
pub fn projection_homography_marker_fields<I, M, C>(
    pair: &MakepadCameraPair<I, M, C>,
    texts: &ProjectionHomographyTexts,
) -> (fields: String)
    ensures
        fields@ == projection_homography_marker_fields_spec(*pair, *texts),
{
    let mut out = String::new();
    push_homography_head(&mut out, pair);
    push_homography_tail(&mut out, texts);
    proof {
        assert(out@ =~= projection_homography_marker_fields_spec(*pair, *texts));
    }
    out
}

/// The enumeration fields of a bound pair.
pub fn makepad_projection_enumerated_marker_fields<I, M, C>(
    pair: &MakepadCameraPair<I, M, C>,
    texts: &ProjectionHomographyTexts,
    source_count: usize,
    format_count: usize,
) -> (fields: String)
    ensures
        fields@ == projection_enumerated_marker_fields_spec(
            source_count,
            format_count,
            pair.projection_homography_ready,
            pair.projection_metadata_ready,
            pair.pose_source@,
            pair.source_eye_mapping@,
            pair.coordinate_chain@,
            projection_homography_marker_fields_spec(*pair, *texts),
            pair.left.source_index,
            pair.right.source_index,
            pair.source_binding_mode@,
            pair.left.source_class.label_spec(),
            pair.right.source_class.label_spec(),
            pair.left.width,
            pair.left.height,
            pair.right.width,
            pair.right.height,
            marker_token_spec(pair.fallback_reason@),
        ),
{
    let homography = projection_homography_marker_fields(pair, texts);
    let fallback = marker_token(pair.fallback_reason.as_str());
    projection_enumerated_marker_fields(
        source_count,
        format_count,
        pair.projection_homography_ready,
        pair.projection_metadata_ready,
        pair.pose_source.as_str(),
        pair.source_eye_mapping.as_str(),
        pair.coordinate_chain.as_str(),
        homography.as_str(),
        pair.left.source_index,
        pair.right.source_index,
        pair.source_binding_mode.as_str(),
        pair.left.source_class.label(),
        pair.right.source_class.label(),
        pair.left.width,
        pair.left.height,
        pair.right.width,
        pair.right.height,
        fallback.as_str(),
    )
}

/// The preparation progress fields of a bound pair.
pub fn makepad_paired_projection_progress_marker_fields<I, M, C>(
    pair: &MakepadCameraPair<I, M, C>,
    texts: &ProjectionHomographyTexts,
    phase: &str,
    left_prepared: bool,
    right_prepared: bool,
    left_updated: bool,
    right_updated: bool,
) -> (fields: String)
    ensures
        fields@ == paired_projection_progress_marker_fields_spec(
            phase@,
            left_prepared,
            right_prepared,
            left_updated,
            right_updated,
            pair.projection_homography_ready,
            pair.projection_metadata_ready,
            pair.pose_source@,
            pair.source_eye_mapping@,
            projection_homography_marker_fields_spec(*pair, *texts),
            pair.left.source_index,
            pair.right.source_index,
            marker_token_spec(pair.fallback_reason@),
        ),
{
    let homography = projection_homography_marker_fields(pair, texts);
    let fallback = marker_token(pair.fallback_reason.as_str());
    paired_projection_progress_marker_fields(
        phase,
        left_prepared,
        right_prepared,
        left_updated,
        right_updated,
        pair.projection_homography_ready,
        pair.projection_metadata_ready,
        pair.pose_source.as_str(),
        pair.source_eye_mapping.as_str(),
        homography.as_str(),
        pair.left.source_index,
        pair.right.source_index,
        fallback.as_str(),
    )
}

/// The projection start fields of a bound pair; the two scales arrive
/// formatted with two decimals.
pub fn makepad_projection_start_marker_fields<I, M, C>(
    pair: &MakepadCameraPair<I, M, C>,
    texts: &ProjectionHomographyTexts,
    projection_mode: &str,
    projection_scale: &str,
    xr_render_scale: &str,
) -> (fields: String)
    ensures
        fields@ == projection_start_marker_fields_spec(
            pair.projection_homography_ready,
            pair.projection_metadata_ready,
            pair.pose_source@,
            pair.source_eye_mapping@,
            pair.coordinate_chain@,
            projection_homography_marker_fields_spec(*pair, *texts),
            pair.left.source_index,
            pair.right.source_index,
            projection_mode@,
            projection_scale@,
            xr_render_scale@,
            marker_token_spec(pair.fallback_reason@),
        ),
{
    let homography = projection_homography_marker_fields(pair, texts);
    let fallback = marker_token(pair.fallback_reason.as_str());
    projection_start_marker_fields(
        pair.projection_homography_ready,
        pair.projection_metadata_ready,
        pair.pose_source.as_str(),
        pair.source_eye_mapping.as_str(),
        pair.coordinate_chain.as_str(),
        homography.as_str(),
        pair.left.source_index,
        pair.right.source_index,
        projection_mode,
        projection_scale,
        xr_render_scale,
        fallback.as_str(),
    )
}

/// The draw-vars-bound fields of a bound pair.
pub fn makepad_draw_vars_bound_marker_fields<I, M, C>(
    pair: &MakepadCameraPair<I, M, C>,
    texts: &ProjectionHomographyTexts,
    texture_path: MakepadCameraTexturePath,
    broker_h264_surface_texture: bool,
    single_stream_visual_proof: bool,
    updated_stream_visual_proof_side: &str,
    camera_texture_binding_enabled: bool,
    projection_panel_draw_enabled: bool,
) -> (fields: String)
    ensures
        fields@ == draw_vars_bound_marker_fields_spec(
            texture_path,
            broker_h264_surface_texture,
            single_stream_visual_proof,
            updated_stream_visual_proof_side@,
            camera_texture_binding_enabled,
            projection_panel_draw_enabled,
            projection_homography_marker_fields_spec(*pair, *texts),
        ),
{
    let homography = projection_homography_marker_fields(pair, texts);
    draw_vars_bound_marker_fields(
        texture_path,
        broker_h264_surface_texture,
        single_stream_visual_proof,
        updated_stream_visual_proof_side,
        camera_texture_binding_enabled,
        projection_panel_draw_enabled,
        homography.as_str(),
    )
}

/// The native video widget surface fields of a bound pair.
pub fn makepad_native_video_widget_surface_marker_fields<I, M, C>(
    pair: &MakepadCameraPair<I, M, C>,
    reset_count: usize,
) -> (fields: String)
    ensures
        fields@ == native_video_widget_surface_marker_fields_spec(
            pair.left.source_index,
            pair.right.source_index,
            pair.left.width,
            pair.left.height,
            pair.right.width,
            pair.right.height,
            reset_count,
        ),
{
    native_video_widget_surface_marker_fields(
        pair.left.source_index,
        pair.right.source_index,
        pair.left.width,
        pair.left.height,
        pair.right.width,
        pair.right.height,
        reset_count,
    )
}

} // verus!
