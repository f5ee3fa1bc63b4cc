//! The marker lines of the Camera2 probe: the enumeration summary, the
//! stereo projection metadata, the first frame and the completion line.
//! Homographies are measured in floating point and arrive as tokens.
use vstd::prelude::*;
use crate::camera_source::{
    capture_choice, is_last_best_source, lens_facing_label_spec, select_camera_source,
    select_capture_size, source_eligible, sources_scorable, CameraSource,
};
use crate::camera_probe::{
    active_array_size, active_array_size_spec, lists_private_output_sizes, metadata_string_list,
    private_output_sizes, string_views, text_entries, zero_separated,
};
use crate::acamera::ACAMERA_REQUEST_AVAILABLE_CAPABILITIES_LOGICAL_MULTI_CAMERA;
use crate::text::{
    bool_text, dec_int, dec_nat, marker_token, marker_token_spec, push_bool, push_i64, push_u128,
    push_u64,
};

verus! {

/// A Camera2 source from its characteristics: none without a lens facing.
/// `capabilities` are the available capabilities, `physical_ids` the
/// zero-separated physical camera ids, `stream_configurations` the stream
/// configuration quadruples and `active_array` the sensor rectangle.
pub fn camera_source_from_metadata<I, T, R>(
    camera_id: String,
    lens_facing: Option<u8>,
    capabilities: &[u8],
    physical_ids: &[u8],
    sensor_sync_type: Option<u8>,
    stream_configurations: &[i32],
    intrinsics: Option<I>,
    active_array: &[i32],
    pose_translation: Option<T>,
    pose_rotation: Option<R>,
) -> (source: Option<CameraSource<I, T, R>>)
    ensures
        lens_facing is None ==> source is None,
        lens_facing matches Some(facing) ==> source matches Some(s) && {
            &&& s.camera_id == camera_id
            &&& s.lens_facing == facing
            &&& s.logical_multi_camera == capabilities@.contains(
                ACAMERA_REQUEST_AVAILABLE_CAPABILITIES_LOGICAL_MULTI_CAMERA,
            )
            &&& string_views(s.physical_camera_ids@) == text_entries(zero_separated(physical_ids@))
            &&& s.sensor_sync_type == sensor_sync_type
            &&& lists_private_output_sizes(stream_configurations@, s.private_sizes@)
            &&& s.intrinsics == intrinsics
            &&& s.active_array_size == active_array_size_spec(active_array@)
            &&& s.pose_translation == pose_translation
            &&& s.pose_rotation == pose_rotation
        },
{
    let facing = match lens_facing {
        Some(f) => f,
        None => {
            return None;
        },
    };
    let mut logical = false;
    let mut i: usize = 0;
    while i < capabilities.len()
        invariant
            i <= capabilities@.len(),
            logical == exists|j: int|
                0 <= j < i && capabilities@[j] == ACAMERA_REQUEST_AVAILABLE_CAPABILITIES_LOGICAL_MULTI_CAMERA,
        decreases capabilities.len() - i,
    {
        if capabilities[i] == ACAMERA_REQUEST_AVAILABLE_CAPABILITIES_LOGICAL_MULTI_CAMERA {
            logical = true;
        }
        i = i + 1;
    }
    Some(CameraSource {
        camera_id,
        lens_facing: facing,
        logical_multi_camera: logical,
        physical_camera_ids: metadata_string_list(physical_ids),
        sensor_sync_type,
        private_sizes: private_output_sizes(stream_configurations),
        intrinsics,
        active_array_size: active_array_size(active_array),
        pose_translation,
        pose_rotation,
    })
}

/// How many sources offer a private output size.
pub open spec fn private_source_count_spec<I, T, R>(sources: Seq<CameraSource<I, T, R>>) -> nat
    decreases sources.len(),
{
    if sources.len() == 0 {
        0
    } else {
        private_source_count_spec(sources.drop_last()) + if sources.last().private_sizes@.len() > 0 {
            1nat
        } else {
            0nat
        }
    }
}

/// How many sources offer a private output size.
pub fn private_source_count<I, T, R>(sources: &Vec<CameraSource<I, T, R>>) -> (count: usize)
    ensures
        count == private_source_count_spec(sources@),
{
    let mut count: usize = 0;
    let mut i: usize = 0;
    while i < sources.len()
        invariant
            i <= sources@.len(),
            count == private_source_count_spec(sources@.take(i as int)),
            count <= i,
        decreases sources.len() - i,
    {
        proof {
            assert(sources@.take(i + 1).drop_last() =~= sources@.take(i as int));
        }
        if sources[i].private_sizes.len() > 0 {
            count = count + 1;
        }
        i = i + 1;
    }
    proof {
        assert(sources@.take(sources@.len() as int) =~= sources@);
    }
    count
}

/// The eight homographies of a stereo plan, each already formatted.
pub struct HomographyTokens {
    pub left_surface_to_camera: String,
    pub right_surface_to_camera: String,
    pub left_surface_to_screen: String,
    pub right_surface_to_screen: String,
    pub left_screen_to_camera: String,
    pub right_screen_to_camera: String,
    pub left_screen_to_surface: String,
    pub right_screen_to_surface: String,
}

/// What the probe's marker lines report of its stereo projection plan.
pub struct StereoPlanSummary {
    pub left_source_index: usize,
    pub right_source_index: usize,
    pub left_camera_id: String,
    pub right_camera_id: String,
    pub left_facing: String,
    pub right_facing: String,
    pub width: u32,
    pub height: u32,
    pub projection_metadata_ready: bool,
    pub projection_homography_ready: bool,
    pub pose_source: String,
    pub source_eye_mapping: String,
    pub coordinate_chain: String,
    pub fallback_reason: String,
    pub homographies: HomographyTokens,
}

/// The source the probe selected, if the index names one.
pub open spec fn selected_source_spec<I, T, R>(sources: Seq<CameraSource<I, T, R>>, selected: Option<usize>) -> Option<
    CameraSource<I, T, R>,
> {
    match selected {
        Some(i) => if i < sources.len() {
            Some(sources[i as int])
        } else {
            None
        },
        None => None,
    }
}

/// A decimal index token, `none` when absent.
pub open spec fn index_or_none(index: Option<nat>) -> Seq<char> {
    match index {
        Some(i) => dec_nat(i),
        None => "none"@,
    }
}

/// The counting and index part of the enumeration line.
pub open spec fn enumerated_counts_spec<I, T, R>(
    sources: Seq<CameraSource<I, T, R>>,
    private_source_count: usize,
    selected: Option<usize>,
) -> Seq<char> {
    "phase=enumerated status=ok sourceCount="@ + dec_nat(sources.len()) + " privateSourceCount="@
        + dec_nat(private_source_count as nat) + " selected="@ + bool_text(selected is Some)
        + " selectedIndex="@ + index_or_none(
        match selected {
            Some(i) => Some(i as nat),
            None => None,
        },
    )
}

/// The facing and size part of the enumeration line.
pub open spec fn enumerated_size_spec<I, T, R>(
    sources: Seq<CameraSource<I, T, R>>,
    selected: Option<usize>,
) -> Seq<char> {
    let source = selected_source_spec(sources, selected);
    let size = match source {
        Some(s) => capture_choice(s.private_sizes@),
        None => None,
    };
    " selectedFacing="@ + (match source {
        Some(s) => lens_facing_label_spec(s.lens_facing),
        None => "none"@,
    }) + " selectedWidth="@ + dec_nat(
        match size {
            Some(sz) => sz.0 as nat,
            None => 0,
        },
    ) + " selectedHeight="@ + dec_nat(
        match size {
            Some(sz) => sz.1 as nat,
            None => 0,
        },
    )
}

/// The selection part of the enumeration line.
pub open spec fn enumerated_selection_spec<I, T, R>(
    sources: Seq<CameraSource<I, T, R>>,
    private_source_count: usize,
    selected: Option<usize>,
) -> Seq<char> {
    enumerated_counts_spec(sources, private_source_count, selected) + enumerated_size_spec(
        sources,
        selected,
    )
}

/// The calibration fields of the enumeration line for given values.
pub open spec fn calibration_fields_spec(
    intrinsics: bool,
    pose: bool,
    logical: bool,
    physical: nat,
    sync: Option<nat>,
) -> Seq<char> {
    " selectedHasIntrinsics="@ + bool_text(intrinsics) + " selectedHasPose="@ + bool_text(pose)
        + " selectedLogicalMultiCamera="@ + bool_text(logical) + " selectedPhysicalCount="@
        + dec_nat(physical) + " selectedSensorSync="@ + index_or_none(sync)
}

/// The calibration part of the enumeration line.
pub open spec fn enumerated_calibration_spec<I, T, R>(
    sources: Seq<CameraSource<I, T, R>>,
    selected: Option<usize>,
) -> Seq<char> {
    let source = selected_source_spec(sources, selected);
    calibration_fields_spec(
        source matches Some(s) && s.intrinsics is Some,
        source matches Some(s) && s.pose_translation is Some && s.pose_rotation is Some,
        source matches Some(s) && s.logical_multi_camera,
        match source {
            Some(s) => s.physical_camera_ids@.len(),
            None => 0,
        },
        match source {
            Some(s) => match s.sensor_sync_type {
                Some(t) => Some(t as nat),
                None => None,
            },
            None => None,
        },
    )
}

/// A homography token, `identity` when there is no plan.
pub open spec fn token_or_identity(token: Option<Seq<char>>) -> Seq<char> {
    match token {
        Some(t) => t,
        None => "identity"@,
    }
}

/// The stereo part of the enumeration line.
pub open spec fn enumerated_stereo_spec(plan: Option<&StereoPlanSummary>) -> Seq<char> {
    " stereoPairSelected="@ + bool_text(plan is Some) + " stereoLeftIndex="@ + index_or_none(
        match plan {
            Some(p) => Some(p.left_source_index as nat),
            None => None,
        },
    ) + " stereoRightIndex="@ + index_or_none(
        match plan {
            Some(p) => Some(p.right_source_index as nat),
            None => None,
        },
    ) + " stereoProjectionMetadataReady="@ + bool_text(
        plan matches Some(p) && p.projection_metadata_ready,
    ) + " stereoProjectionHomographyReady="@ + bool_text(
        plan matches Some(p) && p.projection_homography_ready,
    )
}

/// The homography part of the enumeration line.
pub open spec fn enumerated_homographies_spec(plan: Option<&StereoPlanSummary>) -> Seq<char> {
    let h = match plan {
        Some(p) => Some(p.homographies),
        None => None,
    };
    " stereoLeftSurfaceToCameraH="@ + token_or_identity(
        match h {
            Some(t) => Some(t.left_surface_to_camera@),
            None => None,
        },
    ) + " stereoRightSurfaceToCameraH="@ + token_or_identity(
        match h {
            Some(t) => Some(t.right_surface_to_camera@),
            None => None,
        },
    ) + " stereoLeftScreenToCameraH="@ + token_or_identity(
        match h {
            Some(t) => Some(t.left_screen_to_camera@),
            None => None,
        },
    ) + " stereoRightScreenToCameraH="@ + token_or_identity(
        match h {
            Some(t) => Some(t.right_screen_to_camera@),
            None => None,
        },
    ) + " stereoLeftScreenToSurfaceH="@ + token_or_identity(
        match h {
            Some(t) => Some(t.left_screen_to_surface@),
            None => None,
        },
    ) + " stereoRightScreenToSurfaceH="@ + token_or_identity(
        match h {
            Some(t) => Some(t.right_screen_to_surface@),
            None => None,
        },
    ) + " acquisitionPlan=bounded-single-private import=none"@
}

/// The enumeration line the probe emits after reading every source.
pub open spec fn metadata_marker_line_spec<I, T, R>(
    sources: Seq<CameraSource<I, T, R>>,
    private_source_count: usize,
    selected: Option<usize>,
    plan: Option<&StereoPlanSummary>,
) -> Seq<char> {
    enumerated_selection_spec(sources, private_source_count, selected) + enumerated_calibration_spec(
        sources,
        selected,
    ) + enumerated_stereo_spec(plan) + enumerated_homographies_spec(plan)
}

fn push_index_or_none(out: &mut String, index: Option<u64>)
    ensures
        final(out)@ == old(out)@ + index_or_none(
            match index {
                Some(i) => Some(i as nat),
                None => None,
            },
        ),
{
    match index {
        Some(i) => push_u64(out, i),
        None => {
            out.append("none");
            proof {
                reveal_strlit("none");
            }
        },
    }
}

fn selected_source<'a, I, T, R>(sources: &'a Vec<CameraSource<I, T, R>>, selected: Option<usize>) -> (source: Option<&'a CameraSource<I, T, R>>)
    ensures
        match source {
            Some(s) => selected_source_spec(sources@, selected) == Some(*s),
            None => selected_source_spec(sources@, selected) is None,
        },
{
    match selected {
        Some(i) => if i < sources.len() {
            Some(&sources[i])
        } else {
            None
        },
        None => None,
    }
}

fn push_enumerated_counts<I, T, R>(
    out: &mut String,
    sources: &Vec<CameraSource<I, T, R>>,
    private_source_count: usize,
    selected: Option<usize>,
)
    ensures
        final(out)@ == old(out)@ + enumerated_counts_spec(sources@, private_source_count, selected),
{
    let ghost start = out@;
    out.append("phase=enumerated status=ok sourceCount=");
    push_u64(out, sources.len() as u64);
    out.append(" privateSourceCount=");
    push_u64(out, private_source_count as u64);
    out.append(" selected=");
    push_bool(out, selected.is_some());
    out.append(" selectedIndex=");
    push_index_or_none(
        out,
        match selected {
            Some(i) => Some(i as u64),
            None => None,
        },
    );
    proof {
        assert(out@ =~= start + enumerated_counts_spec(sources@, private_source_count, selected));
    }
}

fn push_enumerated_size<I, T, R>(
    out: &mut String,
    sources: &Vec<CameraSource<I, T, R>>,
    selected: Option<usize>,
)
    ensures
        final(out)@ == old(out)@ + enumerated_size_spec(sources@, selected),
{
    let ghost start = out@;
    let source = selected_source(sources, selected);
    let size = match source {
        Some(s) => select_capture_size(s),
        None => None,
    };
    out.append(" selectedFacing=");
    match source {
        Some(s) => out.append(s.lens_facing_label()),
        None => {
            out.append("none");
            proof {
                reveal_strlit("none");
            }
        },
    }
    out.append(" selectedWidth=");
    push_u64(
        out,
        match size {
            Some(sz) => sz.0 as u64,
            None => 0,
        },
    );
    out.append(" selectedHeight=");
    push_u64(
        out,
        match size {
            Some(sz) => sz.1 as u64,
            None => 0,
        },
    );
    proof {
        assert(out@ =~= start + enumerated_size_spec(sources@, selected));
    }
}

fn push_enumerated_selection<I, T, R>(
    out: &mut String,
    sources: &Vec<CameraSource<I, T, R>>,
    private_source_count: usize,
    selected: Option<usize>,
)
    ensures
        final(out)@ == old(out)@ + enumerated_selection_spec(sources@, private_source_count, selected),
{
    let ghost start = out@;
    push_enumerated_counts(out, sources, private_source_count, selected);
    push_enumerated_size(out, sources, selected);
    proof {
        assert(out@ =~= start + enumerated_selection_spec(sources@, private_source_count, selected));
    }
}

fn push_calibration_fields(
    out: &mut String,
    intrinsics: bool,
    pose: bool,
    logical: bool,
    physical: u64,
    sync: Option<u64>,
)
    ensures
        final(out)@ == old(out)@ + calibration_fields_spec(
            intrinsics,
            pose,
            logical,
            physical as nat,
            match sync {
                Some(t) => Some(t as nat),
                None => None,
            },
        ),
{
    let ghost start = out@;
    out.append(" selectedHasIntrinsics=");
    push_bool(out, intrinsics);
    out.append(" selectedHasPose=");
    push_bool(out, pose);
    out.append(" selectedLogicalMultiCamera=");
    push_bool(out, logical);
    out.append(" selectedPhysicalCount=");
    push_u64(out, physical);
    out.append(" selectedSensorSync=");
    push_index_or_none(out, sync);
    proof {
        assert(out@ =~= start + calibration_fields_spec(
            intrinsics,
            pose,
            logical,
            physical as nat,
            match sync {
                Some(t) => Some(t as nat),
                None => None,
            },
        ));
    }
}

fn push_enumerated_calibration<I, T, R>(
    out: &mut String,
    sources: &Vec<CameraSource<I, T, R>>,
    selected: Option<usize>,
)
    ensures
        final(out)@ == old(out)@ + enumerated_calibration_spec(sources@, selected),
{
    let source = selected_source(sources, selected);
    match source {
        Some(s) => {
            let sync: Option<u64> = match s.sensor_sync_type {
                Some(t) => Some(t as u64),
                None => None,
            };
            push_calibration_fields(
                out,
                s.intrinsics.is_some(),
                s.pose_translation.is_some() && s.pose_rotation.is_some(),
                s.logical_multi_camera,
                s.physical_camera_ids.len() as u64,
                sync,
            );
        },
        None => {
            push_calibration_fields(out, false, false, false, 0, None);
        },
    }
}

fn push_enumerated_stereo(out: &mut String, plan: Option<&StereoPlanSummary>)
    ensures
        final(out)@ == old(out)@ + enumerated_stereo_spec(plan),
{
    let ghost start = out@;
    out.append(" stereoPairSelected=");
    push_bool(out, plan.is_some());
    out.append(" stereoLeftIndex=");
    push_index_or_none(
        out,
        match plan {
            Some(p) => Some(p.left_source_index as u64),
            None => None,
        },
    );
    out.append(" stereoRightIndex=");
    push_index_or_none(
        out,
        match plan {
            Some(p) => Some(p.right_source_index as u64),
            None => None,
        },
    );
    out.append(" stereoProjectionMetadataReady=");
    push_bool(
        out,
        match plan {
            Some(p) => p.projection_metadata_ready,
            None => false,
        },
    );
    out.append(" stereoProjectionHomographyReady=");
    push_bool(
        out,
        match plan {
            Some(p) => p.projection_homography_ready,
            None => false,
        },
    );
    proof {
        assert(out@ =~= start + enumerated_stereo_spec(plan));
    }
}

fn push_token_or_identity(out: &mut String, token: Option<&String>)
    ensures
        final(out)@ == old(out)@ + token_or_identity(
            match token {
                Some(t) => Some(t@),
                None => None,
            },
        ),
{
    match token {
        Some(t) => out.append(t.as_str()),
        None => {
            out.append("identity");
            proof {
                reveal_strlit("identity");
            }
        },
    }
}

fn push_enumerated_homographies(out: &mut String, plan: Option<&StereoPlanSummary>)
    ensures
        final(out)@ == old(out)@ + enumerated_homographies_spec(plan),
{
    let ghost start = out@;
    out.append(" stereoLeftSurfaceToCameraH=");
    push_token_or_identity(
        out,
        match plan {
            Some(p) => Some(&p.homographies.left_surface_to_camera),
            None => None,
        },
    );
    out.append(" stereoRightSurfaceToCameraH=");
    push_token_or_identity(
        out,
        match plan {
            Some(p) => Some(&p.homographies.right_surface_to_camera),
            None => None,
        },
    );
    out.append(" stereoLeftScreenToCameraH=");
    push_token_or_identity(
        out,
        match plan {
            Some(p) => Some(&p.homographies.left_screen_to_camera),
            None => None,
        },
    );
    out.append(" stereoRightScreenToCameraH=");
    push_token_or_identity(
        out,
        match plan {
            Some(p) => Some(&p.homographies.right_screen_to_camera),
            None => None,
        },
    );
    out.append(" stereoLeftScreenToSurfaceH=");
    push_token_or_identity(
        out,
        match plan {
            Some(p) => Some(&p.homographies.left_screen_to_surface),
            None => None,
        },
    );
    out.append(" stereoRightScreenToSurfaceH=");
    push_token_or_identity(
        out,
        match plan {
            Some(p) => Some(&p.homographies.right_screen_to_surface),
            None => None,
        },
    );
    out.append(" acquisitionPlan=bounded-single-private import=none");
    proof {
        assert(out@ =~= start + enumerated_homographies_spec(plan));
    }
}

/// The body of the enumeration line the probe emits after reading every
/// source: the selected source, its capture size and calibration, and the
/// stereo plan if one was found.
pub fn metadata_marker_line<I, T, R>(
    sources: &Vec<CameraSource<I, T, R>>,
    private_source_count: usize,
    selected: Option<usize>,
    plan: Option<&StereoPlanSummary>,
) -> (line: String)
    ensures
        line@ == metadata_marker_line_spec(sources@, private_source_count, selected, plan),
{
    let mut out = String::new();
    push_enumerated_selection(&mut out, sources, private_source_count, selected);
    push_enumerated_calibration(&mut out, sources, selected);
    push_enumerated_stereo(&mut out, plan);
    push_enumerated_homographies(&mut out, plan);
    proof {
        assert(out@ =~= metadata_marker_line_spec(sources@, private_source_count, selected, plan));
    }
    out
}


/// The identity part of the stereo metadata line.
pub open spec fn stereo_metadata_sources_spec(source_count: nat, plan: StereoPlanSummary) -> Seq<char> {
    "phase=metadata status=ok sourceCount="@ + dec_nat(source_count) + " leftSourceIndex="@
        + dec_nat(plan.left_source_index as nat) + " rightSourceIndex="@ + dec_nat(
        plan.right_source_index as nat,
    ) + " leftCameraId="@ + marker_token_spec(plan.left_camera_id@) + " rightCameraId="@
        + marker_token_spec(plan.right_camera_id@) + " leftFacing="@ + plan.left_facing@
        + " rightFacing="@ + plan.right_facing@ + " width="@ + dec_nat(plan.width as nat)
        + " height="@ + dec_nat(plan.height as nat)
}

/// The readiness part of the stereo metadata line.
pub open spec fn stereo_metadata_state_spec(plan: StereoPlanSummary) -> Seq<char> {
    " pairedLeftRightGpuBuffers=false projectionMappingReady="@ + bool_text(
        plan.projection_metadata_ready,
    ) + " alignedProjection=false projectionMetadataReady="@ + bool_text(
        plan.projection_metadata_ready,
    ) + " poseSource="@ + plan.pose_source@ + " sourceEyeMapping="@ + plan.source_eye_mapping@
        + " coordinateChain="@ + plan.coordinate_chain@ + " projectionHomographyReady="@
        + bool_text(plan.projection_homography_ready)
}

/// The homography part of the stereo metadata line.
pub open spec fn stereo_metadata_homographies_spec(plan: StereoPlanSummary) -> Seq<char> {
    let h = plan.homographies;
    " leftSurfaceToCameraH="@ + h.left_surface_to_camera@ + " rightSurfaceToCameraH="@
        + h.right_surface_to_camera@ + " leftSurfaceToScreenH="@ + h.left_surface_to_screen@
        + " rightSurfaceToScreenH="@ + h.right_surface_to_screen@ + " leftScreenToCameraH="@
        + h.left_screen_to_camera@ + " rightScreenToCameraH="@ + h.right_screen_to_camera@
        + " leftScreenToSurfaceH="@ + h.left_screen_to_surface@ + " rightScreenToSurfaceH="@
        + h.right_screen_to_surface@
        + " projectionUvCorrection=screen_to_camera_homography_camera2_intrinsics_pose_display_eye sourceSelection=pose-x-ordered-camera2 fallbackReason="@
        + marker_token_spec(plan.fallback_reason@)
}

/// The stereo projection metadata line of the probe: the plan when one was
/// found, else an error that names the missing pair.
pub open spec fn stereo_projection_metadata_line_spec(source_count: nat, plan: Option<&StereoPlanSummary>) -> Seq<char> {
    match plan {
        Some(p) => stereo_metadata_sources_spec(source_count, *p) + stereo_metadata_state_spec(*p)
            + stereo_metadata_homographies_spec(*p),
        None => "phase=metadata status=error sourceCount="@ + dec_nat(source_count)
            + " pairedLeftRightGpuBuffers=false projectionMappingReady=false alignedProjection=false projectionMetadataReady=false poseSource=missing fallbackReason=no_camera2_stereo_pair"@,
    }
}

fn push_stereo_metadata_sources(out: &mut String, source_count: usize, plan: &StereoPlanSummary)
    ensures
        final(out)@ == old(out)@ + stereo_metadata_sources_spec(source_count as nat, *plan),
{
    let ghost start = out@;
    let left_id = marker_token(plan.left_camera_id.as_str());
    let right_id = marker_token(plan.right_camera_id.as_str());
    out.append("phase=metadata status=ok sourceCount=");
    push_u64(out, source_count as u64);
    out.append(" leftSourceIndex=");
    push_u64(out, plan.left_source_index as u64);
    out.append(" rightSourceIndex=");
    push_u64(out, plan.right_source_index as u64);
    out.append(" leftCameraId=");
    out.append(left_id.as_str());
    out.append(" rightCameraId=");
    out.append(right_id.as_str());
    out.append(" leftFacing=");
    out.append(plan.left_facing.as_str());
    out.append(" rightFacing=");
    out.append(plan.right_facing.as_str());
    out.append(" width=");
    push_u64(out, plan.width as u64);
    out.append(" height=");
    push_u64(out, plan.height as u64);
    proof {
        assert(out@ =~= start + stereo_metadata_sources_spec(source_count as nat, *plan));
    }
}

fn push_stereo_metadata_state(out: &mut String, plan: &StereoPlanSummary)
    ensures
        final(out)@ == old(out)@ + stereo_metadata_state_spec(*plan),
{
    let ghost start = out@;
    out.append(" pairedLeftRightGpuBuffers=false projectionMappingReady=");
    push_bool(out, plan.projection_metadata_ready);
    out.append(" alignedProjection=false projectionMetadataReady=");
    push_bool(out, plan.projection_metadata_ready);
    out.append(" poseSource=");
    out.append(plan.pose_source.as_str());
    out.append(" sourceEyeMapping=");
    out.append(plan.source_eye_mapping.as_str());
    out.append(" coordinateChain=");
    out.append(plan.coordinate_chain.as_str());
    out.append(" projectionHomographyReady=");
    push_bool(out, plan.projection_homography_ready);
    proof {
        assert(out@ =~= start + stereo_metadata_state_spec(*plan));
    }
}

fn push_stereo_metadata_homographies(out: &mut String, plan: &StereoPlanSummary)
    ensures
        final(out)@ == old(out)@ + stereo_metadata_homographies_spec(*plan),
{
    let ghost start = out@;
    let fallback = marker_token(plan.fallback_reason.as_str());
    let h = &plan.homographies;
    out.append(" leftSurfaceToCameraH=");
    out.append(h.left_surface_to_camera.as_str());
    out.append(" rightSurfaceToCameraH=");
    out.append(h.right_surface_to_camera.as_str());
    out.append(" leftSurfaceToScreenH=");
    out.append(h.left_surface_to_screen.as_str());
    out.append(" rightSurfaceToScreenH=");
    out.append(h.right_surface_to_screen.as_str());
    out.append(" leftScreenToCameraH=");
    out.append(h.left_screen_to_camera.as_str());
    out.append(" rightScreenToCameraH=");
    out.append(h.right_screen_to_camera.as_str());
    out.append(" leftScreenToSurfaceH=");
    out.append(h.left_screen_to_surface.as_str());
    out.append(" rightScreenToSurfaceH=");
    out.append(h.right_screen_to_surface.as_str());
    out.append(
        " projectionUvCorrection=screen_to_camera_homography_camera2_intrinsics_pose_display_eye sourceSelection=pose-x-ordered-camera2 fallbackReason=",
    );
    out.append(fallback.as_str());
    proof {
        assert(out@ =~= start + stereo_metadata_homographies_spec(*plan));
    }
}

/// The stereo projection metadata line of the probe.
pub fn stereo_projection_metadata_line(source_count: usize, plan: Option<&StereoPlanSummary>) -> (line: String)
    ensures
        line@ == stereo_projection_metadata_line_spec(source_count as nat, plan),
{
    let mut out = String::new();
    match plan {
        Some(p) => {
            push_stereo_metadata_sources(&mut out, source_count, p);
            push_stereo_metadata_state(&mut out, p);
            push_stereo_metadata_homographies(&mut out, p);
            proof {
                assert(out@ =~= stereo_projection_metadata_line_spec(source_count as nat, plan));
            }
        },
        None => {
            out.append("phase=metadata status=error sourceCount=");
            push_u64(&mut out, source_count as u64);
            out.append(
                " pairedLeftRightGpuBuffers=false projectionMappingReady=false alignedProjection=false projectionMetadataReady=false poseSource=missing fallbackReason=no_camera2_stereo_pair",
            );
            proof {
                assert(out@ =~= stereo_projection_metadata_line_spec(source_count as nat, plan));
            }
        },
    }
    out
}

/// The completion line of a probe run that got as far as capturing.
pub open spec fn acquisition_complete_body_spec(
    first_frame_seen: bool,
    selected_index: usize,
    width: u32,
    height: u32,
    frame_count: u32,
    hardware_buffer_frames: u32,
    acquire_errors: u32,
    elapsed_ms: u128,
) -> Seq<char> {
    "phase=complete status="@ + (if first_frame_seen {
        "ok"@
    } else {
        "timeout"@
    }) + " selectedIndex="@ + dec_nat(selected_index as nat) + " width="@ + dec_nat(width as nat)
        + " height="@ + dec_nat(height as nat) + " frameCount="@ + dec_nat(frame_count as nat)
        + " hardwareBufferFrames="@ + dec_nat(hardware_buffer_frames as nat) + " acquireErrors="@
        + dec_nat(acquire_errors as nat) + " elapsedMs="@ + dec_nat(elapsed_ms as nat)
        + " import=none"@
}

/// The completion line of a probe run that got as far as capturing:
/// `ok` when the first frame arrived in time, `timeout` otherwise.
pub fn acquisition_complete_body(
    first_frame_seen: bool,
    selected_index: usize,
    width: u32,
    height: u32,
    frame_count: u32,
    hardware_buffer_frames: u32,
    acquire_errors: u32,
    elapsed_ms: u128,
) -> (body: String)
    ensures
        body@ == acquisition_complete_body_spec(
            first_frame_seen,
            selected_index,
            width,
            height,
            frame_count,
            hardware_buffer_frames,
            acquire_errors,
            elapsed_ms,
        ),
{
    let mut out = String::from_str("phase=complete status=");
    if first_frame_seen {
        out.append("ok");
    } else {
        out.append("timeout");
    }
    out.append(" selectedIndex=");
    push_u64(&mut out, selected_index as u64);
    out.append(" width=");
    push_u64(&mut out, width as u64);
    out.append(" height=");
    push_u64(&mut out, height as u64);
    out.append(" frameCount=");
    push_u64(&mut out, frame_count as u64);
    out.append(" hardwareBufferFrames=");
    push_u64(&mut out, hardware_buffer_frames as u64);
    out.append(" acquireErrors=");
    push_u64(&mut out, acquire_errors as u64);
    out.append(" elapsedMs=");
    push_u128(&mut out, elapsed_ms);
    out.append(" import=none");
    proof {
        assert(out@ =~= acquisition_complete_body_spec(
            first_frame_seen,
            selected_index,
            width,
            height,
            frame_count,
            hardware_buffer_frames,
            acquire_errors,
            elapsed_ms,
        ));
    }
    out
}

/// The completion line of a probe run that failed.
pub fn acquisition_error_body(error: &str, elapsed_ms: u128) -> (body: String)
    ensures
        body@ == "phase=complete status=error errorKind="@ + marker_token_spec(error@)
            + " elapsedMs="@ + dec_nat(elapsed_ms as nat),
{
    let token = marker_token(error);
    let mut out = String::from_str("phase=complete status=error errorKind=");
    out.append(token.as_str());
    out.append(" elapsedMs=");
    push_u128(&mut out, elapsed_ms);
    out
}

/// What the hardware buffer of the first frame describes itself as.
pub struct HardwareBufferDescription {
    pub format: u32,
    pub usage: u64,
    pub layers: u32,
    pub stride: u32,
}

/// Whether a hardware buffer id was read: the call succeeded with a
/// non-zero id.
pub fn buffer_id_present(id_result: i32, buffer_id: u64) -> (present: bool)
    ensures
        present == (id_result == 0 && buffer_id != 0),
{
    id_result == 0 && buffer_id != 0
}

/// The first-frame line of the probe.
pub open spec fn first_frame_body_spec(
    selected_index: usize,
    width: u32,
    height: u32,
    timestamp_ns: i64,
    desc: HardwareBufferDescription,
    buffer_id_present: bool,
) -> Seq<char> {
    "phase=first-frame status=frame selectedIndex="@ + dec_nat(selected_index as nat) + " width="@
        + dec_nat(width as nat) + " height="@ + dec_nat(height as nat) + " timestampNs="@
        + dec_int(timestamp_ns as int) + " hardwareBufferPresent=true nativeFormat="@ + dec_nat(
        desc.format as nat,
    ) + " usage="@ + dec_nat(desc.usage as nat) + " layers="@ + dec_nat(desc.layers as nat)
        + " stride="@ + dec_nat(desc.stride as nat) + " bufferIdPresent="@ + bool_text(
        buffer_id_present,
    ) + " import=none"@
}

/// The first-frame line of the probe.
pub fn first_frame_body(
    selected_index: usize,
    width: u32,
    height: u32,
    timestamp_ns: i64,
    desc: &HardwareBufferDescription,
    buffer_id_present: bool,
) -> (body: String)
    ensures
        body@ == first_frame_body_spec(selected_index, width, height, timestamp_ns, *desc, buffer_id_present),
{
    let mut out = String::from_str("phase=first-frame status=frame selectedIndex=");
    push_u64(&mut out, selected_index as u64);
    out.append(" width=");
    push_u64(&mut out, width as u64);
    out.append(" height=");
    push_u64(&mut out, height as u64);
    out.append(" timestampNs=");
    push_i64(&mut out, timestamp_ns);
    out.append(" hardwareBufferPresent=true nativeFormat=");
    push_u64(&mut out, desc.format as u64);
    out.append(" usage=");
    push_u64(&mut out, desc.usage);
    out.append(" layers=");
    push_u64(&mut out, desc.layers as u64);
    out.append(" stride=");
    push_u64(&mut out, desc.stride as u64);
    out.append(" bufferIdPresent=");
    push_bool(&mut out, buffer_id_present);
    out.append(" import=none");
    proof {
        assert(out@ =~= first_frame_body_spec(selected_index, width, height, timestamp_ns, *desc, buffer_id_present));
    }
    out
}

/// The line of a camera device error callback.
pub fn device_error_body(error: i32) -> (body: String)
    ensures
        body@ == "phase=device-callback status=error errorCode="@ + dec_int(error as int),
{
    let mut out = String::from_str("phase=device-callback status=error errorCode=");
    push_i64(&mut out, error as i64);
    out
}

/// The line of a probe thread that could not be started.
pub fn thread_start_error_body(message: &str) -> (body: String)
    ensures
        body@ == "phase=thread-start status=error errorKind=thread_spawn_failed message="@
            + marker_token_spec(message@),
{
    let token = marker_token(message);
    let mut out = String::from_str("phase=thread-start status=error errorKind=thread_spawn_failed message=");
    out.append(token.as_str());
    out
}


/// Why a probe run stopped before or while enumerating sources.
#[derive(Clone, Copy, Debug, PartialEq, Eq, Structural)]
pub enum ProbeEnumerationError {
    /// The camera manager could not be created.
    CameraManagerCreateFailed,
    /// The camera id list could not be read; the NDK status.
    CameraIdListFailed(i32),
    /// A camera id held a zero byte.
    CameraIdContainsNull,
    /// A camera's characteristics could not be read; the NDK status.
    CameraCharacteristicsFailed(i32),
    /// No camera yielded a usable source.
    NoUsableSources,
    /// No source offers a private output size.
    NoPrivateCameraSource,
    /// The selected source has no capture size.
    SelectedSourceMissingPrivateSize,
}

/// The error token of a probe enumeration error.
pub open spec fn probe_enumeration_error_spec(error: ProbeEnumerationError) -> Seq<char> {
    match error {
        ProbeEnumerationError::CameraManagerCreateFailed => "camera_manager_create_failed"@,
        ProbeEnumerationError::CameraIdListFailed(status) => "get_camera_id_list_failed_"@ + dec_int(
            status as int,
        ),
        ProbeEnumerationError::CameraIdContainsNull => "camera_id_contains_null"@,
        ProbeEnumerationError::CameraCharacteristicsFailed(status) => "get_camera_characteristics_failed_"@
            + dec_int(status as int),
        ProbeEnumerationError::NoUsableSources => "camera_enumeration_no_usable_sources"@,
        ProbeEnumerationError::NoPrivateCameraSource => "no_private_camera_source"@,
        ProbeEnumerationError::SelectedSourceMissingPrivateSize => "selected_source_missing_private_size"@,
    }
}

impl ProbeEnumerationError {
    /// The error token reported in the completion line.
    pub fn message(&self) -> (message: String)
        ensures
            message@ == probe_enumeration_error_spec(*self),
    {
        match self {
            ProbeEnumerationError::CameraManagerCreateFailed => String::from_str("camera_manager_create_failed"),
            ProbeEnumerationError::CameraIdListFailed(status) => {
                let mut out = String::from_str("get_camera_id_list_failed_");
                push_i64(&mut out, *status as i64);
                out
            },
            ProbeEnumerationError::CameraIdContainsNull => String::from_str("camera_id_contains_null"),
            ProbeEnumerationError::CameraCharacteristicsFailed(status) => {
                let mut out = String::from_str("get_camera_characteristics_failed_");
                push_i64(&mut out, *status as i64);
                out
            },
            ProbeEnumerationError::NoUsableSources => String::from_str("camera_enumeration_no_usable_sources"),
            ProbeEnumerationError::NoPrivateCameraSource => String::from_str("no_private_camera_source"),
            ProbeEnumerationError::SelectedSourceMissingPrivateSize => String::from_str(
                "selected_source_missing_private_size",
            ),
        }
    }
}

/// What the probe captures: the selected source and its capture size.
#[derive(Clone, Copy, Debug, PartialEq, Eq, Structural)]
pub struct ProbeCapture {
    pub selected_index: usize,
    pub width: u32,
    pub height: u32,
}

/// Chooses what the probe captures among the enumerated sources: the best
/// source and its capture size, or why there is none.
pub fn select_probe_capture<I, T, R>(sources: &Vec<CameraSource<I, T, R>>) -> (r: Result<ProbeCapture, ProbeEnumerationError>)
    requires
        sources_scorable(sources@),
    ensures
        match r {
            Ok(c) => is_last_best_source(sources@, c.selected_index as int) && capture_choice(
                sources@[c.selected_index as int].private_sizes@,
            ) == Some((c.width, c.height)),
            Err(ProbeEnumerationError::NoPrivateCameraSource) => forall|j: int|
                0 <= j < sources@.len() ==> !source_eligible(#[trigger] sources@[j]),
            Err(ProbeEnumerationError::SelectedSourceMissingPrivateSize) => exists|i: int|
                is_last_best_source(sources@, i) && capture_choice(sources@[i].private_sizes@) is None,
            Err(_) => false,
        },
{
    let selected = match select_camera_source(sources) {
        Some(i) => i,
        None => {
            return Err(ProbeEnumerationError::NoPrivateCameraSource);
        },
    };
    match select_capture_size(&sources[selected]) {
        Some((width, height)) => Ok(ProbeCapture { selected_index: selected, width, height }),
        None => Err(ProbeEnumerationError::SelectedSourceMissingPrivateSize),
    }
}

/// The source enumeration result: the sources read, or
/// `camera_enumeration_no_usable_sources` when none was usable.
pub fn usable_sources<I, T, R>(sources: Vec<CameraSource<I, T, R>>) -> (r: Result<Vec<CameraSource<I, T, R>>, ProbeEnumerationError>)
    ensures
        sources@.len() == 0 ==> r == Err::<Vec<CameraSource<I, T, R>>, ProbeEnumerationError>(
            ProbeEnumerationError::NoUsableSources,
        ),
        sources@.len() > 0 ==> (r matches Ok(v) && v@ == sources@),
{
    if sources.len() == 0 {
        Err(ProbeEnumerationError::NoUsableSources)
    } else {
        Ok(sources)
    }
}

} // verus!
