//! How the projection panel is bound to the imported camera textures: when a
//! binding is already current, which texture path the shader samples, and
//! which imported YUV plane set feeds each side of the panel.
use vstd::prelude::*;
use crate::texture_path::MakepadCameraTexturePath;

verus! {

/// One of the two imported sets of Y, U and V plane textures.
#[derive(Clone, Copy, Debug, PartialEq, Eq, Structural)]
pub enum YuvPlaneSet {
    Left,
    Right,
}

/// Which sides carried fresh YUV planes when the panel was bound.
#[derive(Clone, Copy, Debug, PartialEq, Eq, Structural)]
pub enum ProofSourceSide {
    Paired,
    Left,
    Right,
    ReadyOnly,
}

impl ProofSourceSide {
    /// The marker label of the side.
    pub open spec fn label_spec(self) -> Seq<char> {
        match self {
            ProofSourceSide::Paired => "paired"@,
            ProofSourceSide::Left => "left"@,
            ProofSourceSide::Right => "right"@,
            ProofSourceSide::ReadyOnly => "ready-only"@,
        }
    }

    /// The marker label of the side.
    pub fn label(self) -> (label: &'static str)
        ensures
            label@ == self.label_spec(),
    {
        match self {
            ProofSourceSide::Paired => "paired",
            ProofSourceSide::Left => "left",
            ProofSourceSide::Right => "right",
            ProofSourceSide::ReadyOnly => "ready-only",
        }
    }
}

/// What the adopted stereo frame tells the binding.
#[derive(Clone, Copy, Debug, PartialEq, Eq, Structural)]
pub struct AdoptedFrameBinding {
    pub adoption_id: u64,
    pub left_yuv_enabled: bool,
    pub right_yuv_enabled: bool,
    pub left_texture_path: MakepadCameraTexturePath,
}

/// The state of the paired import: which sides were updated since the import
/// started, and which sides have YUV plane textures.
#[derive(Clone, Copy, Debug, PartialEq, Eq, Structural)]
pub struct PairedImportYuv {
    pub left_updated: bool,
    pub right_updated: bool,
    pub left_planes_ready: bool,
    pub right_planes_ready: bool,
}

/// What the panel was last bound to.
#[derive(Clone, Copy, Debug, PartialEq, Eq, Structural)]
pub struct PanelBindingState {
    pub textures_bound: bool,
    pub paired_textures_bound: bool,
    pub bound_adopted_frame_id: u64,
}

/// A binding to apply to the panel.
#[derive(Clone, Copy, Debug, PartialEq, Eq, Structural)]
pub struct PanelBinding {
    /// Whether the binding markers are emitted (first binding, or a new
    /// adopted frame).
    pub emit_markers: bool,
    pub texture_path: MakepadCameraTexturePath,
    pub proof_source_side: ProofSourceSide,
    /// The panel shows a single updated stream rather than a pair.
    pub single_stream_visual_proof: bool,
    /// Broker frames arrive as CPU-decoded YUV planes.
    pub cpu_yuv_decode: bool,
    pub left_yuv: Option<YuvPlaneSet>,
    pub right_yuv: Option<YuvPlaneSet>,
}

/// The outcome of a binding attempt.
#[derive(Clone, Copy, Debug, PartialEq, Eq, Structural)]
pub enum PanelBindingPlan {
    /// The panel already shows these textures; nothing to do.
    AlreadyBound,
    /// The paired import has not produced both textures and a pair yet.
    ImportIncomplete,
    /// A direct-camera YUV path lacks the plane textures of a side.
    YuvPlanesMissing,
    /// Bind the panel as described.
    Bind(PanelBinding),
}

impl PanelBindingState {
    /// Nothing bound yet.
    pub fn new() -> (state: Self)
        ensures
            state == (PanelBindingState {
                textures_bound: false,
                paired_textures_bound: false,
                bound_adopted_frame_id: 0,
            }),
    {
        PanelBindingState { textures_bound: false, paired_textures_bound: false, bound_adopted_frame_id: 0 }
    }

    /// Records that the panel now shows `binding` for the adopted frame.
    pub fn record_bound(&mut self, adopted: Option<AdoptedFrameBinding>, binding: &PanelBinding)
        ensures
            *final(self) == recorded_binding(adopted, *binding),
    {
        self.textures_bound = true;
        self.paired_textures_bound = !binding.single_stream_visual_proof;
        self.bound_adopted_frame_id = match adopted {
            Some(a) => a.adoption_id,
            None => 0,
        };
    }
}

/// The id of the adopted frame, 0 when none is adopted.
pub open spec fn adopted_frame_id(adopted: Option<AdoptedFrameBinding>) -> u64 {
    match adopted {
        Some(a) => a.adoption_id,
        None => 0,
    }
}

/// The state after the panel was bound as `binding` for `adopted`.
pub open spec fn recorded_binding(adopted: Option<AdoptedFrameBinding>, binding: PanelBinding) -> PanelBindingState {
    PanelBindingState {
        textures_bound: true,
        paired_textures_bound: !binding.single_stream_visual_proof,
        bound_adopted_frame_id: adopted_frame_id(adopted),
    }
}

/// The panel shows the current textures: it is bound, paired whenever a
/// stereo frame is adopted, and bound to the adopted frame.
pub open spec fn binding_current(state: PanelBindingState, adopted: Option<AdoptedFrameBinding>) -> bool {
    &&& state.textures_bound
    &&& (adopted is None || state.paired_textures_bound)
    &&& state.bound_adopted_frame_id == adopted_frame_id(adopted)
}

/// Whether a side counts as freshly updated: by the adopted frame when there
/// is one, else by the paired import.
pub open spec fn side_fresh(adopted_enabled: Option<bool>, import_updated: bool) -> bool {
    match adopted_enabled {
        Some(enabled) => enabled,
        None => import_updated,
    }
}

/// The plane set of a side when it is fresh and has planes.
pub open spec fn updated_planes(fresh: bool, ready: bool, set: YuvPlaneSet) -> Option<YuvPlaneSet> {
    if fresh && ready {
        Some(set)
    } else {
        None
    }
}

/// The plane set of a side if it has planes.
pub open spec fn ready_planes(ready: bool, set: YuvPlaneSet) -> Option<YuvPlaneSet> {
    if ready {
        Some(set)
    } else {
        None
    }
}

/// The first of two options that is there.
pub open spec fn or_else(a: Option<YuvPlaneSet>, b: Option<YuvPlaneSet>) -> Option<YuvPlaneSet> {
    match a {
        Some(x) => Some(x),
        None => b,
    }
}

/// The freshly updated plane sets of the left and right side.
pub open spec fn updated_yuv_spec(adopted: Option<AdoptedFrameBinding>, yuv: PairedImportYuv) -> (
    Option<YuvPlaneSet>,
    Option<YuvPlaneSet>,
) {
    let left_fresh = side_fresh(
        match adopted {
            Some(a) => Some(a.left_yuv_enabled),
            None => None,
        },
        yuv.left_updated,
    );
    let right_fresh = side_fresh(
        match adopted {
            Some(a) => Some(a.right_yuv_enabled),
            None => None,
        },
        yuv.right_updated,
    );
    (
        updated_planes(left_fresh, yuv.left_planes_ready, YuvPlaneSet::Left),
        updated_planes(right_fresh, yuv.right_planes_ready, YuvPlaneSet::Right),
    )
}

/// Which sides were fresh.
pub open spec fn proof_side_spec(left: Option<YuvPlaneSet>, right: Option<YuvPlaneSet>) -> ProofSourceSide {
    match (left, right) {
        (Some(_), Some(_)) => ProofSourceSide::Paired,
        (Some(_), None) => ProofSourceSide::Left,
        (None, Some(_)) => ProofSourceSide::Right,
        (None, None) => ProofSourceSide::ReadyOnly,
    }
}

/// The plane sources of both sides: the fresh sets, a single fresh set
/// shown on both sides, or with nothing fresh the sets that are ready.
pub open spec fn yuv_sources_spec(
    left: Option<YuvPlaneSet>,
    right: Option<YuvPlaneSet>,
    yuv: PairedImportYuv,
) -> (Option<YuvPlaneSet>, Option<YuvPlaneSet>) {
    match (left, right) {
        (Some(l), Some(r)) => (Some(l), Some(r)),
        (Some(l), None) => (Some(l), Some(l)),
        (None, Some(r)) => (Some(r), Some(r)),
        (None, None) => {
            let left_ready = or_else(
                ready_planes(yuv.left_planes_ready, YuvPlaneSet::Left),
                ready_planes(yuv.right_planes_ready, YuvPlaneSet::Right),
            );
            let right_ready = or_else(ready_planes(yuv.right_planes_ready, YuvPlaneSet::Right), left_ready);
            (left_ready, right_ready)
        },
    }
}

/// The binding plan of the panel.
pub open spec fn panel_binding_plan_spec(
    state: PanelBindingState,
    adopted: Option<AdoptedFrameBinding>,
    import_complete: bool,
    yuv: PairedImportYuv,
    broker_h264_enabled: bool,
    camera_texture_binding_enabled: bool,
    broker_requested_path: MakepadCameraTexturePath,
    direct_path: MakepadCameraTexturePath,
) -> PanelBindingPlan {
    if binding_current(state, adopted) {
        PanelBindingPlan::AlreadyBound
    } else if !import_complete {
        PanelBindingPlan::ImportIncomplete
    } else {
        let emit_markers = !state.textures_bound || state.bound_adopted_frame_id != adopted_frame_id(
            adopted,
        );
        let (left_updated, right_updated) = updated_yuv_spec(adopted, yuv);
        let side = proof_side_spec(left_updated, right_updated);
        let (left_src, right_src) = yuv_sources_spec(left_updated, right_updated, yuv);
        let single = adopted is None && !(yuv.left_updated && yuv.right_updated);
        let cpu = broker_h264_enabled && (left_src is Some || right_src is Some
            || yuv.left_planes_ready || yuv.right_planes_ready);
        let path = match adopted {
            Some(a) => a.left_texture_path,
            None => if broker_h264_enabled {
                if cpu {
                    MakepadCameraTexturePath::BrokerH264CpuYuv
                } else {
                    broker_requested_path
                }
            } else {
                direct_path
            },
        };
        let binding = |l: Option<YuvPlaneSet>, r: Option<YuvPlaneSet>|
            PanelBinding {
                emit_markers,
                texture_path: path,
                proof_source_side: side,
                single_stream_visual_proof: single,
                cpu_yuv_decode: cpu,
                left_yuv: l,
                right_yuv: r,
            };
        if !camera_texture_binding_enabled || !path.yuv_sampling_spec() {
            PanelBindingPlan::Bind(binding(None, None))
        } else if broker_h264_enabled {
            let l = or_else(
                or_else(or_else(left_src, right_src), ready_planes(yuv.left_planes_ready, YuvPlaneSet::Left)),
                ready_planes(yuv.right_planes_ready, YuvPlaneSet::Right),
            );
            let r = or_else(
                or_else(or_else(right_src, left_src), ready_planes(yuv.right_planes_ready, YuvPlaneSet::Right)),
                l,
            );
            PanelBindingPlan::Bind(binding(l, r))
        } else if left_src is Some && right_src is Some {
            PanelBindingPlan::Bind(binding(left_src, right_src))
        } else {
            PanelBindingPlan::YuvPlanesMissing
        }
    }
}

fn first_of(a: Option<YuvPlaneSet>, b: Option<YuvPlaneSet>) -> (r: Option<YuvPlaneSet>)
    ensures
        r == or_else(a, b),
{
    match a {
        Some(x) => Some(x),
        None => b,
    }
}

fn planes_if(ready: bool, set: YuvPlaneSet) -> (r: Option<YuvPlaneSet>)
    ensures
        r == ready_planes(ready, set),
{
    if ready {
        Some(set)
    } else {
        None
    }
}

/// Decides how to bind the projection panel: skip when the current binding
/// already shows the adopted frame, wait while the import is incomplete or a
/// direct-camera YUV path lacks planes, else bind with the texture path and
/// the plane set of each side.
pub fn plan_panel_binding(
    state: &PanelBindingState,
    adopted: Option<AdoptedFrameBinding>,
    import_complete: bool,
    yuv: PairedImportYuv,
    broker_h264_enabled: bool,
    camera_texture_binding_enabled: bool,
    broker_requested_path: MakepadCameraTexturePath,
    direct_path: MakepadCameraTexturePath,
) -> (plan: PanelBindingPlan)
    ensures
        plan == panel_binding_plan_spec(
            *state,
            adopted,
            import_complete,
            yuv,
            broker_h264_enabled,
            camera_texture_binding_enabled,
            broker_requested_path,
            direct_path,
        ),
{
    let adopted_id: u64 = match adopted {
        Some(a) => a.adoption_id,
        None => 0,
    };
    if state.textures_bound && (adopted.is_none() || state.paired_textures_bound)
        && state.bound_adopted_frame_id == adopted_id {
        return PanelBindingPlan::AlreadyBound;
    }
    if !import_complete {
        return PanelBindingPlan::ImportIncomplete;
    }
    let emit_markers = !state.textures_bound || state.bound_adopted_frame_id != adopted_id;
    let left_fresh = match adopted {
        Some(a) => a.left_yuv_enabled,
        None => yuv.left_updated,
    };
    let right_fresh = match adopted {
        Some(a) => a.right_yuv_enabled,
        None => yuv.right_updated,
    };
    let left_updated = if left_fresh && yuv.left_planes_ready {
        Some(YuvPlaneSet::Left)
    } else {
        None
    };
    let right_updated = if right_fresh && yuv.right_planes_ready {
        Some(YuvPlaneSet::Right)
    } else {
        None
    };
    let side = match (left_updated, right_updated) {
        (Some(_), Some(_)) => ProofSourceSide::Paired,
        (Some(_), None) => ProofSourceSide::Left,
        (None, Some(_)) => ProofSourceSide::Right,
        (None, None) => ProofSourceSide::ReadyOnly,
    };
    let (left_src, right_src) = match (left_updated, right_updated) {
        (Some(l), Some(r)) => (Some(l), Some(r)),
        (Some(l), None) => (Some(l), Some(l)),
        (None, Some(r)) => (Some(r), Some(r)),
        (None, None) => {
            let left_ready = first_of(
                planes_if(yuv.left_planes_ready, YuvPlaneSet::Left),
                planes_if(yuv.right_planes_ready, YuvPlaneSet::Right),
            );
            let right_ready = first_of(planes_if(yuv.right_planes_ready, YuvPlaneSet::Right), left_ready);
            (left_ready, right_ready)
        },
    };
    let single = adopted.is_none() && !(yuv.left_updated && yuv.right_updated);
    let cpu = broker_h264_enabled && (left_src.is_some() || right_src.is_some() || yuv.left_planes_ready
        || yuv.right_planes_ready);
    let path = match adopted {
        Some(a) => a.left_texture_path,
        None => if broker_h264_enabled {
            if cpu {
                MakepadCameraTexturePath::BrokerH264CpuYuv
            } else {
                broker_requested_path
            }
        } else {
            direct_path
        },
    };
    let (l, r) = if !camera_texture_binding_enabled || !path.yuv_sampling_enabled() {
        (None, None)
    } else if broker_h264_enabled {
        let l = first_of(
            first_of(first_of(left_src, right_src), planes_if(yuv.left_planes_ready, YuvPlaneSet::Left)),
            planes_if(yuv.right_planes_ready, YuvPlaneSet::Right),
        );
        let r = first_of(
            first_of(first_of(right_src, left_src), planes_if(yuv.right_planes_ready, YuvPlaneSet::Right)),
            l,
        );
        (l, r)
    } else if left_src.is_some() && right_src.is_some() {
        (left_src, right_src)
    } else {
        return PanelBindingPlan::YuvPlanesMissing;
    };
    PanelBindingPlan::Bind(
        PanelBinding {
            emit_markers,
            texture_path: path,
            proof_source_side: side,
            single_stream_visual_proof: single,
            cpu_yuv_decode: cpu,
            left_yuv: l,
            right_yuv: r,
        },
    )
}

/// Once a binding is recorded, asking again with the same inputs finds it
/// current: the panel is not bound twice to the same adopted frame.
pub proof fn lemma_recorded_binding_is_current(
    state: PanelBindingState,
    adopted: Option<AdoptedFrameBinding>,
    import_complete: bool,
    yuv: PairedImportYuv,
    broker_h264_enabled: bool,
    camera_texture_binding_enabled: bool,
    broker_requested_path: MakepadCameraTexturePath,
    direct_path: MakepadCameraTexturePath,
    binding: PanelBinding,
)
    requires
        panel_binding_plan_spec(
            state,
            adopted,
            import_complete,
            yuv,
            broker_h264_enabled,
            camera_texture_binding_enabled,
            broker_requested_path,
            direct_path,
        ) == PanelBindingPlan::Bind(binding),
    ensures
        panel_binding_plan_spec(
            recorded_binding(adopted, binding),
            adopted,
            import_complete,
            yuv,
            broker_h264_enabled,
            camera_texture_binding_enabled,
            broker_requested_path,
            direct_path,
        ) == PanelBindingPlan::AlreadyBound,
{
}

/// Whenever a plan binds, each side that samples YUV planes gets a plane
/// set, and a side gets a set only if that set's planes are ready.
pub proof fn lemma_bound_planes_are_ready(
    state: PanelBindingState,
    adopted: Option<AdoptedFrameBinding>,
    import_complete: bool,
    yuv: PairedImportYuv,
    broker_h264_enabled: bool,
    camera_texture_binding_enabled: bool,
    broker_requested_path: MakepadCameraTexturePath,
    direct_path: MakepadCameraTexturePath,
    binding: PanelBinding,
)
    requires
        panel_binding_plan_spec(
            state,
            adopted,
            import_complete,
            yuv,
            broker_h264_enabled,
            camera_texture_binding_enabled,
            broker_requested_path,
            direct_path,
        ) == PanelBindingPlan::Bind(binding),
    ensures
        binding.left_yuv == Some(YuvPlaneSet::Left) ==> yuv.left_planes_ready,
        binding.left_yuv == Some(YuvPlaneSet::Right) ==> yuv.right_planes_ready,
        binding.right_yuv == Some(YuvPlaneSet::Left) ==> yuv.left_planes_ready,
        binding.right_yuv == Some(YuvPlaneSet::Right) ==> yuv.right_planes_ready,
        binding.left_yuv is Some <==> binding.right_yuv is Some,
        (camera_texture_binding_enabled && binding.texture_path.yuv_sampling_spec() && (
        yuv.left_planes_ready || yuv.right_planes_ready)) ==> binding.left_yuv is Some,
{
}


/// Each eye keeps its own planes: whenever the panel samples YUV planes, a
/// side that was freshly updated and has ready planes is bound to its own
/// plane set, on the broker path as on the direct path; so with both sides
/// fresh and ready, left samples the left set and right the right set.
pub proof fn lemma_fresh_sides_keep_their_own_planes(
    state: PanelBindingState,
    adopted: Option<AdoptedFrameBinding>,
    import_complete: bool,
    yuv: PairedImportYuv,
    broker_h264_enabled: bool,
    camera_texture_binding_enabled: bool,
    broker_requested_path: MakepadCameraTexturePath,
    direct_path: MakepadCameraTexturePath,
    binding: PanelBinding,
)
    requires
        panel_binding_plan_spec(
            state,
            adopted,
            import_complete,
            yuv,
            broker_h264_enabled,
            camera_texture_binding_enabled,
            broker_requested_path,
            direct_path,
        ) == PanelBindingPlan::Bind(binding),
        camera_texture_binding_enabled,
        binding.texture_path.yuv_sampling_spec(),
    ensures
        (match adopted {
            Some(a) => a.left_yuv_enabled,
            None => yuv.left_updated,
        }) && yuv.left_planes_ready ==> binding.left_yuv == Some(YuvPlaneSet::Left),
        (match adopted {
            Some(a) => a.right_yuv_enabled,
            None => yuv.right_updated,
        }) && yuv.right_planes_ready ==> binding.right_yuv == Some(YuvPlaneSet::Right),
{
}

} // verus!
