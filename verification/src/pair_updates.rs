//! How the chosen camera pair is updated after it was picked: by a broker
//! H.264 stream header (camera id and delivered size of its eye, projection
//! readiness and pose source from both eyes' headers), and by a refreshed
//! Camera2 stereo plan of the same cameras and size.
use vstd::prelude::*;
use crate::camera_pairing::{
    display_source_eye_mapping, display_source_eye_mapping_spec, opt_view, Camera2StereoPlan,
    MakepadCameraPair,
};
use crate::orientation::{broker_pair_pose_source, merged, StimulusOrientation};
use crate::stereo_frames::StereoEye;

verus! {

/// The fields of a broker stream header that the pair reads.
pub struct BrokerStreamHeader {
    pub camera_id: String,
    pub delivered_width: u32,
    pub delivered_height: u32,
    pub projection_metadata_ready: bool,
    pub orientation: StimulusOrientation,
}

/// A delivered size, or the size already known when the header gives 0.
pub open spec fn delivered_or(delivered: u32, known: usize) -> usize {
    if delivered > 0 {
        delivered as usize
    } else {
        known
    }
}

/// Projection metadata is ready once the headers of both eyes say so.
pub open spec fn headers_ready(left: Option<BrokerStreamHeader>, right: Option<BrokerStreamHeader>) -> bool {
    match (left, right) {
        (Some(l), Some(r)) => l.projection_metadata_ready && r.projection_metadata_ready,
        _ => false,
    }
}

/// The pose source after a header: that of both eyes once both headers are
/// in, else the one of the header just received.
pub open spec fn header_pose_source(
    latest: BrokerStreamHeader,
    left: Option<BrokerStreamHeader>,
    right: Option<BrokerStreamHeader>,
) -> Seq<char> {
    match (left, right) {
        (Some(l), Some(r)) => merged(l.orientation.pose_source@, r.orientation.pose_source@),
        _ => latest.orientation.pose_source@,
    }
}

/// The fallback reason of a pair bound by stream headers.
pub open spec fn header_fallback_reason(ready: bool) -> Seq<char> {
    if ready {
        "waiting_for_runtime_xr_view_projection"@
    } else {
        "broker_stream_metadata_not_projection_ready"@
    }
}

impl<I, M, C> MakepadCameraPair<I, M, C> {
    /// Applies the header just received for `side`; `left` and `right` are
    /// the headers held for both eyes, the new one included.
    pub fn apply_broker_stream_header(
        &mut self,
        side: StereoEye,
        left: &Option<BrokerStreamHeader>,
        right: &Option<BrokerStreamHeader>,
    )
        requires
            side == StereoEye::Left ==> left.is_some(),
            side == StereoEye::Right ==> right.is_some(),
        ensures
            ({
                let latest = if side == StereoEye::Left {
                    left.unwrap()
                } else {
                    right.unwrap()
                };
                let (was, now, other_was, other_now) = if side == StereoEye::Left {
                    (old(self).left, final(self).left, old(self).right, final(self).right)
                } else {
                    (old(self).right, final(self).right, old(self).left, final(self).left)
                };
                &&& now.camera_id is Some
                &&& now.camera_id->0@ == latest.camera_id@
                &&& now.width == delivered_or(latest.delivered_width, was.width)
                &&& now.height == delivered_or(latest.delivered_height, was.height)
                &&& now.source_index == was.source_index
                &&& now.input == was.input
                &&& now.source_class == was.source_class
                &&& now.frame_rate_milli == was.frame_rate_milli
                &&& now.pixel_format == was.pixel_format
                &&& other_now == other_was
                &&& final(self).projection_metadata_ready == headers_ready(*left, *right)
                &&& final(self).pose_source@ == header_pose_source(latest, *left, *right)
                &&& final(self).source_binding_mode@ == "broker-h264-stream-header"@
                &&& final(self).coordinate_chain@ == "broker-h264-stream-header-to-runtime-openxr-view"@
                &&& final(self).fallback_reason@ == header_fallback_reason(headers_ready(*left, *right))
            }),
            final(self).projection_geometry_profile == old(self).projection_geometry_profile,
            final(self).source_eye_mapping == old(self).source_eye_mapping,
            final(self).homographies == old(self).homographies,
            final(self).projection_homography_ready == old(self).projection_homography_ready,
            final(self).runtime_xr_view_state_ready == old(self).runtime_xr_view_state_ready,
            final(self).openxr_contract == old(self).openxr_contract,
    {
        let latest = match side {
            StereoEye::Left => left.as_ref().unwrap(),
            StereoEye::Right => right.as_ref().unwrap(),
        };
        match side {
            StereoEye::Left => {
                self.left.camera_id = Some(latest.camera_id.clone());
                if latest.delivered_width > 0 {
                    self.left.width = latest.delivered_width as usize;
                }
                if latest.delivered_height > 0 {
                    self.left.height = latest.delivered_height as usize;
                }
            },
            StereoEye::Right => {
                self.right.camera_id = Some(latest.camera_id.clone());
                if latest.delivered_width > 0 {
                    self.right.width = latest.delivered_width as usize;
                }
                if latest.delivered_height > 0 {
                    self.right.height = latest.delivered_height as usize;
                }
            },
        }
        let ready = match (left, right) {
            (Some(l), Some(r)) => l.projection_metadata_ready && r.projection_metadata_ready,
            _ => false,
        };
        self.projection_metadata_ready = ready;
        self.pose_source = match (left, right) {
            (Some(l), Some(r)) => broker_pair_pose_source(&l.orientation, &r.orientation),
            _ => latest.orientation.pose_source.clone(),
        };
        self.source_binding_mode = String::from_str("broker-h264-stream-header");
        self.coordinate_chain = String::from_str("broker-h264-stream-header-to-runtime-openxr-view");
        self.fallback_reason = if ready {
            String::from_str("waiting_for_runtime_xr_view_projection")
        } else {
            String::from_str("broker_stream_metadata_not_projection_ready")
        };
    }
}

/// Whether a refreshed plan applies to the pair: same cameras (by ids or
/// source indices) and the same size on both eyes.
pub open spec fn plan_applies<I, M, C>(pair: MakepadCameraPair<I, M, C>, plan: Camera2StereoPlan<M, C>) -> bool {
    &&& (((pair.left.camera_id matches Some(l) && l@ == plan.left_camera_id@) && (
    pair.right.camera_id matches Some(r) && r@ == plan.right_camera_id@)) || (pair.left.source_index
        == plan.left_source_index && pair.right.source_index == plan.right_source_index))
    &&& pair.left.width == plan.width as usize
    &&& pair.left.height == plan.height as usize
    &&& pair.right.width == plan.width as usize
    &&& pair.right.height == plan.height as usize
}

impl<I: Copy, M: Copy, C: Copy> MakepadCameraPair<I, M, C> {
    /// Takes over the projection state of a refreshed Camera2 plan when the
    /// plan is for the pair's cameras at the pair's size; returns whether it
    /// did. The chosen inputs, profile and binding mode stay as they are.
    pub fn refresh_from_camera2_plan(&mut self, plan: &Camera2StereoPlan<M, C>, eye_mapping_config: Option<&str>) -> (applied: bool)
        ensures
            applied == plan_applies(*old(self), *plan),
            !applied ==> *final(self) == *old(self),
            applied ==> {
                &&& final(self).left == old(self).left
                &&& final(self).right == old(self).right
                &&& final(self).projection_geometry_profile == old(self).projection_geometry_profile
                &&& final(self).source_binding_mode == old(self).source_binding_mode
                &&& final(self).projection_metadata_ready == plan.projection_metadata_ready
                &&& final(self).pose_source@ == plan.pose_source@
                &&& final(self).source_eye_mapping@ == display_source_eye_mapping_spec(
                    opt_view(eye_mapping_config),
                )
                &&& final(self).coordinate_chain@ == plan.coordinate_chain@
                &&& final(self).fallback_reason@ == plan.fallback_reason@
                &&& final(self).homographies == plan.homographies
                &&& final(self).projection_homography_ready == plan.projection_homography_ready
                &&& final(self).runtime_xr_view_state_ready == plan.runtime_xr_view_state_ready
                &&& final(self).openxr_contract == Some(plan.openxr_contract)
            },
    {
        let width = plan.width as usize;
        let height = plan.height as usize;
        if !self.matches_camera2_plan(plan) || self.left.width != width || self.left.height != height
            || self.right.width != width || self.right.height != height {
            return false;
        }
        self.projection_metadata_ready = plan.projection_metadata_ready;
        self.pose_source = plan.pose_source.clone();
        self.source_eye_mapping = String::from_str(display_source_eye_mapping(eye_mapping_config));
        self.coordinate_chain = plan.coordinate_chain.clone();
        self.fallback_reason = plan.fallback_reason.clone();
        self.homographies = plan.homographies;
        self.projection_homography_ready = plan.projection_homography_ready;
        self.runtime_xr_view_state_ready = plan.runtime_xr_view_state_ready;
        self.openxr_contract = Some(plan.openxr_contract);
        true
    }
}

} // verus!

