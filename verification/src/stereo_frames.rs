//! Pairing the latest left and right camera frames into the stereo frame
//! that the panel shows: the timing comparison of two frames and the
//! adoption rule that only ever moves both eyes forward.
use vstd::prelude::*;
use crate::text::{
    bool_text, dec_int, dec_nat, i64_text, marker_value, marker_value_spec, push_bool, push_i64,
    push_u128, push_u64, u64_text,
};
use crate::texture_path::MakepadCameraTexturePath;

verus! {

/// One eye of the stereo panel.
#[derive(Clone, Copy, Debug, PartialEq, Eq, Structural)]
pub enum StereoEye {
    Left,
    Right,
}

impl StereoEye {
    /// The marker label of the eye.
    pub open spec fn label_spec(self) -> Seq<char> {
        match self {
            StereoEye::Left => "left"@,
            StereoEye::Right => "right"@,
        }
    }

    /// The marker label of the eye.
    pub fn label(self) -> (label: &'static str)
        ensures
            label@ == self.label_spec(),
    {
        proof {
            reveal_strlit("left");
            reveal_strlit("right");
        }
        match self {
            StereoEye::Left => "left",
            StereoEye::Right => "right",
        }
    }
}

/// Two frames at most this far apart in camera time count as a close match.
pub const CAMERA_PAIR_CLOSE_TIMESTAMP_NS: u64 = 25_000_000;

/// One camera frame as it reached a texture of the panel. `payload` carries
/// what the platform reported with it (YUV layout, rotation) unread.
#[derive(Clone, Copy, Debug)]
pub struct CameraTextureFrameSample<P> {
    pub side: StereoEye,
    pub camera_frame_sequence: Option<u64>,
    pub camera_timestamp_ns: Option<u64>,
    pub texture_path: MakepadCameraTexturePath,
    pub position_ms: u128,
    pub texture_update_count: u64,
    pub payload: P,
}

impl<P> CameraTextureFrameSample<P> {
    /// A frame sample of `side`.
    pub fn new(
        side: StereoEye,
        camera_frame_sequence: Option<u64>,
        camera_timestamp_ns: Option<u64>,
        position_ms: u128,
        texture_update_count: u64,
        texture_path: MakepadCameraTexturePath,
        payload: P,
    ) -> (sample: Self)
        ensures
            sample == (CameraTextureFrameSample {
                side,
                camera_frame_sequence,
                camera_timestamp_ns,
                texture_path,
                position_ms,
                texture_update_count,
                payload,
            }),
    {
        CameraTextureFrameSample {
            side,
            camera_frame_sequence,
            camera_timestamp_ns,
            texture_path,
            position_ms,
            texture_update_count,
            payload,
        }
    }
}

/// How well two frames of a stereo pair line up in time.
#[derive(Clone, Copy, Debug, PartialEq, Eq, Structural)]
pub enum PairingStatus {
    /// Both frames carry the same camera frame sequence number.
    SequenceMatch,
    /// The frames are within the close-timestamp window.
    TimestampClose,
    /// The frames carry timing that does not line up.
    LatestCompleteWithTimingGap,
    /// Neither frame carries timing.
    LatestCompleteNoFrameTiming,
}

impl PairingStatus {
    /// The marker label of the status.
    pub open spec fn label_spec(self) -> Seq<char> {
        match self {
            PairingStatus::SequenceMatch => "sequence-match"@,
            PairingStatus::TimestampClose => "timestamp-close"@,
            PairingStatus::LatestCompleteWithTimingGap => "latest-complete-with-timing-gap"@,
            PairingStatus::LatestCompleteNoFrameTiming => "latest-complete-no-frame-timing"@,
        }
    }

    /// The marker label of the status.
    pub fn label(self) -> (label: &'static str)
        ensures
            label@ == self.label_spec(),
    {
        proof {
            reveal_strlit("sequence-match");
            reveal_strlit("timestamp-close");
            reveal_strlit("latest-complete-with-timing-gap");
            reveal_strlit("latest-complete-no-frame-timing");
        }
        match self {
            PairingStatus::SequenceMatch => "sequence-match",
            PairingStatus::TimestampClose => "timestamp-close",
            PairingStatus::LatestCompleteWithTimingGap => "latest-complete-with-timing-gap",
            PairingStatus::LatestCompleteNoFrameTiming => "latest-complete-no-frame-timing",
        }
    }
}

/// The timing comparison of the two frames of a stereo pair.
#[derive(Clone, Copy, Debug, PartialEq, Eq, Structural)]
pub struct StereoFramePairing {
    pub status: PairingStatus,
    pub sequence_delta: Option<i64>,
    pub timestamp_delta_ns: Option<u64>,
    pub close_timestamp_match: bool,
}

/// Whether the sequence difference of two frames is computable: the
/// sequences read as `i64`, as the comparison reads them, differ by an
/// amount that fits in `i64`.
pub open spec fn sequence_delta_fits(left: Option<u64>, right: Option<u64>) -> bool {
    match (left, right) {
        (Some(l), Some(r)) => i64::MIN <= (l as i64) - (r as i64) <= i64::MAX,
        _ => true,
    }
}

/// The comparison of two frames: the sequence difference (left minus right,
/// each read as `i64`), the timestamp distance, whether that distance is
/// within the close window, and the status those give.
pub open spec fn pairing_spec(
    left_sequence: Option<u64>,
    right_sequence: Option<u64>,
    left_timestamp: Option<u64>,
    right_timestamp: Option<u64>,
) -> StereoFramePairing {
    let sequence_delta = match (left_sequence, right_sequence) {
        (Some(l), Some(r)) => Some(((l as i64) - (r as i64)) as i64),
        _ => None,
    };
    let timestamp_delta_ns = match (left_timestamp, right_timestamp) {
        (Some(l), Some(r)) => Some(
            if l >= r {
                (l - r) as u64
            } else {
                (r - l) as u64
            },
        ),
        _ => None,
    };
    let close = match timestamp_delta_ns {
        Some(d) => d <= CAMERA_PAIR_CLOSE_TIMESTAMP_NS,
        None => false,
    };
    StereoFramePairing {
        status: if sequence_delta == Some(0i64) {
            PairingStatus::SequenceMatch
        } else if close {
            PairingStatus::TimestampClose
        } else if sequence_delta is Some || timestamp_delta_ns is Some {
            PairingStatus::LatestCompleteWithTimingGap
        } else {
            PairingStatus::LatestCompleteNoFrameTiming
        },
        sequence_delta,
        timestamp_delta_ns,
        close_timestamp_match: close,
    }
}

impl StereoFramePairing {
    /// Compares the timing of the left and right frames of a pair.
    pub fn from_samples<P>(left: &CameraTextureFrameSample<P>, right: &CameraTextureFrameSample<P>) -> (pairing: Self)
        requires
            sequence_delta_fits(left.camera_frame_sequence, right.camera_frame_sequence),
        ensures
            pairing == pairing_spec(
                left.camera_frame_sequence,
                right.camera_frame_sequence,
                left.camera_timestamp_ns,
                right.camera_timestamp_ns,
            ),
    {
        let sequence_delta: Option<i64> = match (left.camera_frame_sequence, right.camera_frame_sequence) {
            (Some(l), Some(r)) => Some((l as i64) - (r as i64)),
            _ => None,
        };
        let timestamp_delta_ns: Option<u64> = match (left.camera_timestamp_ns, right.camera_timestamp_ns) {
            (Some(l), Some(r)) => Some(
                if l >= r {
                    l - r
                } else {
                    r - l
                },
            ),
            _ => None,
        };
        let close = match timestamp_delta_ns {
            Some(d) => d <= CAMERA_PAIR_CLOSE_TIMESTAMP_NS,
            None => false,
        };
        let sequence_match = match sequence_delta {
            Some(d) => d == 0,
            None => false,
        };
        let status = if sequence_match {
            PairingStatus::SequenceMatch
        } else if close {
            PairingStatus::TimestampClose
        } else if sequence_delta.is_some() || timestamp_delta_ns.is_some() {
            PairingStatus::LatestCompleteWithTimingGap
        } else {
            PairingStatus::LatestCompleteNoFrameTiming
        };
        StereoFramePairing { status, sequence_delta, timestamp_delta_ns, close_timestamp_match: close }
    }
}

/// The decimal token of an optional count, `missing` when absent.
pub open spec fn optional_u64_token_spec(value: Option<u64>) -> Seq<char> {
    match value {
        Some(v) => dec_nat(v as nat),
        None => "missing"@,
    }
}

/// The decimal token of an optional count, `missing` when absent.
pub fn optional_u64_token(value: Option<u64>) -> (token: String)
    ensures
        token@ == optional_u64_token_spec(value),
{
    match value {
        Some(v) => u64_text(v),
        None => String::from_str("missing"),
    }
}

/// The decimal token of an optional signed value, `missing` when absent.
pub open spec fn optional_i64_token_spec(value: Option<i64>) -> Seq<char> {
    match value {
        Some(v) => dec_int(v as int),
        None => "missing"@,
    }
}

/// The decimal token of an optional signed value, `missing` when absent.
pub fn optional_i64_token(value: Option<i64>) -> (token: String)
    ensures
        token@ == optional_i64_token_spec(value),
{
    match value {
        Some(v) => i64_text(v),
        None => String::from_str("missing"),
    }
}


/// A count one step further, staying at `u64::MAX` once there.
pub open spec fn saturating_next(count: u64) -> u64 {
    if count == u64::MAX {
        count
    } else {
        (count + 1) as u64
    }
}

fn saturating_increment(count: u64) -> (next: u64)
    ensures
        next == saturating_next(count),
{
    if count == u64::MAX {
        count
    } else {
        count + 1
    }
}

/// The stereo frame the panel currently shows, with the pose it was
/// adopted under. `Q` is the XR pose snapshot, carried unread.
#[derive(Clone, Copy, Debug)]
pub struct AdoptedStereoCameraFrame<P, Q> {
    pub adoption_id: u64,
    pub left: CameraTextureFrameSample<P>,
    pub right: CameraTextureFrameSample<P>,
    pub pairing: StereoFramePairing,
    pub pose: Option<Q>,
}

impl<P, Q> AdoptedStereoCameraFrame<P, Q> {
    /// The adopted frame `adoption_id` made of `left` and `right`.
    pub fn new(
        adoption_id: u64,
        left: CameraTextureFrameSample<P>,
        right: CameraTextureFrameSample<P>,
        pose: Option<Q>,
    ) -> (frame: Self)
        requires
            sequence_delta_fits(left.camera_frame_sequence, right.camera_frame_sequence),
        ensures
            frame.adoption_id == adoption_id,
            frame.left == left,
            frame.right == right,
            frame.pose == pose,
            frame.pairing == pairing_spec(
                left.camera_frame_sequence,
                right.camera_frame_sequence,
                left.camera_timestamp_ns,
                right.camera_timestamp_ns,
            ),
    {
        let pairing = StereoFramePairing::from_samples(&left, &right);
        AdoptedStereoCameraFrame { adoption_id, left, right, pairing, pose }
    }
}

/// The frame bookkeeping of the panel: texture update counts per eye, the
/// latest frame of each eye waiting to be shown, the latest XR pose, and
/// the stereo frame adopted last.
pub struct StereoFrameTracker<P, Q> {
    pub left_texture_update_count: u64,
    pub right_texture_update_count: u64,
    pub left_last_position_ms: u128,
    pub right_last_position_ms: u128,
    pub pending_left: Option<CameraTextureFrameSample<P>>,
    pub pending_right: Option<CameraTextureFrameSample<P>>,
    pub last_pose: Option<Q>,
    pub next_adopted_id: u64,
    pub adopted: Option<AdoptedStereoCameraFrame<P, Q>>,
}

impl<P: Copy, Q: Copy> StereoFrameTracker<P, Q> {
    /// Whether the pending frames can be adopted: both eyes and a pose are
    /// there, and both eyes moved past the frame shown now.
    pub open spec fn adoption_ready(self) -> bool {
        &&& self.pending_left is Some
        &&& self.pending_right is Some
        &&& self.last_pose is Some
        &&& match self.adopted {
            Some(a) => {
                &&& self.pending_left->0.texture_update_count > a.left.texture_update_count
                &&& self.pending_right->0.texture_update_count > a.right.texture_update_count
            },
            None => true,
        }
    }

    /// Whether the pending frames, if both are there, can be compared.
    pub open spec fn pending_comparable(self) -> bool {
        match (self.pending_left, self.pending_right) {
            (Some(l), Some(r)) => sequence_delta_fits(l.camera_frame_sequence, r.camera_frame_sequence),
            _ => true,
        }
    }

    /// A tracker that has seen nothing.
    pub fn new() -> (tracker: Self)
        ensures
            tracker.left_texture_update_count == 0,
            tracker.right_texture_update_count == 0,
            tracker.left_last_position_ms == 0,
            tracker.right_last_position_ms == 0,
            tracker.pending_left is None,
            tracker.pending_right is None,
            tracker.last_pose is None,
            tracker.next_adopted_id == 0,
            tracker.adopted is None,
    {
        StereoFrameTracker {
            left_texture_update_count: 0,
            right_texture_update_count: 0,
            left_last_position_ms: 0,
            right_last_position_ms: 0,
            pending_left: None,
            pending_right: None,
            last_pose: None,
            next_adopted_id: 0,
            adopted: None,
        }
    }

    /// Counts a texture update of `side` at `position_ms`; returns the new
    /// count of that side.
    pub fn record_camera_texture_update(&mut self, side: StereoEye, position_ms: u128) -> (count: u64)
        ensures
            side == StereoEye::Left ==> {
                &&& count == saturating_next(old(self).left_texture_update_count)
                &&& *final(self) == (StereoFrameTracker {
                    left_texture_update_count: count,
                    left_last_position_ms: position_ms,
                    ..*old(self)
                })
            },
            side == StereoEye::Right ==> {
                &&& count == saturating_next(old(self).right_texture_update_count)
                &&& *final(self) == (StereoFrameTracker {
                    right_texture_update_count: count,
                    right_last_position_ms: position_ms,
                    ..*old(self)
                })
            },
    {
        match side {
            StereoEye::Left => {
                self.left_texture_update_count = saturating_increment(self.left_texture_update_count);
                self.left_last_position_ms = position_ms;
                self.left_texture_update_count
            },
            StereoEye::Right => {
                self.right_texture_update_count = saturating_increment(self.right_texture_update_count);
                self.right_last_position_ms = position_ms;
                self.right_texture_update_count
            },
        }
    }

    /// Keeps `sample` as the frame of its eye waiting to be shown.
    pub fn record_pending_camera_frame(&mut self, sample: CameraTextureFrameSample<P>)
        ensures
            sample.side == StereoEye::Left ==> *final(self) == (StereoFrameTracker {
                pending_left: Some(sample),
                ..*old(self)
            }),
            sample.side == StereoEye::Right ==> *final(self) == (StereoFrameTracker {
                pending_right: Some(sample),
                ..*old(self)
            }),
    {
        match sample.side {
            StereoEye::Left => {
                self.pending_left = Some(sample);
            },
            StereoEye::Right => {
                self.pending_right = Some(sample);
            },
        }
    }

    /// Keeps `pose` as the latest XR pose.
    pub fn record_xr_pose_snapshot(&mut self, pose: Q)
        ensures
            *final(self) == (StereoFrameTracker { last_pose: Some(pose), ..*old(self) }),
    {
        self.last_pose = Some(pose);
    }

    /// Adopts the pending frames as the stereo frame shown, when both eyes
    /// and a pose are there and both eyes moved past the frame shown now;
    /// returns whether it did. An adoption takes the next adoption id.
    pub fn try_adopt_pending_stereo_camera_frame(&mut self) -> (adopted: bool)
        requires
            old(self).pending_comparable(),
        ensures
            adopted == old(self).adoption_ready(),
            !adopted ==> *final(self) == *old(self),
            adopted ==> {
                let l = old(self).pending_left->0;
                let r = old(self).pending_right->0;
                let id = saturating_next(old(self).next_adopted_id);
                *final(self) == (StereoFrameTracker {
                    next_adopted_id: id,
                    adopted: Some(
                        AdoptedStereoCameraFrame {
                            adoption_id: id,
                            left: l,
                            right: r,
                            pairing: pairing_spec(
                                l.camera_frame_sequence,
                                r.camera_frame_sequence,
                                l.camera_timestamp_ns,
                                r.camera_timestamp_ns,
                            ),
                            pose: old(self).last_pose,
                        },
                    ),
                    ..*old(self)
                })
            },
    {
        let (left, right) = match (self.pending_left, self.pending_right) {
            (Some(l), Some(r)) => (l, r),
            _ => {
                return false;
            },
        };
        let pose = match self.last_pose {
            Some(p) => p,
            None => {
                return false;
            },
        };
        match &self.adopted {
            Some(a) => {
                if !(left.texture_update_count > a.left.texture_update_count)
                    || !(right.texture_update_count > a.right.texture_update_count) {
                    return false;
                }
            },
            None => {},
        }
        self.next_adopted_id = saturating_increment(self.next_adopted_id);
        let frame = AdoptedStereoCameraFrame::new(self.next_adopted_id, left, right, Some(pose));
        self.adopted = Some(frame);
        true
    }
}

/// Every adoption moves both eyes strictly forward and never reuses a
/// smaller adoption id: after an adoption, the frame shown has larger
/// texture update counts on both eyes than the one shown before it, and an
/// adoption id no smaller than before (larger until the id saturates).
pub proof fn lemma_adoption_advances<P: Copy, Q: Copy>(
    before: StereoFrameTracker<P, Q>,
    after: StereoFrameTracker<P, Q>,
)
    requires
        before.adoption_ready(),
        after.next_adopted_id == saturating_next(before.next_adopted_id),
        after.adopted matches Some(a) && a.adoption_id == after.next_adopted_id && a.left
            == before.pending_left->0 && a.right == before.pending_right->0,
    ensures
        before.adopted matches Some(b) ==> (after.adopted matches Some(a) && a.left.texture_update_count
            > b.left.texture_update_count && a.right.texture_update_count
            > b.right.texture_update_count),
        after.next_adopted_id >= before.next_adopted_id,
        before.next_adopted_id < u64::MAX ==> after.next_adopted_id == before.next_adopted_id + 1,
{
}


/// Adoption markers go out for the first 24 adoptions, then every 120th.
pub fn frame_adoption_marker_due(marker_index: usize) -> (due: bool)
    ensures
        due == (marker_index < 24 || marker_index % 120 == 0),
{
    marker_index < 24 || marker_index % 120 == 0
}

/// The XR pose an adopted frame was shown under, as the adoption marker
/// reports it; positions and orientations arrive already formatted.
pub struct PoseSnapshotFields {
    pub update_count: u64,
    pub predicted_display_time_ns: i64,
    pub left_valid: bool,
    pub right_valid: bool,
    pub left_position: String,
    pub right_position: String,
    pub left_orientation: String,
    pub right_orientation: String,
}

/// The frame part of the adoption marker.
pub open spec fn adoption_frames_spec<P, Q>(reason: Seq<char>, adopted: AdoptedStereoCameraFrame<P, Q>) -> Seq<char> {
    "RUSTY_QUEST_MAKEPAD_FRAME_ADOPTION schema=rusty.quest.makepad-stereo-frame-adoption.v1 phase=adopt status=ok reason="@
        + marker_value_spec(reason) + " adoptionId="@ + dec_nat(adopted.adoption_id as nat)
        + " leftSide="@ + adopted.left.side.label_spec() + " rightSide="@
        + adopted.right.side.label_spec() + " leftTextureUpdateCount="@ + dec_nat(
        adopted.left.texture_update_count as nat,
    ) + " rightTextureUpdateCount="@ + dec_nat(adopted.right.texture_update_count as nat)
        + " leftPositionMs="@ + dec_nat(adopted.left.position_ms as nat) + " rightPositionMs="@
        + dec_nat(adopted.right.position_ms as nat)
}

/// The frame sequence part of the adoption marker.
pub open spec fn adoption_sequence_spec<P, Q>(adopted: AdoptedStereoCameraFrame<P, Q>) -> Seq<char> {
    " leftCameraFrameSeq="@ + optional_u64_token_spec(adopted.left.camera_frame_sequence)
        + " rightCameraFrameSeq="@ + optional_u64_token_spec(adopted.right.camera_frame_sequence)
        + " frameSequenceDelta="@ + optional_i64_token_spec(adopted.pairing.sequence_delta)
}

/// The timestamp and status part of the adoption marker.
pub open spec fn adoption_timestamp_spec<P, Q>(adopted: AdoptedStereoCameraFrame<P, Q>) -> Seq<char> {
    " leftCameraTimestampNs="@ + optional_u64_token_spec(adopted.left.camera_timestamp_ns)
        + " rightCameraTimestampNs="@ + optional_u64_token_spec(adopted.right.camera_timestamp_ns)
        + " timestampDeltaNs="@ + optional_u64_token_spec(adopted.pairing.timestamp_delta_ns)
        + " closeTimestampMatch="@ + bool_text(adopted.pairing.close_timestamp_match)
        + " pairingStatus="@ + adopted.pairing.status.label_spec() + " texturePath="@
        + adopted.left.texture_path.stable_id_spec()
}

/// The timing part of the adoption marker.
pub open spec fn adoption_timing_spec<P, Q>(adopted: AdoptedStereoCameraFrame<P, Q>) -> Seq<char> {
    adoption_sequence_spec(adopted) + adoption_timestamp_spec(adopted)
}

/// The counters and validity part of the adoption marker for a pose.
pub open spec fn adoption_pose_state_spec(p: PoseSnapshotFields) -> Seq<char> {
    " poseSource=makepad-quest-update-predicted-display-pose poseUpdateCount="@ + dec_nat(
        p.update_count as nat,
    ) + " predictedDisplayTimeNs="@ + dec_int(p.predicted_display_time_ns as int)
        + " leftPoseValid="@ + bool_text(p.left_valid) + " rightPoseValid="@ + bool_text(
        p.right_valid,
    )
}

/// The position and orientation part of the adoption marker for a pose.
pub open spec fn adoption_pose_values_spec(p: PoseSnapshotFields) -> Seq<char> {
    " leftPosePosition="@ + p.left_position@ + " rightPosePosition="@ + p.right_position@
        + " leftPoseOrientation="@ + p.left_orientation@ + " rightPoseOrientation="@
        + p.right_orientation@
}

/// The pose part of the adoption marker.
pub open spec fn adoption_pose_spec(pose: Option<PoseSnapshotFields>) -> Seq<char> {
    (match pose {
        Some(p) => adoption_pose_state_spec(p) + adoption_pose_values_spec(p),
        None => " poseSource=missing-xr-update-pose poseUpdateCount=missing predictedDisplayTimeNs=missing leftPoseValid=false rightPoseValid=false leftPosePosition=missing rightPosePosition=missing leftPoseOrientation=missing rightPoseOrientation=missing"@,
    }) + " adoptionPolicy=latest-complete-stereo-pair panelUpdatePolicy=adopted-pair-xr-update-only"@
}

/// The adoption marker line.
pub open spec fn stereo_frame_adoption_marker_line_spec<P, Q>(
    reason: Seq<char>,
    adopted: AdoptedStereoCameraFrame<P, Q>,
    pose: Option<PoseSnapshotFields>,
) -> Seq<char> {
    adoption_frames_spec(reason, adopted) + adoption_timing_spec(adopted) + adoption_pose_spec(pose)
}

fn push_adoption_frames<P, Q>(out: &mut String, reason: &str, adopted: &AdoptedStereoCameraFrame<P, Q>)
    ensures
        final(out)@ == old(out)@ + adoption_frames_spec(reason@, *adopted),
{
    let ghost start = out@;
    let value = marker_value(reason);
    out.append(
        "RUSTY_QUEST_MAKEPAD_FRAME_ADOPTION schema=rusty.quest.makepad-stereo-frame-adoption.v1 phase=adopt status=ok reason=",
    );
    out.append(value.as_str());
    out.append(" adoptionId=");
    push_u64(out, adopted.adoption_id);
    out.append(" leftSide=");
    out.append(adopted.left.side.label());
    out.append(" rightSide=");
    out.append(adopted.right.side.label());
    out.append(" leftTextureUpdateCount=");
    push_u64(out, adopted.left.texture_update_count);
    out.append(" rightTextureUpdateCount=");
    push_u64(out, adopted.right.texture_update_count);
    out.append(" leftPositionMs=");
    push_u128(out, adopted.left.position_ms);
    out.append(" rightPositionMs=");
    push_u128(out, adopted.right.position_ms);
    proof {
        assert(out@ =~= start + adoption_frames_spec(reason@, *adopted));
    }
}

fn push_adoption_sequence<P, Q>(out: &mut String, adopted: &AdoptedStereoCameraFrame<P, Q>)
    ensures
        final(out)@ == old(out)@ + adoption_sequence_spec(*adopted),
{
    let ghost start = out@;
    let left = optional_u64_token(adopted.left.camera_frame_sequence);
    let right = optional_u64_token(adopted.right.camera_frame_sequence);
    let delta = optional_i64_token(adopted.pairing.sequence_delta);
    out.append(" leftCameraFrameSeq=");
    out.append(left.as_str());
    out.append(" rightCameraFrameSeq=");
    out.append(right.as_str());
    out.append(" frameSequenceDelta=");
    out.append(delta.as_str());
    proof {
        assert(out@ =~= start + adoption_sequence_spec(*adopted));
    }
}

fn push_adoption_timestamps<P, Q>(out: &mut String, adopted: &AdoptedStereoCameraFrame<P, Q>)
    ensures
        final(out)@ == old(out)@ + adoption_timestamp_spec(*adopted),
{
    let ghost start = out@;
    let left = optional_u64_token(adopted.left.camera_timestamp_ns);
    let right = optional_u64_token(adopted.right.camera_timestamp_ns);
    let delta = optional_u64_token(adopted.pairing.timestamp_delta_ns);
    out.append(" leftCameraTimestampNs=");
    out.append(left.as_str());
    out.append(" rightCameraTimestampNs=");
    out.append(right.as_str());
    out.append(" timestampDeltaNs=");
    out.append(delta.as_str());
    out.append(" closeTimestampMatch=");
    push_bool(out, adopted.pairing.close_timestamp_match);
    out.append(" pairingStatus=");
    out.append(adopted.pairing.status.label());
    out.append(" texturePath=");
    out.append(adopted.left.texture_path.stable_id());
    proof {
        assert(out@ =~= start + adoption_timestamp_spec(*adopted));
    }
}

fn push_adoption_pose_state(out: &mut String, p: &PoseSnapshotFields)
    ensures
        final(out)@ == old(out)@ + adoption_pose_state_spec(*p),
{
    let ghost start = out@;
    out.append(" poseSource=makepad-quest-update-predicted-display-pose poseUpdateCount=");
    push_u64(out, p.update_count);
    out.append(" predictedDisplayTimeNs=");
    push_i64(out, p.predicted_display_time_ns);
    out.append(" leftPoseValid=");
    push_bool(out, p.left_valid);
    out.append(" rightPoseValid=");
    push_bool(out, p.right_valid);
    proof {
        assert(out@ =~= start + adoption_pose_state_spec(*p));
    }
}

fn push_adoption_pose_values(out: &mut String, p: &PoseSnapshotFields)
    ensures
        final(out)@ == old(out)@ + adoption_pose_values_spec(*p),
{
    let ghost start = out@;
    out.append(" leftPosePosition=");
    out.append(p.left_position.as_str());
    out.append(" rightPosePosition=");
    out.append(p.right_position.as_str());
    out.append(" leftPoseOrientation=");
    out.append(p.left_orientation.as_str());
    out.append(" rightPoseOrientation=");
    out.append(p.right_orientation.as_str());
    proof {
        assert(out@ =~= start + adoption_pose_values_spec(*p));
    }
}

fn push_adoption_pose(out: &mut String, pose: Option<&PoseSnapshotFields>)
    ensures
        final(out)@ == old(out)@ + adoption_pose_spec(
            match pose {
                Some(p) => Some(*p),
                None => None,
            },
        ),
{
    let ghost start = out@;
    match pose {
        Some(p) => {
            push_adoption_pose_state(out, p);
            push_adoption_pose_values(out, p);
        },
        None => {
            out.append(
                " poseSource=missing-xr-update-pose poseUpdateCount=missing predictedDisplayTimeNs=missing leftPoseValid=false rightPoseValid=false leftPosePosition=missing rightPosePosition=missing leftPoseOrientation=missing rightPoseOrientation=missing",
            );
        },
    }
    out.append(" adoptionPolicy=latest-complete-stereo-pair panelUpdatePolicy=adopted-pair-xr-update-only");
    proof {
        assert(out@ =~= start + adoption_pose_spec(
            match pose {
                Some(p) => Some(*p),
                None => None,
            },
        ));
    }
}

/// The marker line of an adopted stereo frame; `pose` holds the fields of
/// the pose it was adopted under, if any.
pub fn stereo_frame_adoption_marker_line<P, Q>(
    reason: &str,
    adopted: &AdoptedStereoCameraFrame<P, Q>,
    pose: Option<&PoseSnapshotFields>,
) -> (line: String)
    ensures
        line@ == stereo_frame_adoption_marker_line_spec(
            reason@,
            *adopted,
            match pose {
                Some(p) => Some(*p),
                None => None,
            },
        ),
{
    let mut out = String::new();
    push_adoption_frames(&mut out, reason, adopted);
    push_adoption_sequence(&mut out, adopted);
    push_adoption_timestamps(&mut out, adopted);
    push_adoption_pose(&mut out, pose);
    proof {
        assert(out@ =~= stereo_frame_adoption_marker_line_spec(
            reason@,
            *adopted,
            match pose {
                Some(p) => Some(*p),
                None => None,
            },
        ));
    }
    out
}


/// Swapping the two frames of a pair swaps nothing but the sign of the
/// sequence difference: the timestamp distance, the close-match verdict and
/// the status stay the same.
pub proof fn lemma_pairing_symmetric(
    left_sequence: Option<u64>,
    right_sequence: Option<u64>,
    left_timestamp: Option<u64>,
    right_timestamp: Option<u64>,
)
    requires
        sequence_delta_fits(left_sequence, right_sequence),
        sequence_delta_fits(right_sequence, left_sequence),
    ensures
        ({
            let a = pairing_spec(left_sequence, right_sequence, left_timestamp, right_timestamp);
            let b = pairing_spec(right_sequence, left_sequence, right_timestamp, left_timestamp);
            &&& a.status == b.status
            &&& a.timestamp_delta_ns == b.timestamp_delta_ns
            &&& a.close_timestamp_match == b.close_timestamp_match
            &&& match (a.sequence_delta, b.sequence_delta) {
                (Some(x), Some(y)) => x == -y,
                (None, None) => true,
                _ => false,
            }
        }),
{
}


/// The status says what timing the frames carry: "no frame timing" exactly
/// when neither both sequences nor both timestamps are there; a sequence
/// match needs equal sequences; a close match needs both timestamps within
/// the close window; a timing gap needs both sequences, or both timestamps
/// further apart than the window. When both timestamps are there their
/// distance is reported.
pub proof fn lemma_pairing_status_reflects_timing(
    left_sequence: Option<u64>,
    right_sequence: Option<u64>,
    left_timestamp: Option<u64>,
    right_timestamp: Option<u64>,
)
    requires
        sequence_delta_fits(left_sequence, right_sequence),
    ensures
        ({
            let p = pairing_spec(left_sequence, right_sequence, left_timestamp, right_timestamp);
            let both_sequences = left_sequence is Some && right_sequence is Some;
            let both_timestamps = left_timestamp is Some && right_timestamp is Some;
            &&& (p.status == PairingStatus::LatestCompleteNoFrameTiming <==> !both_sequences
                && !both_timestamps)
            &&& (p.status == PairingStatus::SequenceMatch ==> both_sequences && left_sequence->0
                == right_sequence->0)
            &&& (p.status == PairingStatus::TimestampClose ==> both_timestamps && -(
            CAMERA_PAIR_CLOSE_TIMESTAMP_NS as int) <= left_timestamp->0 - right_timestamp->0
                <= CAMERA_PAIR_CLOSE_TIMESTAMP_NS)
            &&& (p.status == PairingStatus::LatestCompleteWithTimingGap ==> both_sequences || (
            both_timestamps && (left_timestamp->0 - right_timestamp->0 > CAMERA_PAIR_CLOSE_TIMESTAMP_NS
                || right_timestamp->0 - left_timestamp->0 > CAMERA_PAIR_CLOSE_TIMESTAMP_NS)))
            &&& (both_timestamps ==> p.timestamp_delta_ns == Some(
                (if left_timestamp->0 >= right_timestamp->0 {
                    left_timestamp->0 - right_timestamp->0
                } else {
                    right_timestamp->0 - left_timestamp->0
                }) as u64,
            ))
        }),
{
    if left_sequence is Some && right_sequence is Some {
        let l = left_sequence->0;
        let r = right_sequence->0;
        if (l as i64) - (r as i64) == 0 {
            assert(l as i64 == r as i64);
            assert(l == r) by (bit_vector)
                requires
                    l as i64 == r as i64;
        }
    }
}

} // verus!
