//! How the panel samples a camera frame vertically: the raster orientation
//! that a stream declares for its stimulus and the flip that follows.
use vstd::prelude::*;
use crate::text::str_equal;

verus! {

/// Raster origin at the top left, rows going down.
pub open spec fn top_left_y_down() -> Seq<char> {
    "top-left-origin-y-down"@
}

/// Raster origin at the bottom left, rows going up.
pub open spec fn bottom_left_y_up() -> Seq<char> {
    "bottom-left-origin-y-up"@
}

/// What one broker stream declares about the orientation of its stimulus.
pub struct StimulusOrientation {
    /// Whether the stream declared its stimulus orientation explicitly.
    pub explicit: bool,
    pub raster_orientation: String,
    pub orientation_kind: String,
    pub upright_marker: String,
    pub metadata_source: String,
    pub pose_source: String,
}

/// The vertical sampling decision for a camera frame pair.
pub struct FrameOrientationDecision {
    /// Whether the shader flips the source vertically when sampling.
    pub source_sample_y_flip: bool,
    pub source_sample_y_flip_reason: String,
    pub orientation_kind: String,
    pub raster_orientation: String,
    pub upright_marker: String,
    pub metadata_source: String,
    pub orientation_default: bool,
    pub fallback_reason: String,
}

/// `a` when both agree, else `a+b`.
pub open spec fn merged(a: Seq<char>, b: Seq<char>) -> Seq<char> {
    if a == b {
        a
    } else {
        a + "+"@ + b
    }
}

fn merge(a: &String, b: &String) -> (out: String)
    ensures
        out@ == merged(a@, b@),
{
    if str_equal(a.as_str(), b.as_str()) {
        a.clone()
    } else {
        let mut out = a.clone();
        out.append("+");
        out.append(b.as_str());
        out
    }
}

/// The pose source of a broker stream pair.
pub fn broker_pair_pose_source(left: &StimulusOrientation, right: &StimulusOrientation) -> (source: String)
    ensures
        source@ == merged(left.pose_source@, right.pose_source@),
{
    merge(&left.pose_source, &right.pose_source)
}

/// The reason a broker pair falls back to the default orientation, if it
/// does: undeclared orientation, disagreeing eyes, or an orientation that
/// is neither raster origin.
pub open spec fn broker_fallback_reason(left: StimulusOrientation, right: StimulusOrientation) -> Option<
    Seq<char>,
> {
    if !left.explicit || !right.explicit {
        Some("broker-h264-explicit-stimulus-orientation-missing"@)
    } else if left.raster_orientation@ != right.raster_orientation@ {
        Some("broker-h264-left-right-stimulus-orientation-mismatch"@)
    } else if left.raster_orientation@ != top_left_y_down() && left.raster_orientation@
        != bottom_left_y_up() {
        Some("broker-h264-unsupported-stimulus-orientation"@)
    } else {
        None
    }
}

impl FrameOrientationDecision {
    /// The decision for frames generated by the direct Camera2 path, which
    /// are top-left rasters already.
    pub fn direct_camera2() -> (d: Self)
        ensures
            !d.source_sample_y_flip,
            d.source_sample_y_flip_reason@
                == "direct-camera2-generated-stimulus-top-left-raster-matches-makepad-video-sampler-origin"@,
            d.orientation_kind@ == "camera-frame"@,
            d.raster_orientation@ == top_left_y_down(),
            d.upright_marker@ == "camera-native-upright"@,
            d.metadata_source@ == "generated-direct-camera2-stimulus-metadata"@,
            !d.orientation_default,
            d.fallback_reason@ == "none"@,
    {
        FrameOrientationDecision {
            source_sample_y_flip: false,
            source_sample_y_flip_reason: String::from_str(
                "direct-camera2-generated-stimulus-top-left-raster-matches-makepad-video-sampler-origin",
            ),
            orientation_kind: String::from_str("camera-frame"),
            raster_orientation: String::from_str("top-left-origin-y-down"),
            upright_marker: String::from_str("camera-native-upright"),
            metadata_source: String::from_str("generated-direct-camera2-stimulus-metadata"),
            orientation_default: false,
            fallback_reason: String::from_str("none"),
        }
    }

    /// The default decision, used when a stream's orientation cannot be
    /// trusted, with the reason why.
    pub fn fallback(reason: &str) -> (d: Self)
        ensures
            !d.source_sample_y_flip,
            d.source_sample_y_flip_reason@
                == "standard-stimulus-default-top-left-raster-matches-makepad-video-sampler-origin"@,
            d.orientation_kind@ == "standard-stimulus-default"@,
            d.raster_orientation@ == top_left_y_down(),
            d.upright_marker@ == "unspecified"@,
            d.metadata_source@ == "standard-stimulus-orientation-default"@,
            d.orientation_default,
            d.fallback_reason@ == reason@,
    {
        FrameOrientationDecision {
            source_sample_y_flip: false,
            source_sample_y_flip_reason: String::from_str(
                "standard-stimulus-default-top-left-raster-matches-makepad-video-sampler-origin",
            ),
            orientation_kind: String::from_str("standard-stimulus-default"),
            raster_orientation: String::from_str("top-left-origin-y-down"),
            upright_marker: String::from_str("unspecified"),
            metadata_source: String::from_str("standard-stimulus-orientation-default"),
            orientation_default: true,
            fallback_reason: String::from_str(reason),
        }
    }

    /// The decision for a broker stream pair: the declared raster of both
    /// eyes when they agree on a supported one, flipping a bottom-left
    /// raster; otherwise the default with the reason.
    pub fn from_broker_pair(left: &StimulusOrientation, right: &StimulusOrientation) -> (d: Self)
        ensures
            match broker_fallback_reason(*left, *right) {
                Some(reason) => {
                    &&& d.orientation_default
                    &&& !d.source_sample_y_flip
                    &&& d.fallback_reason@ == reason
                    &&& d.raster_orientation@ == top_left_y_down()
                    &&& d.orientation_kind@ == "standard-stimulus-default"@
                    &&& d.metadata_source@ == "standard-stimulus-orientation-default"@
                },
                None => {
                    let flip = left.raster_orientation@ == bottom_left_y_up();
                    &&& !d.orientation_default
                    &&& d.source_sample_y_flip == flip
                    &&& d.source_sample_y_flip_reason@ == if flip {
                        "broker-stimulus-bottom-left-raster-to-makepad-video-sampler-origin"@
                    } else {
                        "broker-stimulus-top-left-raster-matches-makepad-video-sampler-origin"@
                    }
                    &&& d.orientation_kind@ == merged(left.orientation_kind@, right.orientation_kind@)
                    &&& d.raster_orientation@ == left.raster_orientation@
                    &&& d.upright_marker@ == merged(left.upright_marker@, right.upright_marker@)
                    &&& d.metadata_source@ == merged(left.metadata_source@, right.metadata_source@)
                    &&& d.fallback_reason@ == "none"@
                },
            },
    {
        proof {
            reveal_strlit("top-left-origin-y-down");
            reveal_strlit("bottom-left-origin-y-up");
        }
        if !left.explicit || !right.explicit {
            return Self::fallback("broker-h264-explicit-stimulus-orientation-missing");
        }
        if !str_equal(left.raster_orientation.as_str(), right.raster_orientation.as_str()) {
            return Self::fallback("broker-h264-left-right-stimulus-orientation-mismatch");
        }
        let top = str_equal(left.raster_orientation.as_str(), "top-left-origin-y-down");
        let bottom = str_equal(left.raster_orientation.as_str(), "bottom-left-origin-y-up");
        if !top && !bottom {
            return Self::fallback("broker-h264-unsupported-stimulus-orientation");
        }
        proof {
            assert(top ==> !bottom) by {
                assert("top-left-origin-y-down"@[0] != "bottom-left-origin-y-up"@[0]);
            }
        }
        let reason = if bottom {
            "broker-stimulus-bottom-left-raster-to-makepad-video-sampler-origin"
        } else {
            "broker-stimulus-top-left-raster-matches-makepad-video-sampler-origin"
        };
        FrameOrientationDecision {
            source_sample_y_flip: bottom,
            source_sample_y_flip_reason: String::from_str(reason),
            orientation_kind: merge(&left.orientation_kind, &right.orientation_kind),
            raster_orientation: left.raster_orientation.clone(),
            upright_marker: merge(&left.upright_marker, &right.upright_marker),
            metadata_source: merge(&left.metadata_source, &right.metadata_source),
            orientation_default: false,
            fallback_reason: String::from_str("none"),
        }
    }
}

} // verus!
