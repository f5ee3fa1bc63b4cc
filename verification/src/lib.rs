//! Verified logic of the Quest Makepad camera shell: marker text, websocket
//! framing, camera source selection, stereo frame pairing and the small
//! state machines that the headset app drives.
use vstd::prelude::*;

pub mod acamera;
pub mod camera_source;
pub mod camera_probe;
pub mod camera_pairing;
pub mod stereo_frames;
pub mod orientation;
pub mod content_stats;
pub mod projection_target;
pub mod pair_markers;
pub mod probe_markers;
pub mod text;
pub mod websocket;
pub mod pose_publisher;
pub mod breath_feedback;
pub mod texture_path;
pub mod projection_markers;
pub mod panel_binding;
pub mod paired_import;
pub mod cadence;
pub mod pair_updates;
pub mod video_playback;

verus! {

} // verus!
