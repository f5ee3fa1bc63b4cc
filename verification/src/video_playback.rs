//! Playback requests of the two eyes: a broker playback is asked for once
//! per eye, and the native video widgets are reset a bounded number of
//! times before they are given up on.
use vstd::prelude::*;
use crate::stereo_frames::StereoEye;

verus! {

/// Which eyes already asked the broker for playback.
#[derive(Clone, Copy, Debug, PartialEq, Eq, Structural)]
pub struct BrokerPlaybackRequests {
    pub left_requested: bool,
    pub right_requested: bool,
}

/// Whether `side` already asked.
pub open spec fn requested_spec(r: BrokerPlaybackRequests, side: StereoEye) -> bool {
    match side {
        StereoEye::Left => r.left_requested,
        StereoEye::Right => r.right_requested,
    }
}

/// The eye whose import texture has the id `ready`, checked left first.
pub open spec fn texture_side_spec(ready: u64, left: Option<u64>, right: Option<u64>) -> Option<StereoEye> {
    if left == Some(ready) {
        Some(StereoEye::Left)
    } else if right == Some(ready) {
        Some(StereoEye::Right)
    } else {
        None
    }
}

/// The eye whose import texture has the id `ready`, if any.
pub fn texture_side(ready: u64, left: Option<u64>, right: Option<u64>) -> (side: Option<StereoEye>)
    ensures
        side == texture_side_spec(ready, left, right),
{
    match left {
        Some(l) if l == ready => return Some(StereoEye::Left),
        _ => {},
    }
    match right {
        Some(r) if r == ready => Some(StereoEye::Right),
        _ => None,
    }
}

impl BrokerPlaybackRequests {
    /// No eye asked yet.
    pub fn new() -> (r: Self)
        ensures
            !r.left_requested && !r.right_requested,
    {
        BrokerPlaybackRequests { left_requested: false, right_requested: false }
    }

    /// Claims the playback request of `side`: true, and the side marked,
    /// the first time; false afterwards.
    pub fn claim(&mut self, side: StereoEye) -> (first: bool)
        ensures
            first == !requested_spec(*old(self), side),
            requested_spec(*final(self), side),
            side == StereoEye::Left ==> final(self).right_requested == old(self).right_requested,
            side == StereoEye::Right ==> final(self).left_requested == old(self).left_requested,
    {
        match side {
            StereoEye::Left => {
                let first = !self.left_requested;
                self.left_requested = true;
                first
            },
            StereoEye::Right => {
                let first = !self.right_requested;
                self.right_requested = true;
                first
            },
        }
    }
}

/// A claim that succeeded is not granted again: every eye asks the broker
/// for playback at most once.
pub proof fn lemma_playback_claimed_once(r: BrokerPlaybackRequests, side: StereoEye)
    requires
        !requested_spec(r, side),
    ensures
        ({
            let after = match side {
                StereoEye::Left => BrokerPlaybackRequests { left_requested: true, ..r },
                StereoEye::Right => BrokerPlaybackRequests { right_requested: true, ..r },
            };
            requested_spec(after, side)
        }),
{
}

/// The state of one native video widget.
#[derive(Clone, Copy, Debug, PartialEq, Eq, Structural)]
pub struct VideoWidgetState {
    pub unprepared: bool,
    pub cleaning_up: bool,
}

/// What starting the native video widget surface comes to.
#[derive(Clone, Copy, Debug, PartialEq, Eq, Structural)]
pub enum NativeWidgetStart {
    /// The surface runs already.
    AlreadyStarted,
    /// The widgets stayed busy through every reset; the attempt ends with an
    /// error marker.
    GiveUp,
    /// Busy widgets are stopped (those not cleaning up already) and a retry
    /// is scheduled; `retry_count` is the count after this reset.
    Reset { cleanup_left: bool, cleanup_right: bool, retry_count: u64 },
    /// Both widgets are free; playback begins.
    Start,
}

/// The decision for the native video widget surface.
pub open spec fn native_widget_start_spec(
    started: bool,
    left: VideoWidgetState,
    right: VideoWidgetState,
    retry_count: u64,
    max_resets: u64,
) -> NativeWidgetStart {
    if started {
        NativeWidgetStart::AlreadyStarted
    } else if !left.unprepared || !right.unprepared {
        if retry_count >= max_resets {
            NativeWidgetStart::GiveUp
        } else {
            NativeWidgetStart::Reset {
                cleanup_left: !left.unprepared && !left.cleaning_up,
                cleanup_right: !right.unprepared && !right.cleaning_up,
                retry_count: (retry_count + 1) as u64,
            }
        }
    } else {
        NativeWidgetStart::Start
    }
}

/// Decides whether the native video widgets start, are reset for a retry,
/// or are given up on after `max_resets` resets.
pub fn native_widget_start(
    started: bool,
    left: VideoWidgetState,
    right: VideoWidgetState,
    retry_count: u64,
    max_resets: u64,
) -> (d: NativeWidgetStart)
    ensures
        d == native_widget_start_spec(started, left, right, retry_count, max_resets),
{
    if started {
        NativeWidgetStart::AlreadyStarted
    } else if !left.unprepared || !right.unprepared {
        if retry_count >= max_resets {
            NativeWidgetStart::GiveUp
        } else {
            NativeWidgetStart::Reset {
                cleanup_left: !left.unprepared && !left.cleaning_up,
                cleanup_right: !right.unprepared && !right.cleaning_up,
                retry_count: retry_count + 1,
            }
        }
    } else {
        NativeWidgetStart::Start
    }
}

/// Resets never go past the limit: a reset is decided only below it, and
/// the count it leaves is at most the limit.
pub proof fn lemma_resets_are_bounded(
    started: bool,
    left: VideoWidgetState,
    right: VideoWidgetState,
    retry_count: u64,
    max_resets: u64,
)
    ensures
        native_widget_start_spec(started, left, right, retry_count, max_resets) matches NativeWidgetStart::Reset {
            retry_count: next,
            ..
        } ==> retry_count < max_resets && next <= max_resets,
{
}

} // verus!
