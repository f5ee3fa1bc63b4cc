//! Framing and configuration rules of the controller pose publisher that
//! streams object poses to the manifold broker.
use vstd::prelude::*;
use crate::text::{ascii_lower_seq, chars_equal, lowered_trimmed, trim};
use crate::websocket::{client_text_frame, client_text_frame_spec, le_byte};

verus! {

/// Stream that carries object pose samples.
pub const DEFAULT_MANIFOLD_POSE_STREAM: &'static str = "stream.motion.object_pose";

/// Provider id announced as the pose source.
pub const DEFAULT_MANIFOLD_POSE_SOURCE: &'static str = "provider.makepad.controller_pose";

/// Kind of the pose source.
pub const MANIFOLD_POSE_SOURCE_KIND: &'static str = "controller_pose_provider";

/// Controller whose pose is published unless configured otherwise.
pub const DEFAULT_MANIFOLD_POSE_CONTROLLER: &'static str = "right";

/// Pose kind published unless configured otherwise.
pub const DEFAULT_MANIFOLD_POSE_KIND: &'static str = "grip";

/// Broker host used unless configured otherwise.
pub const DEFAULT_MANIFOLD_BROKER_HOST: &'static str = "127.0.0.1";

/// Broker port used unless configured otherwise.
pub const DEFAULT_MANIFOLD_BROKER_PORT: u16 = 8765;

/// Multiplier that spreads a message sequence id over the masking key.
pub const POSE_MASK_MULTIPLIER: u64 = 0x9E37_79B9_7F4A_7C15;

/// The masking key of pose frame `sequence_id`: bytes 0, 2, 5 and 7 of the
/// little-endian wrapping product of the id with [`POSE_MASK_MULTIPLIER`].
pub open spec fn pose_mask_spec(sequence_id: u64) -> Seq<u8> {
    let p = sequence_id.wrapping_mul(POSE_MASK_MULTIPLIER);
    seq![le_byte(p, 0), le_byte(p, 2), le_byte(p, 5), le_byte(p, 7)]
}

/// The masking key of the pose frame with the given sequence id.
pub fn websocket_mask(sequence_id: u64) -> (mask: [u8; 4])
    ensures
        mask@ == pose_mask_spec(sequence_id),
{
    let p = sequence_id.wrapping_mul(POSE_MASK_MULTIPLIER);
    assert(p >> 0u64 == p) by (bit_vector);
    [(p & 0xff) as u8, ((p >> 16u64) & 0xff) as u8, ((p >> 40u64) & 0xff) as u8, ((p >> 56u64)
        & 0xff) as u8]
}

/// The masked text frame that carries a pose command.
pub fn websocket_client_text_frame(payload: &[u8], sequence_id: u64) -> (frame: Vec<u8>)
    ensures
        frame@ == client_text_frame_spec(payload@, pose_mask_spec(sequence_id)),
{
    let mask = websocket_mask(sequence_id);
    client_text_frame(payload, mask)
}

/// `left` when the trimmed, lower-cased value says so, else `right`.
pub open spec fn normalized_controller_spec(value: Seq<char>) -> Seq<char> {
    if ascii_lower_seq(trim(value)) == "left"@ {
        "left"@
    } else {
        "right"@
    }
}

/// The controller whose pose is published.
pub fn normalized_manifold_pose_controller(value: &str) -> (out: String)
    ensures
        out@ == normalized_controller_spec(value@),
{
    let lowered = lowered_trimmed(value);
    if chars_equal(&lowered, "left") {
        String::from_str("left")
    } else {
        String::from_str("right")
    }
}

/// `aim` when the trimmed, lower-cased value says so, else `grip`.
pub open spec fn normalized_pose_kind_spec(value: Seq<char>) -> Seq<char> {
    if ascii_lower_seq(trim(value)) == "aim"@ {
        "aim"@
    } else {
        "grip"@
    }
}

/// The pose kind that is published.
pub fn normalized_manifold_pose_kind(value: &str) -> (out: String)
    ensures
        out@ == normalized_pose_kind_spec(value@),
{
    let lowered = lowered_trimmed(value);
    if chars_equal(&lowered, "aim") {
        String::from_str("aim")
    } else {
        String::from_str("grip")
    }
}

/// Sequence ids handed out and the fate of the samples sent.
#[derive(Clone, Copy, Debug, PartialEq, Eq, Structural)]
pub struct PosePublishCounters {
    pub last_sequence_id: u64,
    pub published: u64,
    pub dropped: u64,
}

/// A count plus one, held at the maximum.
pub open spec fn saturating_inc(n: u64) -> u64 {
    if n == u64::MAX {
        n
    } else {
        (n + 1) as u64
    }
}

/// The sample marker is due for every dropped sample, for the first
/// published one, and for every 120th published one.
pub open spec fn sample_marker_due(queued: bool, published: u64) -> bool {
    !queued || published == 1 || published % 120 == 0
}

impl PosePublishCounters {
    /// Nothing sent yet.
    pub fn new() -> (c: Self)
        ensures
            c == (PosePublishCounters { last_sequence_id: 0, published: 0, dropped: 0 }),
    {
        PosePublishCounters { last_sequence_id: 0, published: 0, dropped: 0 }
    }

    /// The sequence id of the next sample.
    pub fn next_sequence_id(&mut self) -> (id: u64)
        ensures
            id == saturating_inc(old(self).last_sequence_id),
            *final(self) == (PosePublishCounters { last_sequence_id: id, ..*old(self) }),
    {
        if self.last_sequence_id < u64::MAX {
            self.last_sequence_id = self.last_sequence_id + 1;
        }
        self.last_sequence_id
    }

    /// Counts a sample as published or dropped; returns whether its marker
    /// is due.
    pub fn record(&mut self, queued: bool) -> (marker_due: bool)
        ensures
            queued ==> *final(self) == (PosePublishCounters {
                published: saturating_inc(old(self).published),
                ..*old(self)
            }),
            !queued ==> *final(self) == (PosePublishCounters {
                dropped: saturating_inc(old(self).dropped),
                ..*old(self)
            }),
            marker_due == sample_marker_due(queued, final(self).published),
    {
        if queued {
            if self.published < u64::MAX {
                self.published = self.published + 1;
            }
        } else if self.dropped < u64::MAX {
            self.dropped = self.dropped + 1;
        }
        !queued || self.published == 1 || self.published % 120 == 0
    }
}

/// Every sample is counted once, as published or as dropped, while the
/// counts are below their maximum.
pub proof fn lemma_every_sample_is_counted(c: PosePublishCounters, queued: bool)
    requires
        c.published < u64::MAX,
        c.dropped < u64::MAX,
    ensures
        ({
            let n = if queued {
                PosePublishCounters { published: saturating_inc(c.published), ..c }
            } else {
                PosePublishCounters { dropped: saturating_inc(c.dropped), ..c }
            };
            n.published + n.dropped == c.published + c.dropped + 1
        }),
{
}

} // verus!

