//! The cadence probe's counters: app frames, XR updates, draw events and
//! camera texture updates since startup, and what changed between two
//! cadence samples.
use vstd::prelude::*;

verus! {

/// Event counts since startup, and their values at the last sample.
#[derive(Clone, Copy, Debug, PartialEq, Eq, Structural)]
pub struct CadenceCounters {
    pub frame_count: u64,
    pub xr_update_count: u64,
    pub draw_event_count: u64,
    pub frame_count_at_last_sample: u64,
    pub xr_update_count_at_last_sample: u64,
    pub draw_event_count_at_last_sample: u64,
    pub left_texture_update_count_at_last_sample: u64,
    pub right_texture_update_count_at_last_sample: u64,
}

/// What changed since the previous sample.
#[derive(Clone, Copy, Debug, PartialEq, Eq, Structural)]
pub struct CadenceDeltas {
    pub frame_delta: u64,
    pub xr_update_delta: u64,
    pub draw_event_delta: u64,
    pub left_texture_update_delta: u64,
    pub right_texture_update_delta: u64,
    /// Texture updates that both eyes had since the previous sample.
    pub paired_texture_update_delta: u64,
    /// Texture updates that both eyes had since startup.
    pub paired_texture_update_count: u64,
}

/// `a - b`, or 0 when `b` is larger.
pub open spec fn sat_sub(a: u64, b: u64) -> u64 {
    if a >= b {
        (a - b) as u64
    } else {
        0
    }
}

/// The smaller of two counts.
pub open spec fn min_u64(a: u64, b: u64) -> u64 {
    if a <= b {
        a
    } else {
        b
    }
}

/// A count plus one, held at the maximum.
pub open spec fn count_up(n: u64) -> u64 {
    if n == u64::MAX {
        n
    } else {
        (n + 1) as u64
    }
}

/// The deltas of a sample taken with the given texture update counts.
pub open spec fn sample_deltas(c: CadenceCounters, left_count: u64, right_count: u64) -> CadenceDeltas {
    let left = sat_sub(left_count, c.left_texture_update_count_at_last_sample);
    let right = sat_sub(right_count, c.right_texture_update_count_at_last_sample);
    CadenceDeltas {
        frame_delta: sat_sub(c.frame_count, c.frame_count_at_last_sample),
        xr_update_delta: sat_sub(c.xr_update_count, c.xr_update_count_at_last_sample),
        draw_event_delta: sat_sub(c.draw_event_count, c.draw_event_count_at_last_sample),
        left_texture_update_delta: left,
        right_texture_update_delta: right,
        paired_texture_update_delta: min_u64(left, right),
        paired_texture_update_count: min_u64(left_count, right_count),
    }
}

/// The counters after a sample: every snapshot takes the current count.
pub open spec fn after_sample(c: CadenceCounters, left_count: u64, right_count: u64) -> CadenceCounters {
    CadenceCounters {
        frame_count_at_last_sample: c.frame_count,
        xr_update_count_at_last_sample: c.xr_update_count,
        draw_event_count_at_last_sample: c.draw_event_count,
        left_texture_update_count_at_last_sample: left_count,
        right_texture_update_count_at_last_sample: right_count,
        ..c
    }
}

fn saturating_difference(a: u64, b: u64) -> (d: u64)
    ensures
        d == sat_sub(a, b),
{
    if a >= b {
        a - b
    } else {
        0
    }
}

fn smaller(a: u64, b: u64) -> (m: u64)
    ensures
        m == min_u64(a, b),
{
    if a <= b {
        a
    } else {
        b
    }
}

fn next_count(n: u64) -> (m: u64)
    ensures
        m == count_up(n),
{
    if n == u64::MAX {
        n
    } else {
        n + 1
    }
}

impl CadenceCounters {
    /// Nothing counted yet.
    pub fn new() -> (c: Self)
        ensures
            c == (CadenceCounters {
                frame_count: 0,
                xr_update_count: 0,
                draw_event_count: 0,
                frame_count_at_last_sample: 0,
                xr_update_count_at_last_sample: 0,
                draw_event_count_at_last_sample: 0,
                left_texture_update_count_at_last_sample: 0,
                right_texture_update_count_at_last_sample: 0,
            }),
    {
        CadenceCounters {
            frame_count: 0,
            xr_update_count: 0,
            draw_event_count: 0,
            frame_count_at_last_sample: 0,
            xr_update_count_at_last_sample: 0,
            draw_event_count_at_last_sample: 0,
            left_texture_update_count_at_last_sample: 0,
            right_texture_update_count_at_last_sample: 0,
        }
    }

    /// Counts an app frame.
    pub fn count_frame(&mut self)
        ensures
            *final(self) == (CadenceCounters { frame_count: count_up(old(self).frame_count), ..*old(self) }),
    {
        self.frame_count = next_count(self.frame_count);
    }

    /// Counts an XR update.
    pub fn count_xr_update(&mut self)
        ensures
            *final(self) == (CadenceCounters {
                xr_update_count: count_up(old(self).xr_update_count),
                ..*old(self)
            }),
    {
        self.xr_update_count = next_count(self.xr_update_count);
    }

    /// Counts a draw event.
    pub fn count_draw_event(&mut self)
        ensures
            *final(self) == (CadenceCounters {
                draw_event_count: count_up(old(self).draw_event_count),
                ..*old(self)
            }),
    {
        self.draw_event_count = next_count(self.draw_event_count);
    }

    /// Takes a sample with the current texture update counts of both eyes:
    /// returns what changed since the previous sample and makes the current
    /// counts the new reference.
    pub fn take_sample(&mut self, left_count: u64, right_count: u64) -> (d: CadenceDeltas)
        ensures
            d == sample_deltas(*old(self), left_count, right_count),
            *final(self) == after_sample(*old(self), left_count, right_count),
    {
        let left = saturating_difference(left_count, self.left_texture_update_count_at_last_sample);
        let right = saturating_difference(right_count, self.right_texture_update_count_at_last_sample);
        let d = CadenceDeltas {
            frame_delta: saturating_difference(self.frame_count, self.frame_count_at_last_sample),
            xr_update_delta: saturating_difference(self.xr_update_count, self.xr_update_count_at_last_sample),
            draw_event_delta: saturating_difference(self.draw_event_count, self.draw_event_count_at_last_sample),
            left_texture_update_delta: left,
            right_texture_update_delta: right,
            paired_texture_update_delta: smaller(left, right),
            paired_texture_update_count: smaller(left_count, right_count),
        };
        self.frame_count_at_last_sample = self.frame_count;
        self.xr_update_count_at_last_sample = self.xr_update_count;
        self.draw_event_count_at_last_sample = self.draw_event_count;
        self.left_texture_update_count_at_last_sample = left_count;
        self.right_texture_update_count_at_last_sample = right_count;
        d
    }
}

/// Projection readiness reported by a sample: mapping ready and aligned
/// projection both need an adopted stereo frame and a ready homography.
pub fn projection_readiness(paired_buffers_ready: bool, projection_ready: bool) -> (r: (bool, bool))
    ensures
        r == (if paired_buffers_ready {
            (projection_ready, projection_ready)
        } else {
            (false, false)
        }),
{
    if paired_buffers_ready {
        (projection_ready, projection_ready)
    } else {
        (false, false)
    }
}

/// A sample taken right after another one, with the same texture counts,
/// reports no change at all.
pub proof fn lemma_back_to_back_samples_report_nothing(c: CadenceCounters, left_count: u64, right_count: u64)
    ensures
        ({
            let d = sample_deltas(after_sample(c, left_count, right_count), left_count, right_count);
            &&& d.frame_delta == 0
            &&& d.xr_update_delta == 0
            &&& d.draw_event_delta == 0
            &&& d.left_texture_update_delta == 0
            &&& d.right_texture_update_delta == 0
            &&& d.paired_texture_update_delta == 0
        }),
{
}

/// When counts only grow, the deltas of two consecutive samples add up to
/// the growth since the first sample's reference point.
pub proof fn lemma_consecutive_deltas_add_up(
    c: CadenceCounters,
    left1: u64,
    right1: u64,
    frames_between: u64,
    left2: u64,
    right2: u64,
)
    requires
        c.frame_count_at_last_sample <= c.frame_count,
        c.left_texture_update_count_at_last_sample <= left1 <= left2,
        c.right_texture_update_count_at_last_sample <= right1 <= right2,
        c.frame_count + frames_between <= u64::MAX,
    ensures
        ({
            let first = sample_deltas(c, left1, right1);
            let mid = after_sample(c, left1, right1);
            let later = CadenceCounters { frame_count: (mid.frame_count + frames_between) as u64, ..mid };
            let second = sample_deltas(later, left2, right2);
            &&& first.frame_delta + second.frame_delta == later.frame_count - c.frame_count_at_last_sample
            &&& first.left_texture_update_delta + second.left_texture_update_delta == left2
                - c.left_texture_update_count_at_last_sample
            &&& first.right_texture_update_delta + second.right_texture_update_delta == right2
                - c.right_texture_update_count_at_last_sample
        }),
{
}

} // verus!
