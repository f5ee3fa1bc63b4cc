//! The words that switch on the projection target controls, and the breath
//! phases and samples that drive the breathing scale.
use vstd::prelude::*;
use crate::text::{
    ascii_lower_seq, chars_equal, dec_int, dec_nat, lowered_trimmed, normalize_word,
    normalized_word, push_i64, push_u64, str_equal, trim,
};

verus! {

/// Whether a control setting enables the joystick offset and scale
/// controls: `offset-scale`, ignoring surrounding white space and ASCII case.
pub fn joystick_controls_enabled_from_value(value: &str) -> (enabled: bool)
    ensures
        enabled == (ascii_lower_seq(trim(value@)) == "offset-scale"@),
{
    let word = lowered_trimmed(value);
    chars_equal(&word, "offset-scale")
}

/// Whether a control setting enables the breathing scale control: `scale`,
/// ignoring surrounding white space and ASCII case.
pub fn breath_controls_enabled_from_value(value: &str) -> (enabled: bool)
    ensures
        enabled == (ascii_lower_seq(trim(value@)) == "scale"@),
{
    let word = lowered_trimmed(value);
    chars_equal(&word, "scale")
}

/// Whether a breath scale mode follows the breathing state (rather than the
/// raw volume): `state-ramp`, `state-spring` or `breathing-state`, in any
/// case and with `_` for `-`.
pub open spec fn state_ramp_mode(scale_mode: Seq<char>) -> bool {
    let mode = normalized_word(scale_mode);
    mode == "state-ramp"@ || mode == "state-spring"@ || mode == "breathing-state"@
}

/// Whether a breath scale mode follows the breathing state.
pub fn breath_scale_mode_is_state_ramp(scale_mode: &str) -> (r: bool)
    ensures
        r == state_ramp_mode(scale_mode@),
{
    let mode = normalize_word(scale_mode);
    chars_equal(&mode, "state-ramp") || chars_equal(&mode, "state-spring") || chars_equal(
        &mode,
        "breathing-state",
    )
}

/// A phase of breathing.
#[derive(Clone, Copy, Debug, PartialEq, Eq, Structural)]
pub enum BreathPhase {
    Inhale,
    Exhale,
    BadTracking,
    Pause,
}

impl BreathPhase {
    /// The marker label of the phase.
    pub open spec fn label_spec(self) -> Seq<char> {
        match self {
            BreathPhase::Inhale => "inhale"@,
            BreathPhase::Exhale => "exhale"@,
            BreathPhase::BadTracking => "bad_tracking"@,
            BreathPhase::Pause => "pause"@,
        }
    }

    /// The marker label of the phase.
    pub fn label(self) -> (label: &'static str)
        ensures
            label@ == self.label_spec(),
    {
        proof {
            reveal_strlit("inhale");
            reveal_strlit("exhale");
            reveal_strlit("bad_tracking");
            reveal_strlit("pause");
        }
        match self {
            BreathPhase::Inhale => "inhale",
            BreathPhase::Exhale => "exhale",
            BreathPhase::BadTracking => "bad_tracking",
            BreathPhase::Pause => "pause",
        }
    }
}

/// The phase a breath feedback sample names, if it names one; a sample that
/// names none is placed by its volume.
pub open spec fn named_breath_phase_spec(phase: Seq<char>) -> Option<BreathPhase> {
    let p = normalized_word(phase);
    if p == "inhale"@ || p == "inhaling"@ {
        Some(BreathPhase::Inhale)
    } else if p == "exhale"@ || p == "exhaling"@ {
        Some(BreathPhase::Exhale)
    } else if p == "bad-tracking"@ || p == "badtracking"@ {
        Some(BreathPhase::BadTracking)
    } else if p == "pause"@ || p == "paused"@ || p == "retention"@ || p == "hold"@ {
        Some(BreathPhase::Pause)
    } else {
        None
    }
}

/// The phase a breath feedback sample names, if it names one.
pub fn named_breath_phase(phase: &str) -> (named: Option<BreathPhase>)
    ensures
        named == named_breath_phase_spec(phase@),
{
    let p = normalize_word(phase);
    if chars_equal(&p, "inhale") || chars_equal(&p, "inhaling") {
        Some(BreathPhase::Inhale)
    } else if chars_equal(&p, "exhale") || chars_equal(&p, "exhaling") {
        Some(BreathPhase::Exhale)
    } else if chars_equal(&p, "bad-tracking") || chars_equal(&p, "badtracking") {
        Some(BreathPhase::BadTracking)
    } else if chars_equal(&p, "pause") || chars_equal(&p, "paused") || chars_equal(&p, "retention")
        || chars_equal(&p, "hold") {
        Some(BreathPhase::Pause)
    } else {
        None
    }
}

/// Which way the breathing state moves during a phase.
#[derive(Clone, Copy, Debug, PartialEq, Eq, Structural)]
pub enum BreathStateDirection {
    Rising,
    Falling,
    Holding,
}

/// The direction of the breathing state for a phase word: rising while
/// inhaling, falling while exhaling, holding otherwise.
pub open spec fn breath_state_direction_spec(phase: Seq<char>) -> BreathStateDirection {
    let p = normalized_word(phase);
    if p == "inhale"@ || p == "inhaling"@ {
        BreathStateDirection::Rising
    } else if p == "exhale"@ || p == "exhaling"@ {
        BreathStateDirection::Falling
    } else {
        BreathStateDirection::Holding
    }
}

/// The direction of the breathing state for a phase word.
pub fn breath_state_direction(phase: &str) -> (direction: BreathStateDirection)
    ensures
        direction == breath_state_direction_spec(phase@),
{
    let p = normalize_word(phase);
    if chars_equal(&p, "inhale") || chars_equal(&p, "inhaling") {
        BreathStateDirection::Rising
    } else if chars_equal(&p, "exhale") || chars_equal(&p, "exhaling") {
        BreathStateDirection::Falling
    } else {
        BreathStateDirection::Holding
    }
}

/// The key that identifies a breath feedback sample:
/// `<sequence>:<sample time>:<payload hash>`.
pub open spec fn breath_sample_key_spec(sequence_id: u64, sample_time_unix_ns: i64, payload_hash: Seq<char>) -> Seq<
    char,
> {
    dec_nat(sequence_id as nat) + ":"@ + dec_int(sample_time_unix_ns as int) + ":"@ + payload_hash
}

/// The key that identifies a breath feedback sample.
pub fn breath_sample_key(sequence_id: u64, sample_time_unix_ns: i64, payload_hash: &str) -> (key: String)
    ensures
        key@ == breath_sample_key_spec(sequence_id, sample_time_unix_ns, payload_hash@),
{
    let mut key = String::new();
    push_u64(&mut key, sequence_id);
    key.append(":");
    push_i64(&mut key, sample_time_unix_ns);
    key.append(":");
    key.append(payload_hash);
    proof {
        assert(key@ =~= breath_sample_key_spec(sequence_id, sample_time_unix_ns, payload_hash@));
    }
    key
}

/// A periodic marker is due when none was logged yet or at least `period`
/// XR updates went by since the last one.
pub open spec fn log_due_spec(last_log_frame: u64, frame: u64, period: u64) -> bool {
    last_log_frame == 0 || (if frame >= last_log_frame {
        frame - last_log_frame
    } else {
        0
    }) >= period
}

/// Whether a periodic marker is due at `frame`.
pub fn log_due(last_log_frame: u64, frame: u64, period: u64) -> (due: bool)
    ensures
        due == log_due_spec(last_log_frame, frame, period),
{
    let elapsed: u64 = if frame >= last_log_frame {
        frame - last_log_frame
    } else {
        0
    };
    last_log_frame == 0 || elapsed >= period
}

/// Whether the breath scale marker is due: for every new sample, and for a
/// changed scale at most every 30 XR updates.
pub fn breath_scale_log_due(new_sample: bool, changed: bool, last_log_frame: u64, frame: u64) -> (due: bool)
    ensures
        due == (new_sample || changed && log_due_spec(last_log_frame, frame, 30)),
{
    new_sample || changed && log_due(last_log_frame, frame, 30)
}

/// What became of the latest breath sample offered to the scale.
#[derive(Clone, Copy, Debug, PartialEq, Eq, Structural)]
pub enum BreathSampleIntake {
    /// No sample, or one of another stream.
    NoSample,
    /// The sample was taken in already.
    Duplicate,
    /// A new sample below the quality minimum.
    Rejected,
    /// A new sample that drives the scale.
    Accepted,
}

/// The key of the sample taken in last.
pub struct BreathIntakeState {
    pub last_sample_key: Option<String>,
}

/// The view of an optional key.
pub open spec fn key_view(key: Option<String>) -> Option<Seq<char>> {
    match key {
        Some(k) => Some(k@),
        None => None,
    }
}

/// The outcome of offering a sample of `stream` with key `key`.
pub open spec fn intake_spec(
    last: Option<Seq<char>>,
    stream: Option<Seq<char>>,
    expected_stream: Seq<char>,
    key: Seq<char>,
    quality_passes: bool,
) -> BreathSampleIntake {
    if stream != Some(expected_stream) {
        BreathSampleIntake::NoSample
    } else if last == Some(key) {
        BreathSampleIntake::Duplicate
    } else if quality_passes {
        BreathSampleIntake::Accepted
    } else {
        BreathSampleIntake::Rejected
    }
}

impl BreathIntakeState {
    /// Nothing taken in yet.
    pub fn new() -> (s: Self)
        ensures
            s.last_sample_key is None,
    {
        BreathIntakeState { last_sample_key: None }
    }

    /// Forgets the last sample (the breath controls were switched off).
    pub fn clear(&mut self)
        ensures
            final(self).last_sample_key is None,
    {
        self.last_sample_key = None;
    }

    /// Offers the latest sample, if any, with its stream and key: a sample
    /// of the expected stream whose key differs from the last one is taken
    /// in, accepted when its quality passes, rejected otherwise; either way
    /// its key becomes the last one.
    pub fn offer(&mut self, stream: Option<&str>, expected_stream: &str, key: &str, quality_passes: bool) -> (r:
        BreathSampleIntake)
        ensures
            r == intake_spec(
                key_view(old(self).last_sample_key),
                match stream {
                    Some(s) => Some(s@),
                    None => None,
                },
                expected_stream@,
                key@,
                quality_passes,
            ),
            (r == BreathSampleIntake::Accepted || r == BreathSampleIntake::Rejected) ==> key_view(
                final(self).last_sample_key,
            ) == Some(key@),
            (r == BreathSampleIntake::NoSample || r == BreathSampleIntake::Duplicate) ==> key_view(
                final(self).last_sample_key,
            ) == key_view(old(self).last_sample_key),
    {
        let matches_stream = match stream {
            Some(s) => str_equal(s, expected_stream),
            None => false,
        };
        if !matches_stream {
            return BreathSampleIntake::NoSample;
        }
        let duplicate = match &self.last_sample_key {
            Some(last) => str_equal(last.as_str(), key),
            None => false,
        };
        if duplicate {
            return BreathSampleIntake::Duplicate;
        }
        self.last_sample_key = Some(key.to_string());
        if quality_passes {
            BreathSampleIntake::Accepted
        } else {
            BreathSampleIntake::Rejected
        }
    }
}

/// A sample is taken in once: offered again right after it was taken in,
/// with the same key, it is a duplicate.
pub proof fn lemma_sample_taken_in_once(
    last: Option<Seq<char>>,
    stream: Seq<char>,
    key: Seq<char>,
    quality_passes: bool,
    quality_passes_again: bool,
)
    requires
        intake_spec(last, Some(stream), stream, key, quality_passes) == BreathSampleIntake::Accepted
            || intake_spec(last, Some(stream), stream, key, quality_passes) == BreathSampleIntake::Rejected,
    ensures
        intake_spec(Some(key), Some(stream), stream, key, quality_passes_again) == BreathSampleIntake::Duplicate,
{
}

} // verus!

