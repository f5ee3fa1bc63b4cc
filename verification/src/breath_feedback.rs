//! Rules of the breath feedback subscriber: its configuration, the framing of
//! the commands it sends, and the choice of field values read from a broker
//! stream event.
use vstd::prelude::*;
use crate::text::{
    bool_text, dec_nat, marker_token_spec, push_bool, push_marker_token, push_u64, trim,
    trimmed_chars, string_from_chars, str_equal,
};
use crate::camera_pairing::opt_string_view;
use crate::websocket::{client_text_frame, client_text_frame_spec, le_byte};

verus! {

/// Stream that carries breath feedback states.
pub const BREATH_FEEDBACK_STREAM_ID: &'static str = "stream.breath.feedback_state";

/// Receiver id announced when subscribing.
pub const BREATH_FEEDBACK_RECEIVER_ID: &'static str = "app.makepad_camera_shell.breath_feedback";

/// Command sent back for every sample received.
pub const BREATH_FEEDBACK_RECEIPT_COMMAND: &'static str = "breath_feedback.received";

/// Schema of the receipt command.
pub const BREATH_FEEDBACK_RECEIPT_SCHEMA: &'static str = "rusty.manifold.breath.feedback_receipt.v1";

/// Connection settings of the breath feedback subscriber.
pub struct ManifoldBreathFeedbackConfig {
    pub enabled: bool,
    pub broker_host: String,
    pub broker_port: u16,
    pub stream_id: String,
    pub receiver_id: String,
    pub connect_timeout_ms: u64,
}

impl ManifoldBreathFeedbackConfig {
    /// The settings used when nothing is configured: disabled, local broker
    /// on port 8765, the feedback stream and receiver, 250 ms timeout.
    pub fn default() -> (config: Self)
        ensures
            !config.enabled,
            config.broker_host@ == "127.0.0.1"@,
            config.broker_port == 8765,
            config.stream_id@ == BREATH_FEEDBACK_STREAM_ID@,
            config.receiver_id@ == BREATH_FEEDBACK_RECEIVER_ID@,
            config.connect_timeout_ms == 250,
    {
        ManifoldBreathFeedbackConfig {
            enabled: false,
            broker_host: String::from_str("127.0.0.1"),
            broker_port: 8765,
            stream_id: String::from_str(BREATH_FEEDBACK_STREAM_ID),
            receiver_id: String::from_str(BREATH_FEEDBACK_RECEIVER_ID),
            connect_timeout_ms: 250,
        }
    }

    /// Field-by-field equality of two configurations, strings by content.
    pub open spec fn same_spec(self, other: Self) -> bool {
        &&& self.enabled == other.enabled
        &&& self.broker_host@ == other.broker_host@
        &&& self.broker_port == other.broker_port
        &&& self.stream_id@ == other.stream_id@
        &&& self.receiver_id@ == other.receiver_id@
        &&& self.connect_timeout_ms == other.connect_timeout_ms
    }

    /// Field-by-field equality of two configurations.
    pub fn same_as(&self, other: &Self) -> (r: bool)
        ensures
            r == self.same_spec(*other),
    {
        self.enabled == other.enabled && str_equal(self.broker_host.as_str(), other.broker_host.as_str())
            && self.broker_port == other.broker_port && str_equal(
            self.stream_id.as_str(),
            other.stream_id.as_str(),
        ) && str_equal(self.receiver_id.as_str(), other.receiver_id.as_str())
            && self.connect_timeout_ms == other.connect_timeout_ms
    }
}

/// Multiplier that spreads a message sequence id over the masking key.
pub const BREATH_MASK_MULTIPLIER: u64 = 0xD1B5_4A32_D192_ED03;

/// The masking key of frame `sequence_id`: bytes 0, 3, 5 and 7 of the
/// little-endian wrapping product of the id with [`BREATH_MASK_MULTIPLIER`].
pub open spec fn breath_mask_spec(sequence_id: u64) -> Seq<u8> {
    let p = sequence_id.wrapping_mul(BREATH_MASK_MULTIPLIER);
    seq![le_byte(p, 0), le_byte(p, 3), le_byte(p, 5), le_byte(p, 7)]
}

/// The masking key of the subscriber frame with the given sequence id.
pub fn websocket_mask(sequence_id: u64) -> (mask: [u8; 4])
    ensures
        mask@ == breath_mask_spec(sequence_id),
{
    let p = sequence_id.wrapping_mul(BREATH_MASK_MULTIPLIER);
    assert(p >> 0u64 == p) by (bit_vector);
    [(p & 0xff) as u8, ((p >> 24u64) & 0xff) as u8, ((p >> 40u64) & 0xff) as u8, ((p >> 56u64)
        & 0xff) as u8]
}

/// The masked text frame that carries a subscriber command.
pub fn websocket_client_text_frame(payload: &[u8], sequence_id: u64) -> (frame: Vec<u8>)
    ensures
        frame@ == client_text_frame_spec(payload@, breath_mask_spec(sequence_id)),
{
    let mask = websocket_mask(sequence_id);
    client_text_frame(payload, mask)
}

/// Index of the first candidate that is a string with non-blank content.
pub open spec fn first_nonblank_index(values: Seq<Option<Seq<char>>>) -> Option<int>
    decreases values.len(),
{
    if values.len() == 0 {
        None
    } else if values[0] is Some && trim(values[0]->0).len() > 0 {
        Some(0)
    } else {
        match first_nonblank_index(values.drop_first()) {
            Some(i) => Some(i + 1),
            None => None,
        }
    }
}

/// The first non-blank candidate string, trimmed, else the trimmed default.
pub open spec fn first_string_spec(values: Seq<Option<Seq<char>>>, default: Seq<char>) -> Seq<
    char,
> {
    match first_nonblank_index(values) {
        Some(i) => trim(values[i]->0),
        None => trim(default),
    }
}

/// The views of candidate strings.
pub open spec fn option_string_views(values: Seq<Option<String>>) -> Seq<Option<Seq<char>>> {
    values.map_values(
        |v: Option<String>|
            match v {
                Some(s) => Some(s@),
                None => None,
            },
    )
}

proof fn lemma_first_nonblank_prefix(values: Seq<Option<Seq<char>>>, i: int)
    requires
        0 <= i < values.len(),
        forall|j: int| 0 <= j < i ==> !(values[j] is Some && trim(values[j]->0).len() > 0),
    ensures
        first_nonblank_index(values) == (if values[i] is Some && trim(values[i]->0).len() > 0 {
            Some(i)
        } else {
            match first_nonblank_index(values.skip(i + 1)) {
                Some(k) => Some(k + i + 1),
                None => None,
            }
        }),
    decreases i,
{
    if i > 0 {
        let rest = values.drop_first();
        assert forall|j: int| 0 <= j < i - 1 implies !(rest[j] is Some && trim(rest[j]->0).len()
            > 0) by {
            assert(rest[j] == values[j + 1]);
        }
        lemma_first_nonblank_prefix(rest, i - 1);
        assert(rest.skip(i) == values.skip(i + 1));
    } else {
        assert(values.skip(1) == values.drop_first());
    }
}

/// The first candidate holding a non-blank string, trimmed; the trimmed
/// default when there is none.
pub fn first_string(values: &Vec<Option<String>>, default: &str) -> (out: String)
    ensures
        out@ == first_string_spec(option_string_views(values@), default@),
{
    let ghost views = option_string_views(values@);
    let mut i: usize = 0;
    while i < values.len()
        invariant
            i <= values@.len(),
            views == option_string_views(values@),
            forall|j: int| 0 <= j < i ==> !(views[j] is Some && trim(views[j]->0).len() > 0),
        decreases values.len() - i,
    {
        match &values[i] {
            Some(s) => {
                let t = trimmed_chars(s.as_str());
                if t.len() > 0 {
                    proof {
                        lemma_first_nonblank_prefix(views, i as int);
                    }
                    return string_from_chars(&t);
                }
            },
            None => {},
        }
        i = i + 1;
    }
    proof {
        lemma_first_nonblank_none(views);
    }
    let t = trimmed_chars(default);
    string_from_chars(&t)
}

proof fn lemma_first_nonblank_none(values: Seq<Option<Seq<char>>>)
    requires
        forall|j: int| 0 <= j < values.len() ==> !(values[j] is Some && trim(values[j]->0).len() > 0),
    ensures
        first_nonblank_index(values) is None,
    decreases values.len(),
{
    if values.len() > 0 {
        let rest = values.drop_first();
        assert forall|j: int| 0 <= j < rest.len() implies !(rest[j] is Some && trim(rest[j]->0).len()
            > 0) by {
            assert(rest[j] == values[j + 1]);
        }
        lemma_first_nonblank_none(rest);
    }
}

/// How one JSON field reads as an integer: as an unsigned and as a signed
/// 64-bit value, each `None` when the field does not hold one.
pub struct JsonInteger {
    pub as_u64: Option<u64>,
    pub as_i64: Option<i64>,
}

/// The unsigned value of a field: its unsigned reading, else its signed
/// reading when that is not negative.
pub open spec fn unsigned_reading(v: JsonInteger) -> Option<u64> {
    match v.as_u64 {
        Some(u) => Some(u),
        None => match v.as_i64 {
            Some(i) => if i >= 0 {
                Some(i as u64)
            } else {
                None
            },
            None => None,
        },
    }
}

/// The signed value of a field: its signed reading, else its unsigned reading
/// when that fits in 64 signed bits.
pub open spec fn signed_reading(v: JsonInteger) -> Option<i64> {
    match v.as_i64 {
        Some(i) => Some(i),
        None => match v.as_u64 {
            Some(u) => if u <= i64::MAX {
                Some(u as i64)
            } else {
                None
            },
            None => None,
        },
    }
}

/// The first candidate with an unsigned reading.
pub open spec fn first_u64_spec(values: Seq<JsonInteger>) -> Option<u64>
    decreases values.len(),
{
    if values.len() == 0 {
        None
    } else if unsigned_reading(values[0]) is Some {
        unsigned_reading(values[0])
    } else {
        first_u64_spec(values.drop_first())
    }
}

/// The first candidate with a signed reading.
pub open spec fn first_i64_spec(values: Seq<JsonInteger>) -> Option<i64>
    decreases values.len(),
{
    if values.len() == 0 {
        None
    } else if signed_reading(values[0]) is Some {
        signed_reading(values[0])
    } else {
        first_i64_spec(values.drop_first())
    }
}

/// The first candidate field that reads as an unsigned integer.
pub fn first_u64(values: &Vec<JsonInteger>) -> (out: Option<u64>)
    ensures
        out == first_u64_spec(values@),
{
    let mut i: usize = values.len();
    let mut found: Option<u64> = None;
    while i > 0
        invariant
            i <= values@.len(),
            found == first_u64_spec(values@.skip(i as int)),
        decreases i,
    {
        i = i - 1;
        let v = &values[i];
        let reading = match v.as_u64 {
            Some(u) => Some(u),
            None => match v.as_i64 {
                Some(x) => if x >= 0 {
                    Some(x as u64)
                } else {
                    None
                },
                None => None,
            },
        };
        assert(values@.skip(i as int).drop_first() == values@.skip(i + 1));
        if reading.is_some() {
            found = reading;
        }
    }
    assert(values@.skip(0) == values@);
    found
}

/// The first candidate field that reads as a signed integer.
pub fn first_i64(values: &Vec<JsonInteger>) -> (out: Option<i64>)
    ensures
        out == first_i64_spec(values@),
{
    let mut i: usize = values.len();
    let mut found: Option<i64> = None;
    while i > 0
        invariant
            i <= values@.len(),
            found == first_i64_spec(values@.skip(i as int)),
        decreases i,
    {
        i = i - 1;
        let v = &values[i];
        let reading = match v.as_i64 {
            Some(x) => Some(x),
            None => match v.as_u64 {
                Some(u) => if u <= (i64::MAX as u64) {
                    Some(u as i64)
                } else {
                    None
                },
                None => None,
            },
        };
        assert(values@.skip(i as int).drop_first() == values@.skip(i + 1));
        if reading.is_some() {
            found = reading;
        }
    }
    assert(values@.skip(0) == values@);
    found
}

/// The raw property texts behind a breath feedback configuration, as the
/// runtime settings report them (`default` when a property is unset).
pub struct BreathFeedbackConfigRaw {
    pub enabled: String,
    pub stream: String,
    pub receiver: String,
    pub broker_host: String,
    pub broker_port: String,
    pub connect_timeout: String,
}

/// The configuration marker line of the breath feedback subscriber.
pub open spec fn breath_feedback_config_marker_spec(
    config: ManifoldBreathFeedbackConfig,
    raw: BreathFeedbackConfigRaw,
) -> Seq<char> {
    "RUSTY_QUEST_MAKEPAD_BREATH_FEEDBACK_CONFIG schema=rusty.quest.makepad-breath-feedback-config.v1 phase=hotload status="@
        + (if config.enabled {
        "enabled"@
    } else {
        "disabled"@
    }) + " enabled="@ + bool_text(config.enabled) + " enabledRaw="@ + marker_token_spec(
        raw.enabled@,
    ) + " stream="@ + marker_token_spec(config.stream_id@) + " streamRaw="@ + marker_token_spec(
        raw.stream@,
    ) + " receiver="@ + marker_token_spec(config.receiver_id@) + " receiverRaw="@
        + marker_token_spec(raw.receiver@) + " brokerHost="@ + marker_token_spec(
        config.broker_host@,
    ) + " brokerHostRaw="@ + marker_token_spec(raw.broker_host@) + " brokerPort="@ + dec_nat(
        config.broker_port as nat,
    ) + " brokerPortRaw="@ + marker_token_spec(raw.broker_port@) + " connectTimeoutMs="@
        + dec_nat(config.connect_timeout_ms as nat) + " connectTimeoutRaw="@ + marker_token_spec(
        raw.connect_timeout@,
    ) + " flagsOwner=hostessctl.record_values"@
}

/// Describes the resolved subscriber configuration and the raw property
/// values it came from.
pub fn manifold_breath_feedback_config_marker_line(
    config: &ManifoldBreathFeedbackConfig,
    raw: &BreathFeedbackConfigRaw,
) -> (line: String)
    ensures
        line@ == breath_feedback_config_marker_spec(*config, *raw),
{
    let mut out = String::from_str(
        "RUSTY_QUEST_MAKEPAD_BREATH_FEEDBACK_CONFIG schema=rusty.quest.makepad-breath-feedback-config.v1 phase=hotload status=",
    );
    if config.enabled {
        out.append("enabled");
    } else {
        out.append("disabled");
    }
    out.append(" enabled=");
    push_bool(&mut out, config.enabled);
    out.append(" enabledRaw=");
    push_marker_token(&mut out, raw.enabled.as_str());
    out.append(" stream=");
    push_marker_token(&mut out, config.stream_id.as_str());
    out.append(" streamRaw=");
    push_marker_token(&mut out, raw.stream.as_str());
    out.append(" receiver=");
    push_marker_token(&mut out, config.receiver_id.as_str());
    out.append(" receiverRaw=");
    push_marker_token(&mut out, raw.receiver.as_str());
    out.append(" brokerHost=");
    push_marker_token(&mut out, config.broker_host.as_str());
    out.append(" brokerHostRaw=");
    push_marker_token(&mut out, raw.broker_host.as_str());
    out.append(" brokerPort=");
    push_u64(&mut out, config.broker_port as u64);
    out.append(" brokerPortRaw=");
    push_marker_token(&mut out, raw.broker_port.as_str());
    out.append(" connectTimeoutMs=");
    push_u64(&mut out, config.connect_timeout_ms);
    out.append(" connectTimeoutRaw=");
    push_marker_token(&mut out, raw.connect_timeout.as_str());
    out.append(" flagsOwner=hostessctl.record_values");
    out
}

/// The marker line emitted when a subscriber starts.
pub open spec fn breath_feedback_subscriber_marker_spec(config: ManifoldBreathFeedbackConfig) -> Seq<
    char,
> {
    "RUSTY_QUEST_MAKEPAD_BREATH_FEEDBACK_SUBSCRIBER schema=rusty.quest.makepad-breath-feedback-subscriber.v1 phase=subscribe status=ready stream="@
        + marker_token_spec(config.stream_id@) + " receiver="@ + marker_token_spec(
        config.receiver_id@,
    ) + " brokerHost="@ + marker_token_spec(config.broker_host@) + " brokerPort="@ + dec_nat(
        config.broker_port as nat,
    )
        + " subscribeCommand=subscribe receiptCommand=breath_feedback.received receiptSchema=rusty.manifold.breath.feedback_receipt.v1"@
}

/// Announces a new subscription with its stream, receiver and broker.
pub fn breath_feedback_subscriber_marker_line(config: &ManifoldBreathFeedbackConfig) -> (line:
    String)
    ensures
        line@ == breath_feedback_subscriber_marker_spec(*config),
{
    let mut out = String::from_str(
        "RUSTY_QUEST_MAKEPAD_BREATH_FEEDBACK_SUBSCRIBER schema=rusty.quest.makepad-breath-feedback-subscriber.v1 phase=subscribe status=ready stream=",
    );
    push_marker_token(&mut out, config.stream_id.as_str());
    out.append(" receiver=");
    push_marker_token(&mut out, config.receiver_id.as_str());
    out.append(" brokerHost=");
    push_marker_token(&mut out, config.broker_host.as_str());
    out.append(" brokerPort=");
    push_u64(&mut out, config.broker_port as u64);
    out.append(
        " subscribeCommand=subscribe receiptCommand=breath_feedback.received receiptSchema=rusty.manifold.breath.feedback_receipt.v1",
    );
    out
}


/// The stream a broker message reports for the breath feedback stream
/// `expected_stream`: when the message is a `stream_event` with an object
/// payload, names that stream (first non-blank stream field, else the
/// expected one) and carries a volume. `stream_fields` are the message's
/// `stream` and `stream_id` fields, then the payload's.
pub open spec fn accepted_breath_event_stream_spec(
    message_type: Option<Seq<char>>,
    payload_is_object: bool,
    stream_fields: Seq<Option<Seq<char>>>,
    expected_stream: Seq<char>,
    volume_present: bool,
) -> Option<Seq<char>> {
    let stream = first_string_spec(stream_fields, expected_stream);
    if message_type == Some("stream_event"@) && payload_is_object && stream == expected_stream
        && volume_present {
        Some(stream)
    } else {
        None
    }
}

/// Decides whether a broker message is a breath feedback event of the
/// subscribed stream; returns the stream it names when it is.
pub fn accepted_breath_event_stream(
    message_type: Option<&str>,
    payload_is_object: bool,
    stream_fields: &Vec<Option<String>>,
    expected_stream: &str,
    volume_present: bool,
) -> (stream: Option<String>)
    ensures
        opt_string_view(stream) == accepted_breath_event_stream_spec(
            match message_type {
                Some(t) => Some(t@),
                None => None,
            },
            payload_is_object,
            option_string_views(stream_fields@),
            expected_stream@,
            volume_present,
        ),
{
    let is_event = match message_type {
        Some(t) => str_equal(t, "stream_event"),
        None => false,
    };
    if !is_event || !payload_is_object {
        return None;
    }
    let stream = first_string(stream_fields, expected_stream);
    if !str_equal(stream.as_str(), expected_stream) || !volume_present {
        return None;
    }
    Some(stream)
}

/// What a check of the subscriber configuration leads to.
#[derive(Clone, Copy, Debug, PartialEq, Eq, Structural)]
pub struct SubscriptionDecision {
    /// The configuration marker changed and is emitted again.
    pub emit_config_marker: bool,
    /// Subscription is disabled; a running subscriber is dropped.
    pub drop_subscriber: bool,
    /// A subscriber is (re)started with the new configuration.
    pub start_subscriber: bool,
}

/// Decides, from the configuration marker emitted last, the current
/// subscriber's configuration and the configuration now in force, whether
/// the marker is emitted and whether the subscriber is dropped or restarted.
pub fn breath_subscription_decision(
    previous_marker: Option<&str>,
    marker: &str,
    running: Option<&ManifoldBreathFeedbackConfig>,
    config: &ManifoldBreathFeedbackConfig,
) -> (d: SubscriptionDecision)
    ensures
        d.emit_config_marker == match previous_marker {
            Some(p) => p@ != marker@,
            None => true,
        },
        d.drop_subscriber == !config.enabled,
        d.start_subscriber == (config.enabled && match running {
            Some(r) => !r.same_spec(*config),
            None => true,
        }),
{
    let emit_config_marker = match previous_marker {
        Some(p) => !str_equal(p, marker),
        None => true,
    };
    let start_subscriber = config.enabled && match running {
        Some(r) => !r.same_as(config),
        None => true,
    };
    SubscriptionDecision { emit_config_marker, drop_subscriber: !config.enabled, start_subscriber }
}


/// Two subscriber configurations are the same exactly when every field is
/// equal, strings by content: one that differs in any field, the broker host
/// included, is another configuration, and an enabled one restarts the
/// subscriber.
pub proof fn lemma_same_config_iff_all_fields_equal(a: ManifoldBreathFeedbackConfig, b: ManifoldBreathFeedbackConfig)
    ensures
        a.same_spec(b) <==> (a.enabled == b.enabled && a.broker_host@ == b.broker_host@ && a.broker_port
            == b.broker_port && a.stream_id@ == b.stream_id@ && a.receiver_id@ == b.receiver_id@
            && a.connect_timeout_ms == b.connect_timeout_ms),
        a.broker_host@ != b.broker_host@ ==> !a.same_spec(b),
        a.same_spec(b) <==> b.same_spec(a),
        a.same_spec(a),
{
}

} // verus!
