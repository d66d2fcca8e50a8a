//! The messages of the wire protocol.
//!
//! Outbound: the join message that opens a session, and one message per
//! frame. Inbound: the server's feedback on the network, in which every
//! field may be missing.

use vstd::prelude::*;
use vstd::string::StringExecFns;
use crate::codec::base64_bytes;
use crate::codec::base64_text;
use crate::codec::can_encode;
use crate::codec::encodable;
use crate::codec::standard_decode;
use crate::codec::standard_encode;
use crate::json::array;
use crate::json::field;
use crate::json::object;
use crate::json::parsed;
use crate::json::rendered;
use crate::json::text;
use crate::json::Json;
use crate::json::JsonValue;
use crate::profile::Resolution;
use crate::profile::StreamProfile;
use crate::profile::DEGRADED_HEIGHT;
use crate::profile::DEGRADED_WIDTH;
use crate::profile::NOMINAL_HEIGHT;
use crate::profile::NOMINAL_WIDTH;
use crate::text::resolution_label;
use crate::text::resolution_text;

verus! {

/// Lowest quality that the join message declares.
pub const DECLARED_MIN_QUALITY: u64 = 20;

/// Highest quality that the join message declares.
pub const DECLARED_MAX_QUALITY: u64 = 90;

/// The capabilities that the join message declares.
pub open spec fn capabilities_document() -> JsonValue {
    JsonValue::Object(
        seq![
            ("adaptive_quality"@, JsonValue::Bool(true)),
            ("min_quality"@, JsonValue::Integer(DECLARED_MIN_QUALITY)),
            ("max_quality"@, JsonValue::Integer(DECLARED_MAX_QUALITY)),
            (
                "resolutions"@,
                JsonValue::Array(
                    seq![JsonValue::Text("640x480"@), JsonValue::Text("1280x720"@)],
                ),
            ),
        ],
    )
}

/// The message that opens a session, on the first connection and on every
/// later one.
pub open spec fn join_document(camera_id: Seq<char>) -> JsonValue {
    JsonValue::Object(
        seq![("join"@, JsonValue::Text(camera_id)), ("capabilities"@, capabilities_document())],
    )
}

/// The statistics that go with a frame.
pub open spec fn stats_document(profile: StreamProfile) -> JsonValue {
    JsonValue::Object(
        seq![
            ("resolution"@, JsonValue::Text(resolution_text(profile.width, profile.height))),
            ("quality"@, JsonValue::Integer(profile.quality as u64)),
        ],
    )
}

/// The message that carries one frame.
pub open spec fn frame_document(
    camera_id: Seq<char>,
    frame: Seq<u8>,
    timestamp_ms: u64,
    profile: StreamProfile,
) -> JsonValue {
    JsonValue::Object(
        seq![
            ("camera_id"@, JsonValue::Text(camera_id)),
            ("data"@, JsonValue::Text(base64_text(frame))),
            ("timestamp"@, JsonValue::Integer(timestamp_ms)),
            ("stats"@, stats_document(profile)),
        ],
    )
}

/// The frame bytes that a message carries: its `data` member, decoded.
pub open spec fn payload_of(message: JsonValue) -> Option<Seq<u8>> {
    match message.member("data"@) {
        Some(JsonValue::Text(data)) => base64_bytes(data),
        _ => None,
    }
}

/// What a feedback message asks to be written to the shared scalars. A
/// `None` leaves the scalar as it is.
#[derive(Clone, Copy, Debug, PartialEq, Eq, Structural)]
pub struct FeedbackEffect {
    pub congested: Option<bool>,
    pub quality: Option<u32>,
    pub resolution: Option<Resolution>,
}

/// The effect that changes nothing.
pub open spec fn no_effect() -> FeedbackEffect {
    FeedbackEffect { congested: None, quality: None, resolution: None }
}

/// The effect that marks the network as not congested and changes nothing
/// else.
pub open spec fn clears_congestion() -> FeedbackEffect {
    FeedbackEffect { congested: Some(false), quality: None, resolution: None }
}

/// The quality that a feedback object suggests: its `suggested_quality`
/// where that is a whole number from 0 up, reduced to 32 bits.
pub open spec fn suggested_quality(feedback: JsonValue) -> Option<u32> {
    match feedback.member("suggested_quality"@) {
        Some(JsonValue::Integer(q)) => Some((q % 0x1_0000_0000) as u32),
        _ => None,
    }
}

/// The resolution that a feedback object suggests: its
/// `suggested_resolution` where that names one of the two resolutions.
pub open spec fn suggested_resolution(feedback: JsonValue) -> Option<Resolution> {
    match feedback.member("suggested_resolution"@) {
        Some(JsonValue::Text(name)) => if name == "640x480"@ {
            Some(Resolution { width: DEGRADED_WIDTH, height: DEGRADED_HEIGHT })
        } else if name == "1280x720"@ {
            Some(Resolution { width: NOMINAL_WIDTH, height: NOMINAL_HEIGHT })
        } else {
            None
        },
        _ => None,
    }
}

/// The effect of a message that was read as a document.
///
/// A message without a `network_feedback` member says that the network is
/// not congested. Of a feedback, `congested` is taken over, and counts as
/// false where it is missing; the suggestions that are there are taken over
/// with it. A `congested` that is no truth value makes the message void.
pub open spec fn feedback_in(message: JsonValue) -> FeedbackEffect {
    match message.member("network_feedback"@) {
        None => clears_congestion(),
        Some(feedback) => match feedback.member("congested"@) {
            None => FeedbackEffect {
                congested: Some(false),
                quality: suggested_quality(feedback),
                resolution: suggested_resolution(feedback),
            },
            Some(JsonValue::Bool(congested)) => FeedbackEffect {
                congested: Some(congested),
                quality: suggested_quality(feedback),
                resolution: suggested_resolution(feedback),
            },
            Some(_) => no_effect(),
        },
    }
}

/// The effect of a message: that of its document, and none where the
/// message is no document.
pub open spec fn feedback_of(message: Option<JsonValue>) -> FeedbackEffect {
    match message {
        Some(document) => feedback_in(document),
        None => no_effect(),
    }
}

/// The names under which the join message declares the two resolutions, and
/// under which the server suggests one, are those that a frame's statistics
/// carry.
pub proof fn lemma_resolution_names()
    ensures
        "640x480"@ == resolution_text(DEGRADED_WIDTH, DEGRADED_HEIGHT),
        "1280x720"@ == resolution_text(NOMINAL_WIDTH, NOMINAL_HEIGHT),
{
    reveal_strlit("640x480");
    reveal_strlit("1280x720");
    reveal_with_fuel(crate::text::decimal, 5);
    assert("640x480"@ =~= resolution_text(DEGRADED_WIDTH, DEGRADED_HEIGHT));
    assert("1280x720"@ =~= resolution_text(NOMINAL_WIDTH, NOMINAL_HEIGHT));
}

/// Builds the message that opens a session.
pub fn join_message(camera_id: &str) -> (message: Json)
    ensures
        message@ == join_document(camera_id@),
{
    let mut resolutions: Vec<Json> = Vec::new();
    resolutions.push(text("640x480"));
    resolutions.push(text("1280x720"));
    let listed = array(resolutions);
    assert(listed@->Array_0 =~= seq![JsonValue::Text("640x480"@), JsonValue::Text("1280x720"@)]);
    let mut declared: Vec<(String, Json)> = Vec::new();
    declared.push(field("adaptive_quality", Json::Bool(true)));
    declared.push(field("min_quality", Json::Integer(DECLARED_MIN_QUALITY)));
    declared.push(field("max_quality", Json::Integer(DECLARED_MAX_QUALITY)));
    declared.push(field("resolutions", listed));
    let capabilities = object(declared);
    assert(capabilities@->Object_0 =~= capabilities_document()->Object_0);
    let mut members: Vec<(String, Json)> = Vec::new();
    members.push(field("join", text(camera_id)));
    members.push(field("capabilities", capabilities));
    let message = object(members);
    assert(message@->Object_0 =~= join_document(camera_id@)->Object_0);
    message
}

/// Builds the message that carries one frame. The payload of the message is
/// the frame, byte for byte.
pub fn frame_message(
    camera_id: &str,
    frame: &[u8],
    timestamp_ms: u64,
    profile: &StreamProfile,
) -> (message: Json)
    requires
        encodable(frame@.len()),
    ensures
        message@ == frame_document(camera_id@, frame@, timestamp_ms, *profile),
        payload_of(message@) == Some(frame@),
{
    let label = resolution_label(profile.width, profile.height);
    let mut measured: Vec<(String, Json)> = Vec::new();
    measured.push(field("resolution", text(label.as_str())));
    measured.push(field("quality", Json::Integer(profile.quality as u64)));
    let stats = object(measured);
    assert(stats@->Object_0 =~= stats_document(*profile)->Object_0);
    let data = standard_encode(frame);
    let mut members: Vec<(String, Json)> = Vec::new();
    members.push(field("camera_id", text(camera_id)));
    members.push(field("data", text(data.as_str())));
    members.push(field("timestamp", Json::Integer(timestamp_ms)));
    members.push(field("stats", stats));
    let message = object(members);
    assert(message@->Object_0 =~= frame_document(
        camera_id@,
        frame@,
        timestamp_ms,
        *profile,
    )->Object_0);
    proof {
        lemma_frame_document_payload(camera_id@, frame@, timestamp_ms, *profile);
    }
    message
}

/// The `data` member of a frame message is the text of the frame.
proof fn lemma_frame_document_payload(
    camera_id: Seq<char>,
    frame: Seq<u8>,
    timestamp_ms: u64,
    profile: StreamProfile,
)
    ensures
        frame_document(camera_id, frame, timestamp_ms, profile).member("data"@) == Some(
            JsonValue::Text(base64_text(frame)),
        ),
{
    reveal_strlit("data");
    let members = frame_document(camera_id, frame, timestamp_ms, profile)->Object_0;
    reveal_strlit("timestamp");
    reveal_strlit("stats");
    assert(members[3].0 != "data"@) by {
        assert("stats"@.len() != "data"@.len());
    }
    assert(members[2].0 != "data"@) by {
        assert("timestamp"@.len() != "data"@.len());
    }
    reveal_with_fuel(crate::json::member_before, 4);
}

/// The frame bytes that a message carries, `None` where it has no `data`
/// member that is base64 text.
pub fn frame_payload(message: &Json) -> (r: Option<Vec<u8>>)
    ensures
        match r {
            Some(bytes) => payload_of(message@) == Some(bytes@),
            None => payload_of(message@).is_none(),
        },
{
    match message.member("data") {
        Some(data) => match data.as_text() {
            Some(encoded) => standard_decode(encoded.as_str()),
            None => None,
        },
        None => None,
    }
}

/// The quality that a feedback object suggests.
fn read_quality(feedback: &Json) -> (r: Option<u32>)
    ensures
        r == suggested_quality(feedback@),
{
    match feedback.member("suggested_quality") {
        Some(value) => match value.as_unsigned() {
            Some(q) => Some((q % 0x1_0000_0000) as u32),
            None => None,
        },
        None => None,
    }
}

/// The resolution that a feedback object suggests.
fn read_resolution(feedback: &Json) -> (r: Option<Resolution>)
    ensures
        r == suggested_resolution(feedback@),
{
    match feedback.member("suggested_resolution") {
        Some(value) => match value.as_text() {
            Some(name) => {
                let degraded: String = String::from_str("640x480");
                let nominal: String = String::from_str("1280x720");
                if *name == degraded {
                    Some(Resolution { width: DEGRADED_WIDTH, height: DEGRADED_HEIGHT })
                } else if *name == nominal {
                    Some(Resolution { width: NOMINAL_WIDTH, height: NOMINAL_HEIGHT })
                } else {
                    None
                }
            },
            None => None,
        },
        None => None,
    }
}

/// The effect of a message that was read as a document.
pub fn read_feedback(message: &Json) -> (effect: FeedbackEffect)
    ensures
        effect == feedback_in(message@),
{
    match message.member("network_feedback") {
        None => FeedbackEffect { congested: Some(false), quality: None, resolution: None },
        Some(feedback) => match feedback.member("congested") {
            None => FeedbackEffect {
                congested: Some(false),
                quality: read_quality(feedback),
                resolution: read_resolution(feedback),
            },
            Some(flag) => match flag.as_bool() {
                Some(congested) => FeedbackEffect {
                    congested: Some(congested),
                    quality: read_quality(feedback),
                    resolution: read_resolution(feedback),
                },
                None => FeedbackEffect { congested: None, quality: None, resolution: None },
            },
        },
    }
}

/// The effect of a message as it came over the wire: that of the document
/// it holds, and none where it holds no document.
pub fn decode_feedback(message: &str) -> (effect: FeedbackEffect)
    ensures
        effect == feedback_of(parsed(message@)),
{
    match Json::parse(message) {
        Some(document) => read_feedback(&document),
        None => FeedbackEffect { congested: None, quality: None, resolution: None },
    }
}

/// The text of the message that opens a session.
pub fn join_text(camera_id: &str) -> (message: String)
    ensures
        message@ == rendered(join_document(camera_id@)),
{
    join_message(camera_id).render()
}

/// The text of the message that carries one frame, `None` where the frame
/// is too long to be encoded.
pub fn frame_text(camera_id: &str, frame: &[u8], timestamp_ms: u64, profile: &StreamProfile) -> (message:
    Option<String>)
    ensures
        match message {
            Some(text) => encodable(frame@.len()) && text@ == rendered(
                frame_document(camera_id@, frame@, timestamp_ms, *profile),
            ),
            None => !encodable(frame@.len()),
        },
{
    if can_encode(frame.len()) {
        Some(frame_message(camera_id, frame, timestamp_ms, profile).render())
    } else {
        None
    }
}

} // verus!
