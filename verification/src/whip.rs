//! The signaling exchange: one request that carries the local session
//! description, one reply that carries the remote one.
//!
//! Both travel as `{"desc": "<base64 of the description's JSON text>"}`.
//! This module builds the request body and takes the reply apart; sending
//! the request is the caller's part.

use vstd::prelude::*;
use vstd::string::*;
use vstd::utf8::encode_utf8;
use webrtc::peer_connection::sdp::sdp_type::RTCSdpType;
use webrtc::peer_connection::sdp::session_description::RTCSessionDescription;

verus! {

/// The base64 text that `base64::encode` gives for `octets` (standard
/// alphabet, padded).
pub uninterp spec fn base64_text(octets: Seq<u8>) -> Seq<char>;

/// What `base64::decode` gives for `text`: the octets, or `None` where it
/// answers an error.
pub uninterp spec fn base64_octets(text: Seq<u8>) -> Option<Seq<u8>>;

/// The JSON string literal, quotes and escapes included, that
/// `serde_json::to_string` gives for the string `text`.
pub uninterp spec fn json_string(text: Seq<char>) -> Seq<char>;

/// The string that `serde_json` finds under `key` in the JSON object that
/// `text` holds; `None` where `text` is no JSON text, no object, has no such
/// member, or has one that is no string.
pub uninterp spec fn json_member(text: Seq<u8>, key: Seq<char>) -> Option<Seq<char>>;

/// The description that `serde_json::from_slice` reads from the JSON text
/// `text` as an `RTCSessionDescription`: its role and its SDP text, or `None`
/// where it answers an error.
pub uninterp spec fn description_of(text: Seq<u8>) -> Option<(SdpType, Seq<char>)>;

/// The longest input that `base64::encode` takes: its output, four octets
/// for every three, must still fit an allocation.
pub open spec fn encode_limit() -> int {
    (isize::MAX / 4) * 3
}

/// The longest input that `base64::decode` takes: its length estimates add
/// up to seven to the length.
pub open spec fn decode_limit() -> int {
    isize::MAX - 7
}

/// `base64::encode`. It panics where the encoded size overflows; such
/// inputs are left out.
#[verifier::external_body]
fn base64_encode(octets: &[u8]) -> (text: String)
    requires
        octets@.len() <= encode_limit(),
    ensures
        text@ == base64_text(octets@),
{
    base64::encode(octets)
}

/// `base64::decode`. It panics where its length estimate overflows; such
/// inputs are left out.
#[verifier::external_body]
fn base64_decode(text: &[u8]) -> (octets: Option<Vec<u8>>)
    requires
        text@.len() <= decode_limit(),
    ensures
        octets is Some <==> base64_octets(text@) is Some,
        octets matches Some(v) ==> Some(v@) == base64_octets(text@),
{
    match base64::decode(text) {
        Ok(octets) => Some(octets),
        Err(_) => None,
    }
}

/// `serde_json::to_string` on a string slice. Writing a string into a buffer
/// in memory has no error to report, so the text always comes.
#[verifier::external_body]
fn json_quote(text: &str) -> (quoted: String)
    ensures
        quoted@ == json_string(text@),
{
    match serde_json::to_string(text) {
        Ok(quoted) => quoted,
        Err(_) => String::new(),
    }
}

/// `serde_json::from_slice` into a `serde_json::Value`, of which the string
/// under `key` is picked.
#[verifier::external_body]
fn json_string_member(text: &[u8], key: &str) -> (member: Option<String>)
    ensures
        member is Some <==> json_member(text@, key@) is Some,
        member matches Some(s) ==> Some(s@) == json_member(text@, key@),
{
    match serde_json::from_slice::<serde_json::Value>(text) {
        Ok(value) => value.get(key).and_then(|found| found.as_str()).map(|s| s.to_owned()),
        Err(_) => None,
    }
}

/// `serde_json::to_string` on an `RTCSessionDescription` with the given role
/// and SDP text. The description is written as an object with the role's
/// name under `type` and the SDP text under `sdp`, in this order, both as
/// JSON string literals; writing into a buffer in memory has no error to
/// report.
#[verifier::external_body]
fn description_to_json(sdp_type: SdpType, sdp: &str) -> (text: String)
    ensures
        text@ == description_text(sdp_type, sdp@),
{
    let mut description = RTCSessionDescription::default();
    description.sdp_type = match sdp_type {
        SdpType::Unspecified => RTCSdpType::Unspecified,
        SdpType::Offer => RTCSdpType::Offer,
        SdpType::Pranswer => RTCSdpType::Pranswer,
        SdpType::Answer => RTCSdpType::Answer,
        SdpType::Rollback => RTCSdpType::Rollback,
    };
    description.sdp = sdp.to_owned();
    serde_json::to_string(&description).unwrap_or_default()
}

/// `serde_json::from_slice` into an `RTCSessionDescription`, of which the
/// role and the SDP text are taken.
#[verifier::external_body]
fn description_from_json(text: &[u8]) -> (found: Option<SessionDescription>)
    ensures
        found is Some <==> description_of(text@) is Some,
        found matches Some(d) ==> Some(d.view()) == description_of(text@),
{
    let description = serde_json::from_slice::<RTCSessionDescription>(text).ok()?;
    let sdp_type = match description.sdp_type {
        RTCSdpType::Unspecified => SdpType::Unspecified,
        RTCSdpType::Offer => SdpType::Offer,
        RTCSdpType::Pranswer => SdpType::Pranswer,
        RTCSdpType::Answer => SdpType::Answer,
        RTCSdpType::Rollback => SdpType::Rollback,
    };
    Some(SessionDescription { sdp_type, sdp: description.sdp })
}

/// The role of a session description in the offer/answer exchange.
#[derive(Clone, Copy, Debug, PartialEq, Eq, Structural)]
pub enum SdpType {
    Unspecified,
    Offer,
    Pranswer,
    Answer,
    Rollback,
}

impl SdpType {
    /// The name that stands for the role on the wire.
    pub open spec fn wire_name(self) -> Seq<char> {
        match self {
            SdpType::Unspecified => "Unspecified"@,
            SdpType::Offer => "offer"@,
            SdpType::Pranswer => "pranswer"@,
            SdpType::Answer => "answer"@,
            SdpType::Rollback => "rollback"@,
        }
    }

    pub fn name(self) -> (name: &'static str)
        ensures
            name@ == self.wire_name(),
    {
        match self {
            SdpType::Unspecified => "Unspecified",
            SdpType::Offer => "offer",
            SdpType::Pranswer => "pranswer",
            SdpType::Answer => "answer",
            SdpType::Rollback => "rollback",
        }
    }
}

/// A session description: its role and the SDP text, which is carried as it
/// is and never looked into.
#[derive(Clone, Debug, PartialEq, Eq)]
pub struct SessionDescription {
    pub sdp_type: SdpType,
    pub sdp: String,
}

/// Why an exchange gave no remote description.
#[derive(Clone, Copy, Debug, PartialEq, Eq, Structural)]
pub enum SignalingError {
    /// The request could not be sent, or no reply came.
    Transport,
    /// The endpoint answered with a status outside 200 to 299.
    Status,
    /// The reply is no JSON object with a string under `desc`.
    MalformedBody,
    /// The string under `desc` is no base64 text.
    MalformedEncoding,
    /// The decoded text is no session description.
    MalformedDescription,
    /// The local description is too long to encode.
    TooLarge,
}

/// What came back from the signaling endpoint.
#[derive(Clone, Debug, PartialEq, Eq)]
pub enum SignalingReply {
    /// The request failed on the way.
    TransportFailed,
    /// A reply with its status code and body.
    Response { status: u16, body: Vec<u8> },
}

/// The JSON text of a description: the role under `type`, then the SDP text
/// under `sdp`.
pub open spec fn description_text(sdp_type: SdpType, sdp: Seq<char>) -> Seq<char> {
    "{\"type\":"@ + json_string(sdp_type.wire_name()) + ",\"sdp\":"@ + json_string(sdp) + "}"@
}

/// The request body around an encoded description.
pub open spec fn body_text(encoded: Seq<char>) -> Seq<char> {
    "{\"desc\":"@ + json_string(encoded) + "}"@
}

/// Whether a status code reports success.
pub open spec fn is_success(status: u16) -> bool {
    200 <= status <= 299
}

/// What a reply body yields: the remote description, or the first step that
/// failed.
pub open spec fn body_answer(body: Seq<u8>) -> Result<(SdpType, Seq<char>), SignalingError> {
    match json_member(body, "desc"@) {
        None => Err(SignalingError::MalformedBody),
        Some(encoded) => {
            let octets = encode_utf8(encoded);
            if octets.len() > decode_limit() {
                Err(SignalingError::MalformedEncoding)
            } else {
                match base64_octets(octets) {
                    None => Err(SignalingError::MalformedEncoding),
                    Some(text) => match description_of(text) {
                        None => Err(SignalingError::MalformedDescription),
                        Some(found) => Ok(found),
                    },
                }
            }
        },
    }
}

/// What a reply yields.
pub open spec fn reply_answer(reply: SignalingReply) -> Result<
    (SdpType, Seq<char>),
    SignalingError,
> {
    match reply {
        SignalingReply::TransportFailed => Err(SignalingError::Transport),
        SignalingReply::Response { status, body } => if is_success(status) {
            body_answer(body@)
        } else {
            Err(SignalingError::Status)
        },
    }
}

impl SessionDescription {
    /// The description as the pair that contracts speak of.
    pub open spec fn view(self) -> (SdpType, Seq<char>) {
        (self.sdp_type, self.sdp@)
    }

    /// The description as JSON text.
    pub fn to_json(&self) -> (text: String)
        ensures
            text@ == description_text(self.sdp_type, self.sdp@),
    {
        description_to_json(self.sdp_type, self.sdp.as_str())
    }

    /// Reads a description from JSON text.
    pub fn from_json(text: &[u8]) -> (desc: Option<SessionDescription>)
        ensures
            desc is Some <==> description_of(text@) is Some,
            desc matches Some(d) ==> Some(d.view()) == description_of(text@),
    {
        description_from_json(text)
    }
}

/// The body of the signaling request for a local description: the
/// description's JSON text, base64-encoded, under `desc`. Only a description
/// too long to encode gives an error.
pub fn encode_offer(local: &SessionDescription) -> (body: Result<String, SignalingError>)
    ensures
        encode_utf8(description_text(local.sdp_type, local.sdp@)).len() <= encode_limit()
            <==> body is Ok,
        body matches Ok(text) ==> text@ == body_text(
            base64_text(encode_utf8(description_text(local.sdp_type, local.sdp@))),
        ),
        body matches Err(e) ==> e == SignalingError::TooLarge,
{
    let json = local.to_json();
    let octets = json.as_str().as_bytes();
    if octets.len() > (isize::MAX as usize / 4) * 3 {
        return Err(SignalingError::TooLarge);
    }
    let encoded = base64_encode(octets);
    let mut body = String::from_str("{\"desc\":");
    body.append(json_quote(encoded.as_str()).as_str());
    body.append("}");
    Ok(body)
}

/// The remote description that a reply body carries.
pub fn decode_body(body: &[u8]) -> (answer: Result<SessionDescription, SignalingError>)
    ensures
        answer is Ok <==> body_answer(body@) is Ok,
        answer matches Ok(d) ==> Ok::<(SdpType, Seq<char>), SignalingError>(d.view())
            == body_answer(body@),
        answer matches Err(e) ==> Err::<(SdpType, Seq<char>), SignalingError>(e) == body_answer(
            body@,
        ),
{
    let encoded = match json_string_member(body, "desc") {
        Some(encoded) => encoded,
        None => return Err(SignalingError::MalformedBody),
    };
    let octets = encoded.as_str().as_bytes();
    if octets.len() > isize::MAX as usize - 7 {
        return Err(SignalingError::MalformedEncoding);
    }
    let text = match base64_decode(octets) {
        Some(text) => text,
        None => return Err(SignalingError::MalformedEncoding),
    };
    match SessionDescription::from_json(text.as_slice()) {
        Some(desc) => Ok(desc),
        None => Err(SignalingError::MalformedDescription),
    }
}

/// The remote description that a reply carries: a reply that did not come,
/// or came with a status that reports no success, is an error whatever its
/// body holds.
pub fn decode_answer(reply: &SignalingReply) -> (answer: Result<SessionDescription, SignalingError>)
    ensures
        answer is Ok <==> reply_answer(*reply) is Ok,
        answer matches Ok(d) ==> Ok::<(SdpType, Seq<char>), SignalingError>(d.view())
            == reply_answer(*reply),
        answer matches Err(e) ==> Err::<(SdpType, Seq<char>), SignalingError>(e) == reply_answer(
            *reply,
        ),
{
    match reply {
        SignalingReply::TransportFailed => Err(SignalingError::Transport),
        SignalingReply::Response { status, body } => {
            if 200 <= *status && *status <= 299 {
                decode_body(body.as_slice())
            } else {
                Err(SignalingError::Status)
            }
        },
    }
}

} // verus!
