//! The fixed media configuration of both session paths: codecs, payload
//! types, the STUN server, and which codec a remote track carries.

use vstd::prelude::*;
use vstd::string::*;
use crate::media::MediaKind;

verus! {

/// MIME type of H.264 video.
pub const MIME_TYPE_H264: &'static str = "video/H264";

/// MIME type of Opus audio.
pub const MIME_TYPE_OPUS: &'static str = "audio/opus";

/// The one STUN server that sessions use.
pub const STUN_SERVER_URL: &'static str = "stun:stun.l.google.com:19302";

/// Payload type under which the ingest path registers its video codec.
pub const VIDEO_PAYLOAD_TYPE: u8 = 102;

/// Payload type under which the ingest path registers its audio codec.
pub const AUDIO_PAYLOAD_TYPE: u8 = 111;

/// Clock rate of the video codec, in Hz.
pub const VIDEO_CLOCK_RATE: u32 = 90000;

/// Clock rate of the audio codec, in Hz.
pub const AUDIO_CLOCK_RATE: u32 = 48000;

/// Channels of the audio codec.
pub const AUDIO_CHANNELS: u16 = 2;

/// Format parameters of the video codec on the ingest path.
pub const INGEST_VIDEO_FMTP: &'static str =
    "level-asymmetry-allowed=1;packetization-mode=1;profile-level-id=42e01f";

/// Format parameters of the video track on the publish path.
pub const PUBLISH_VIDEO_FMTP: &'static str =
    "profile-level-id=428014; max-fs=3600; max-mbps=108000; max-br=1400";

/// Identifier of the stream that both local tracks belong to.
pub const LOCAL_STREAM_ID: &'static str = "webrtc-rs";

/// What a codec can do.
#[derive(Clone, Debug, PartialEq, Eq)]
pub struct CodecCapability {
    pub mime_type: String,
    pub clock_rate: u32,
    pub channels: u16,
    pub sdp_fmtp_line: String,
}

/// A codec capability under a payload type, with the kind of media it is
/// registered for.
#[derive(Clone, Debug, PartialEq, Eq)]
pub struct CodecParameters {
    pub capability: CodecCapability,
    pub payload_type: u8,
    pub kind: MediaKind,
}

/// A local track of the publish path.
#[derive(Clone, Debug, PartialEq, Eq)]
pub struct LocalTrack {
    pub capability: CodecCapability,
    pub id: String,
    pub stream_id: String,
    pub kind: MediaKind,
}

/// The video codec that the ingest path registers before it makes its
/// connection.
pub fn ingest_video_codec() -> (codec: CodecParameters)
    ensures
        codec.kind == MediaKind::Video,
        codec.payload_type == 102,
        codec.capability.mime_type@ == MIME_TYPE_H264@,
        codec.capability.clock_rate == 90000,
        codec.capability.channels == 0,
        codec.capability.sdp_fmtp_line@ == INGEST_VIDEO_FMTP@,
{
    CodecParameters {
        capability: CodecCapability {
            mime_type: MIME_TYPE_H264.to_owned(),
            clock_rate: VIDEO_CLOCK_RATE,
            channels: 0,
            sdp_fmtp_line: INGEST_VIDEO_FMTP.to_owned(),
        },
        payload_type: VIDEO_PAYLOAD_TYPE,
        kind: MediaKind::Video,
    }
}

/// The audio codec that the ingest path registers before it makes its
/// connection.
pub fn ingest_audio_codec() -> (codec: CodecParameters)
    ensures
        codec.kind == MediaKind::Audio,
        codec.payload_type == 111,
        codec.capability.mime_type@ == MIME_TYPE_OPUS@,
        codec.capability.clock_rate == 48000,
        codec.capability.channels == 2,
        codec.capability.sdp_fmtp_line@ == Seq::<char>::empty(),
{
    CodecParameters {
        capability: CodecCapability {
            mime_type: MIME_TYPE_OPUS.to_owned(),
            clock_rate: AUDIO_CLOCK_RATE,
            channels: AUDIO_CHANNELS,
            sdp_fmtp_line: String::new(),
        },
        payload_type: AUDIO_PAYLOAD_TYPE,
        kind: MediaKind::Audio,
    }
}

/// The way a transceiver carries media, seen from this side.
#[derive(Clone, Copy, Debug, PartialEq, Eq, Structural)]
pub enum TransceiverDirection {
    /// It offers to send and to receive.
    Sendrecv,
    /// It offers to send.
    Sendonly,
    /// It offers to receive.
    Recvonly,
    /// It offers neither.
    Inactive,
}

/// A transceiver to ask the connection for.
#[derive(Clone, Copy, Debug, PartialEq, Eq, Structural)]
pub struct TransceiverRequest {
    pub kind: MediaKind,
    pub direction: TransceiverDirection,
}

/// The transceivers that the ingest path asks for, in the order in which it
/// asks: one for audio, then one for video, each to receive only.
pub fn ingest_transceivers() -> (requests: Vec<TransceiverRequest>)
    ensures
        requests@ == seq![
            TransceiverRequest {
                kind: MediaKind::Audio,
                direction: TransceiverDirection::Recvonly,
            },
            TransceiverRequest {
                kind: MediaKind::Video,
                direction: TransceiverDirection::Recvonly,
            },
        ],
{
    let mut requests: Vec<TransceiverRequest> = Vec::new();
    requests.push(
        TransceiverRequest { kind: MediaKind::Audio, direction: TransceiverDirection::Recvonly },
    );
    requests.push(
        TransceiverRequest { kind: MediaKind::Video, direction: TransceiverDirection::Recvonly },
    );
    requests
}

/// The video track of the publish path.
pub fn publish_video_track() -> (track: LocalTrack)
    ensures
        track.kind == MediaKind::Video,
        track.id@ == "video"@,
        track.stream_id@ == LOCAL_STREAM_ID@,
        track.capability.mime_type@ == MIME_TYPE_H264@,
        track.capability.clock_rate == 90000,
        track.capability.channels == 0,
        track.capability.sdp_fmtp_line@ == PUBLISH_VIDEO_FMTP@,
{
    LocalTrack {
        capability: CodecCapability {
            mime_type: MIME_TYPE_H264.to_owned(),
            clock_rate: VIDEO_CLOCK_RATE,
            channels: 0,
            sdp_fmtp_line: PUBLISH_VIDEO_FMTP.to_owned(),
        },
        id: "video".to_owned(),
        stream_id: LOCAL_STREAM_ID.to_owned(),
        kind: MediaKind::Video,
    }
}

/// The audio track of the publish path: Opus with nothing else fixed.
pub fn publish_audio_track() -> (track: LocalTrack)
    ensures
        track.kind == MediaKind::Audio,
        track.id@ == "audio"@,
        track.stream_id@ == LOCAL_STREAM_ID@,
        track.capability.mime_type@ == MIME_TYPE_OPUS@,
        track.capability.clock_rate == 0,
        track.capability.channels == 0,
        track.capability.sdp_fmtp_line@ == Seq::<char>::empty(),
{
    LocalTrack {
        capability: CodecCapability {
            mime_type: MIME_TYPE_OPUS.to_owned(),
            clock_rate: 0,
            channels: 0,
            sdp_fmtp_line: String::new(),
        },
        id: "audio".to_owned(),
        stream_id: LOCAL_STREAM_ID.to_owned(),
        kind: MediaKind::Audio,
    }
}

/// The text that `str::to_lowercase` gives for `text`.
pub uninterp spec fn lowercase_text(text: Seq<char>) -> Seq<char>;

/// `str::to_lowercase`.
#[verifier::external_body]
fn lowercase(text: &str) -> (lower: String)
    ensures
        lower@ == lowercase_text(text@),
{
    text.to_lowercase()
}

/// The kind of media that a remote track with codec `mime_type` carries:
/// MIME types are compared in lower case, and a track of any other codec is
/// left alone.
pub open spec fn track_kind_of(mime_type: Seq<char>) -> Option<MediaKind> {
    if lowercase_text(mime_type) == lowercase_text(MIME_TYPE_OPUS@) {
        Some(MediaKind::Audio)
    } else if lowercase_text(mime_type) == lowercase_text(MIME_TYPE_H264@) {
        Some(MediaKind::Video)
    } else {
        None
    }
}

pub fn track_kind(mime_type: &str) -> (kind: Option<MediaKind>)
    ensures
        kind == track_kind_of(mime_type@),
{
    let lower = lowercase(mime_type);
    if lower == lowercase(MIME_TYPE_OPUS) {
        Some(MediaKind::Audio)
    } else if lower == lowercase(MIME_TYPE_H264) {
        Some(MediaKind::Video)
    } else {
        None
    }
}

} // verus!
