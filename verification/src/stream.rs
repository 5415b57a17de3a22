//! The publish path: frames that the host pushes, wrapped as timed samples
//! for the two local tracks.
//!
//! Video durations come in nanoseconds, audio durations in microseconds.
//! Each is kept exactly; the two paths share no conversion.

use vstd::prelude::*;
use vstd::slice::slice_to_vec;
use crate::codec::{
    publish_audio_track, publish_video_track, LocalTrack, LOCAL_STREAM_ID, MIME_TYPE_H264,
    MIME_TYPE_OPUS, PUBLISH_VIDEO_FMTP,
};
use crate::media::MediaKind;

verus! {

/// Nanoseconds in a second.
pub const NANOS_PER_SEC: u64 = 1_000_000_000;

/// Microseconds in a second.
pub const MICROS_PER_SEC: u64 = 1_000_000;

/// Nanoseconds in a microsecond.
pub const NANOS_PER_MICRO: u64 = 1_000;

/// A span of time: whole seconds and the nanoseconds beyond them.
#[derive(Clone, Copy, Debug, PartialEq, Eq, Structural)]
pub struct SampleDuration {
    pub secs: u64,
    pub subsec_nanos: u32,
}

impl SampleDuration {
    /// The nanoseconds stay below one second.
    pub open spec fn wf(self) -> bool {
        self.subsec_nanos < 1_000_000_000
    }

    /// The span in nanoseconds.
    pub open spec fn total_nanos(self) -> int {
        self.secs as int * 1_000_000_000 + self.subsec_nanos as int
    }

    /// The span of `nanos` nanoseconds.
    pub fn from_nanos(nanos: u64) -> (duration: SampleDuration)
        ensures
            duration.wf(),
            duration.total_nanos() == nanos,
    {
        SampleDuration {
            secs: nanos / NANOS_PER_SEC,
            subsec_nanos: (nanos % NANOS_PER_SEC) as u32,
        }
    }

    /// The span of `micros` microseconds.
    pub fn from_micros(micros: u64) -> (duration: SampleDuration)
        ensures
            duration.wf(),
            duration.total_nanos() == micros * 1000,
    {
        SampleDuration {
            secs: micros / MICROS_PER_SEC,
            subsec_nanos: ((micros % MICROS_PER_SEC) * NANOS_PER_MICRO) as u32,
        }
    }
}

/// A frame with its presentation duration.
#[derive(Clone, Debug, PartialEq, Eq)]
pub struct Sample {
    pub data: Vec<u8>,
    pub duration: SampleDuration,
}

/// A sample on its way to one of the two local tracks.
#[derive(Clone, Debug, PartialEq, Eq)]
pub struct TrackWrite {
    pub kind: MediaKind,
    pub sample: Sample,
}

impl TrackWrite {
    /// The write as the triple that contracts speak of: the track, the
    /// octets, and the duration in nanoseconds.
    pub open spec fn view(self) -> (MediaKind, Seq<u8>, int) {
        (self.kind, self.sample.data@, self.sample.duration.total_nanos())
    }
}

/// A publish session, as far as pushes go: its two local tracks, which are
/// there from the start, whatever the state of the connection.
#[derive(Debug)]
pub struct OBSWebRTCStream {
    pub video_track: LocalTrack,
    pub audio_track: LocalTrack,
}

/// A session with its two tracks: H.264 video at 90000 Hz under the
/// identifier `video`, and Opus audio, with nothing else fixed of it, under
/// the identifier `audio`, both in the one local stream.
pub fn obs_webrtc_stream_init() -> (stream: OBSWebRTCStream)
    ensures
        stream.video_track.kind == MediaKind::Video,
        stream.video_track.id@ == "video"@,
        stream.video_track.stream_id@ == LOCAL_STREAM_ID@,
        stream.video_track.capability.mime_type@ == MIME_TYPE_H264@,
        stream.video_track.capability.clock_rate == 90000,
        stream.video_track.capability.channels == 0,
        stream.video_track.capability.sdp_fmtp_line@ == PUBLISH_VIDEO_FMTP@,
        stream.audio_track.kind == MediaKind::Audio,
        stream.audio_track.id@ == "audio"@,
        stream.audio_track.stream_id@ == LOCAL_STREAM_ID@,
        stream.audio_track.capability.mime_type@ == MIME_TYPE_OPUS@,
        stream.audio_track.capability.clock_rate == 0,
        stream.audio_track.capability.channels == 0,
        stream.audio_track.capability.sdp_fmtp_line@ == Seq::<char>::empty(),
{
    OBSWebRTCStream { video_track: publish_video_track(), audio_track: publish_audio_track() }
}

/// What a push of `data` with a duration of `nanos` nanoseconds writes.
pub open spec fn write_of(present: bool, kind: MediaKind, data: Seq<u8>, nanos: int) -> Option<
    (MediaKind, Seq<u8>, int),
> {
    if present {
        Some((kind, data, nanos))
    } else {
        None
    }
}

/// A push of a video frame. Without a session nothing happens. With one, a
/// copy of the frame goes to the video track, with a duration of exactly
/// `duration` nanoseconds.
pub fn obs_webrtc_stream_data(
    obsrtc: Option<&OBSWebRTCStream>,
    data: &[u8],
    duration: u64,
) -> (write: Option<TrackWrite>)
    ensures
        write is Some <==> obsrtc is Some,
        write matches Some(w) ==> w.sample.duration.wf() && Some(w.view()) == write_of(
            true,
            MediaKind::Video,
            data@,
            duration as int,
        ),
{
    match obsrtc {
        None => None,
        Some(_) => Some(
            TrackWrite {
                kind: MediaKind::Video,
                sample: Sample {
                    data: slice_to_vec(data),
                    duration: SampleDuration::from_nanos(duration),
                },
            },
        ),
    }
}

/// A push of an audio frame. Without a session nothing happens. With one, a
/// copy of the frame goes to the audio track, with a duration of exactly
/// `duration` microseconds.
pub fn obs_webrtc_stream_audio(
    obsrtc: Option<&OBSWebRTCStream>,
    data: &[u8],
    duration: u64,
) -> (write: Option<TrackWrite>)
    ensures
        write is Some <==> obsrtc is Some,
        write matches Some(w) ==> w.sample.duration.wf() && Some(w.view()) == write_of(
            true,
            MediaKind::Audio,
            data@,
            duration * 1000,
        ),
{
    match obsrtc {
        None => None,
        Some(_) => Some(
            TrackWrite {
                kind: MediaKind::Audio,
                sample: Sample {
                    data: slice_to_vec(data),
                    duration: SampleDuration::from_micros(duration),
                },
            },
        ),
    }
}

/// A well-formed duration is told by its nanoseconds: two of them with the
/// same total are the same.
pub proof fn lemma_total_nanos_tells_duration(a: SampleDuration, b: SampleDuration)
    requires
        a.wf(),
        b.wf(),
        a.total_nanos() == b.total_nanos(),
    ensures
        a == b,
{
    assert(a.secs == b.secs) by (nonlinear_arith)
        requires
            a.secs as int * 1_000_000_000 + a.subsec_nanos as int == b.secs as int * 1_000_000_000
                + b.subsec_nanos as int,
            a.subsec_nanos < 1_000_000_000,
            b.subsec_nanos < 1_000_000_000,
    ;
}

/// The two units are kept apart: the same number stands for a thousand
/// times the span as an audio duration that it stands for as a video
/// duration, so only zero gives the same span on both paths.
pub proof fn lemma_units_are_kept_apart(video: SampleDuration, audio: SampleDuration, d: u64)
    requires
        video.total_nanos() == d,
        audio.total_nanos() == d * 1000,
    ensures
        audio.total_nanos() == 1000 * video.total_nanos(),
        audio.total_nanos() == video.total_nanos() <==> d == 0,
{
}

} // verus!
