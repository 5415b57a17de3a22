//! The ingest path: payloads of remote tracks on their way to the host.
//!
//! The host is reached through a callback that takes a context token, the
//! payload, its length and the media-kind discriminator. This module says
//! what each invocation carries; making it is the caller's part.

use vstd::prelude::*;
use crate::depacketizer::{
    audio_delivery, latch_after, video_delivery, video_pending_after, AudioDepacketizer,
    PacketOutcome, VideoDepacketizer,
};
use crate::media::MediaKind;

verus! {

/// The opaque token that the host supplies with its callback. It is carried
/// through unchanged and never interpreted.
#[derive(Clone, Copy, Debug, PartialEq, Eq, Structural)]
pub struct CodecContext(pub usize);

/// One invocation of the host callback: the token, the payload, its length
/// and the media-kind discriminator.
#[derive(Clone, Debug, PartialEq, Eq)]
pub struct Delivery {
    pub context: CodecContext,
    pub data: Vec<u8>,
    pub length: u32,
    pub kind: u32,
}

/// An ingest session, as far as deliveries go: the token of its host.
#[derive(Debug)]
pub struct OBSWebRTCCall {
    context: CodecContext,
}

/// The invocation that hands `data` to the host of `context` as media of
/// kind `kind`, where the length of `data` can be told in 32 bits.
pub open spec fn delivery_of(context: CodecContext, data: Option<Seq<u8>>, kind: u32) -> Option<
    (CodecContext, Seq<u8>, u32, u32),
> {
    match data {
        Some(octets) => if octets.len() <= u32::MAX {
            Some((context, octets, octets.len() as u32, kind))
        } else {
            None
        },
        None => None,
    }
}

impl Delivery {
    /// The invocation as the tuple that contracts speak of.
    pub open spec fn view(self) -> (CodecContext, Seq<u8>, u32, u32) {
        (self.context, self.data@, self.length, self.kind)
    }
}

/// A session for the host that goes by `context`.
pub fn obs_webrtc_call_init(context: CodecContext) -> (call: OBSWebRTCCall)
    ensures
        call.context() == context,
{
    OBSWebRTCCall { context }
}

impl OBSWebRTCCall {
    /// The token of the host.
    pub closed spec fn context(self) -> CodecContext {
        self.context
    }

    pub fn host_context(&self) -> (context: CodecContext)
        ensures
            context == self.context(),
    {
        self.context
    }

    /// The invocation for one payload: the session's token, the payload as
    /// it is, its length, and the discriminator as given.
    pub fn callback(&self, data: Vec<u8>, video: u32) -> (delivery: Delivery)
        requires
            data@.len() <= u32::MAX,
        ensures
            delivery.context == self.context(),
            delivery.data@ == data@,
            delivery.length == data@.len(),
            delivery.kind == video,
    {
        let length: u32 = data.len() as u32;
        Delivery { context: self.context, data, length, kind: video }
    }

    /// The invocation, if any, for what became of a packet of a track of
    /// kind `kind`: a delivered payload is handed on, unless its length
    /// cannot be told in 32 bits; nothing else reaches the host.
    pub fn forward(&self, outcome: PacketOutcome, kind: MediaKind) -> (delivery: Option<Delivery>)
        ensures
            delivery is Some <==> delivery_of(self.context(), outcome.delivered(), kind.wire())
                is Some,
            delivery matches Some(d) ==> Some(d.view()) == delivery_of(
                self.context(),
                outcome.delivered(),
                kind.wire(),
            ),
    {
        match outcome {
            PacketOutcome::Delivered(data) => {
                if data.len() <= u32::MAX as usize {
                    Some(self.callback(data, kind.wire_value()))
                } else {
                    None
                }
            },
            _ => None,
        }
    }

    /// One payload of an audio track: one invocation with discriminator 0,
    /// or none where the transform refuses the payload.
    pub fn on_audio_packet(
        &self,
        track: &AudioDepacketizer,
        payload: &[u8],
    ) -> (delivery: Option<Delivery>)
        ensures
            delivery is Some <==> delivery_of(self.context(), audio_delivery(payload@), 0)
                is Some,
            delivery matches Some(d) ==> Some(d.view()) == delivery_of(
                self.context(),
                audio_delivery(payload@),
                0,
            ),
    {
        self.forward(track.push(payload), MediaKind::Audio)
    }

    /// One payload of a video track: at most one invocation, with
    /// discriminator 1, for what the track delivers.
    pub fn on_video_packet(
        &self,
        track: &mut VideoDepacketizer,
        payload: &[u8],
    ) -> (delivery: Option<Delivery>)
        requires
            old(track).wf(),
        ensures
            final(track).wf(),
            final(track).latch_open() == latch_after(
                old(track).latch_open(),
                payload@,
            ),
            final(track).pending() == video_pending_after(
                old(track).latch_open(),
                old(track).pending(),
                payload@,
            ),
            delivery is Some <==> delivery_of(
                self.context(),
                video_delivery(old(track).latch_open(), old(track).pending(), payload@),
                1,
            ) is Some,
            delivery matches Some(d) ==> Some(d.view()) == delivery_of(
                self.context(),
                video_delivery(old(track).latch_open(), old(track).pending(), payload@),
                1,
            ),
    {
        let outcome = track.push(payload);
        self.forward(outcome, MediaKind::Video)
    }
}

} // verus!
