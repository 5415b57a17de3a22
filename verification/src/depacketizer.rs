//! Per-track reassembly of RTP payloads into encoded payloads.
//!
//! The reassembly itself is done by the depacketizers of the `webrtc` crate.
//! This module decides which payloads reach them and what becomes of their
//! answers: audio is a stateless packet-by-packet transform, video is held
//! back until the first payload that starts a decodable access unit.

use vstd::prelude::*;
use webrtc::rtp::packetizer::Depacketizer;
use crate::keyframe::{is_key_frame, starts_access_unit};

verus! {

#[verifier::external_type_specification]
#[verifier::external_body]
pub struct ExH264Packet(webrtc::rtp::codecs::h264::H264Packet);

/// The fragment octets that an `H264Packet` has buffered and not yet handed
/// out (none buffered counts as the empty sequence).
pub uninterp spec fn h264_pending(state: webrtc::rtp::codecs::h264::H264Packet) -> Seq<u8>;

/// Whether an `H264Packet` writes four-octet lengths in front of the units
/// (its `is_avc` flag) in place of Annex B start codes.
pub uninterp spec fn h264_length_prefixed(
    state: webrtc::rtp::codecs::h264::H264Packet,
) -> bool;

/// What `H264Packet::depacketize`, in Annex B mode, answers for `packet` when
/// `pending` is buffered: the payload, or `None` where it answers an error.
pub uninterp spec fn h264_unit(pending: Seq<u8>, packet: Seq<u8>) -> Option<Seq<u8>>;

/// NAL unit type of a fragmentation unit (FU-A).
pub const FU_A_TYPE: u8 = 28;

/// NAL unit type of a single-time aggregation packet (STAP-A).
pub const STAP_A_TYPE: u8 = 24;

/// What is buffered after `packet` went through the reassembly with
/// `pending` buffered: a fragment is appended without its two header octets,
/// and the fragment with the end bit empties the buffer.
pub open spec fn h264_pending_after(pending: Seq<u8>, packet: Seq<u8>) -> Seq<u8> {
    if packet.len() > 2 && packet[0] & 0x1f == FU_A_TYPE {
        if packet[1] & 0x40 != 0 {
            Seq::empty()
        } else {
            pending + packet.skip(2)
        }
    } else {
        pending
    }
}

/// The size that the aggregation unit at `offset` declares.
pub open spec fn declared_size(packet: Seq<u8>, offset: int) -> int {
    packet[offset] as int * 256 + packet[offset + 1] as int
}

/// Whether the walk over the aggregation units of `packet`, from `offset` on,
/// reads only octets that `packet` holds. It stops at the end of the packet
/// and at the first unit that declares more than is left; a single octet left
/// over where a two-octet size is due is out of bounds.
pub open spec fn aggregate_in_bounds(packet: Seq<u8>, offset: int) -> bool
    decreases packet.len() - offset,
{
    if offset < 0 || offset >= packet.len() {
        true
    } else if offset + 1 >= packet.len() {
        false
    } else if packet.len() < offset + 2 + declared_size(packet, offset) {
        true
    } else {
        aggregate_in_bounds(packet, offset + 2 + declared_size(packet, offset))
    }
}

/// The payloads that the reassembly reads within bounds: all but aggregation
/// packets whose size fields run over the end.
pub open spec fn h264_in_bounds(packet: Seq<u8>) -> bool {
    packet.len() > 2 && packet[0] & 0x1f == STAP_A_TYPE ==> aggregate_in_bounds(packet, 1)
}

/// Decides `h264_in_bounds`.
pub fn h264_reads_in_bounds(packet: &[u8]) -> (ok: bool)
    ensures
        ok == h264_in_bounds(packet@),
{
    if packet.len() <= 2 || packet[0] & 0x1f != STAP_A_TYPE {
        return true;
    }
    let n: usize = packet.len();
    let mut offset: usize = 1;
    while offset < n
        invariant
            n == packet@.len(),
            n > 2,
            packet@[0] & 0x1f == STAP_A_TYPE,
            1 <= offset,
            aggregate_in_bounds(packet@, 1) == aggregate_in_bounds(packet@, offset as int),
        decreases n - offset,
    {
        if n - offset < 2 {
            return false;
        }
        let high: usize = packet[offset] as usize;
        let low: usize = packet[offset + 1] as usize;
        let size: usize = high * 256 + low;
        if n - offset - 2 < size {
            return true;
        }
        offset = offset + 2 + size;
    }
    true
}

/// `H264Packet::default()`: a reassembly state with nothing buffered, in
/// Annex B mode.
#[verifier::external_body]
fn h264_new() -> (state: webrtc::rtp::codecs::h264::H264Packet)
    ensures
        h264_pending(state) == Seq::<u8>::empty(),
        !h264_length_prefixed(state),
{
    webrtc::rtp::codecs::h264::H264Packet::default()
}

/// `H264Packet::depacketize` on a copy of `packet`. In Annex B mode its
/// answer is `h264_unit` of what was buffered and the packet; the mode stays,
/// and the buffer changes as `h264_pending_after` says. Payloads that it would
/// index out of bounds are left out.
#[verifier::external_body]
fn h264_depacketize(
    state: &mut webrtc::rtp::codecs::h264::H264Packet,
    packet: &[u8],
) -> (unit: Option<Vec<u8>>)
    requires
        h264_in_bounds(packet@),
        !h264_length_prefixed(*old(state)),
    ensures
        !h264_length_prefixed(*final(state)),
        h264_pending(*final(state)) == h264_pending_after(h264_pending(*old(state)), packet@),
        unit is Some <==> h264_unit(h264_pending(*old(state)), packet@) is Some,
        unit matches Some(v) ==> Some(v@) == h264_unit(h264_pending(*old(state)), packet@),
{
    let copy = bytes::Bytes::copy_from_slice(packet);
    match state.depacketize(&copy) {
        Ok(unit) => Some(unit.to_vec()),
        Err(_) => None,
    }
}

/// `OpusPacket::depacketize` on a copy of `packet`: an empty packet is an
/// error, any other comes back as it is.
#[verifier::external_body]
fn opus_depacketize(packet: &[u8]) -> (unit: Option<Vec<u8>>)
    ensures
        unit is Some <==> packet@.len() > 0,
        unit matches Some(v) ==> v@ == packet@,
{
    let copy = bytes::Bytes::copy_from_slice(packet);
    match webrtc::rtp::codecs::opus::OpusPacket::default().depacketize(&copy) {
        Ok(unit) => Some(unit.to_vec()),
        Err(_) => None,
    }
}

/// What became of one transport packet.
#[derive(Clone, Debug, PartialEq, Eq)]
pub enum PacketOutcome {
    /// The packet carried no payload and was passed over.
    Skipped,
    /// No payload that starts an access unit has been seen yet.
    Held,
    /// The reassembly refused the payload, or would have read past its end.
    Dropped,
    /// A payload for the host.
    Delivered(Vec<u8>),
}

impl PacketOutcome {
    /// The payload handed to the host, if there is one.
    pub open spec fn delivered(self) -> Option<Seq<u8>> {
        match self {
            PacketOutcome::Delivered(data) => Some(data@),
            _ => None,
        }
    }

    /// The outcome for an answer of the reassembly: a unit is delivered, a
    /// refusal drops the packet.
    pub fn of_unit(unit: Option<Vec<u8>>) -> (outcome: PacketOutcome)
        ensures
            unit matches Some(v) ==> outcome == PacketOutcome::Delivered(v),
            unit is None ==> outcome == PacketOutcome::Dropped,
    {
        match unit {
            Some(data) => PacketOutcome::Delivered(data),
            None => PacketOutcome::Dropped,
        }
    }

    pub fn is_delivered(&self) -> (b: bool)
        ensures
            b == self.delivered().is_some(),
    {
        match self {
            PacketOutcome::Delivered(_) => true,
            _ => false,
        }
    }
}

/// What the audio path hands to the host for one payload.
pub open spec fn audio_delivery(payload: Seq<u8>) -> Option<Seq<u8>> {
    if payload.len() > 0 {
        Some(payload)
    } else {
        None
    }
}

/// The audio path: every packet stands for itself.
#[derive(Debug)]
pub struct AudioDepacketizer {}

impl AudioDepacketizer {
    pub fn new() -> (track: AudioDepacketizer) {
        AudioDepacketizer {  }
    }

    /// One payload in, one payload out; a payload that the transform refuses
    /// is dropped and nothing else changes.
    pub fn push(&self, payload: &[u8]) -> (outcome: PacketOutcome)
        ensures
            outcome.delivered() == audio_delivery(payload@),
            payload@.len() == 0 <==> outcome == PacketOutcome::Dropped,
    {
        PacketOutcome::of_unit(opus_depacketize(payload))
    }

    /// Runs a whole stream of payloads, in order: one outcome for each.
    pub fn push_all(&self, payloads: &Vec<Vec<u8>>) -> (outcomes: Vec<PacketOutcome>)
        ensures
            outcomes@.len() == payloads@.len(),
            forall|i: int|
                0 <= i < payloads@.len() ==> (#[trigger] outcomes@[i]).delivered()
                    == audio_delivery(payloads@[i]@),
            forall|i: int|
                0 <= i < payloads@.len() ==> (payloads@[i]@.len() == 0 <==> #[trigger] outcomes@[i]
                    == PacketOutcome::Dropped),
    {
        let mut outcomes: Vec<PacketOutcome> = Vec::new();
        let mut i: usize = 0;
        while i < payloads.len()
            invariant
                i <= payloads@.len(),
                outcomes@.len() == i,
                forall|k: int|
                    0 <= k < i ==> (#[trigger] outcomes@[k]).delivered() == audio_delivery(
                        payloads@[k]@,
                    ),
                forall|k: int|
                    0 <= k < i ==> (payloads@[k]@.len() == 0 <==> #[trigger] outcomes@[k]
                        == PacketOutcome::Dropped),
            decreases payloads@.len() - i,
        {
            let outcome = self.push(payloads[i].as_slice());
            outcomes.push(outcome);
            i = i + 1;
        }
        outcomes
    }
}

/// Whether the latch is open once `payload` has been looked at.
pub open spec fn latch_after(open: bool, payload: Seq<u8>) -> bool {
    open || starts_access_unit(payload)
}

/// Whether `payload` is handed to the reassembly: it is not empty, the latch
/// lets it through, and the reassembly reads it within bounds.
pub open spec fn reaches_reassembly(open: bool, payload: Seq<u8>) -> bool {
    payload.len() > 0 && latch_after(open, payload) && h264_in_bounds(payload)
}

/// What is buffered after `payload` went through the video path.
pub open spec fn video_pending_after(open: bool, pending: Seq<u8>, payload: Seq<u8>) -> Seq<u8> {
    if reaches_reassembly(open, payload) {
        h264_pending_after(pending, payload)
    } else {
        pending
    }
}

/// What the video path hands to the host for one payload.
pub open spec fn video_delivery(open: bool, pending: Seq<u8>, payload: Seq<u8>) -> Option<
    Seq<u8>,
> {
    if reaches_reassembly(open, payload) {
        h264_unit(pending, payload)
    } else {
        None
    }
}

/// The video path of one track: the reassembly state and the keyframe latch.
pub struct VideoDepacketizer {
    reassembly: webrtc::rtp::codecs::h264::H264Packet,
    has_key_frame: bool,
}

impl VideoDepacketizer {
    /// The reassembly writes Annex B start codes, as every track made by
    /// `new` does.
    pub closed spec fn wf(self) -> bool {
        !h264_length_prefixed(self.reassembly)
    }

    /// Whether a payload that starts an access unit has been seen.
    pub closed spec fn latch_open(self) -> bool {
        self.has_key_frame
    }

    /// The fragment octets that wait for the end of their unit.
    pub closed spec fn pending(self) -> Seq<u8> {
        h264_pending(self.reassembly)
    }

    /// A fresh track: latch closed, nothing buffered.
    pub fn new() -> (track: VideoDepacketizer)
        ensures
            track.wf(),
            !track.latch_open(),
            track.pending() == Seq::<u8>::empty(),
    {
        VideoDepacketizer { reassembly: h264_new(), has_key_frame: false }
    }

    pub fn has_seen_keyframe(&self) -> (open: bool)
        ensures
            open == self.latch_open(),
    {
        self.has_key_frame
    }

    /// Takes one transport payload. An empty one is skipped. While the latch
    /// is closed, a payload that does not start an access unit is dropped
    /// unseen; the first one that does opens the latch for good. Behind the
    /// latch the payload goes to the reassembly, whose answer is delivered,
    /// empty or not; the packet is dropped where the reassembly answers an
    /// error, and where it would read past the end of the payload.
    pub fn push(&mut self, payload: &[u8]) -> (outcome: PacketOutcome)
        requires
            old(self).wf(),
        ensures
            final(self).wf(),
            final(self).latch_open() == latch_after(old(self).latch_open(), payload@),
            final(self).pending() == video_pending_after(
                old(self).latch_open(),
                old(self).pending(),
                payload@,
            ),
            outcome.delivered() == video_delivery(
                old(self).latch_open(),
                old(self).pending(),
                payload@,
            ),
            outcome == PacketOutcome::Skipped <==> payload@.len() == 0,
            outcome == PacketOutcome::Held <==> payload@.len() > 0 && !latch_after(
                old(self).latch_open(),
                payload@,
            ),
    {
        if payload.len() == 0 {
            return PacketOutcome::Skipped;
        }
        if !self.has_key_frame {
            let key = is_key_frame(payload);
            if !key {
                return PacketOutcome::Held;
            }
            self.has_key_frame = true;
        }
        if !h264_reads_in_bounds(payload) {
            return PacketOutcome::Dropped;
        }
        let unit = h264_depacketize(&mut self.reassembly, payload);
        PacketOutcome::of_unit(unit)
    }

    /// Runs a whole stream of payloads through the track, in order: one
    /// outcome for each, as `push` gives them one after the other.
    pub fn push_all(&mut self, payloads: &Vec<Vec<u8>>) -> (outcomes: Vec<PacketOutcome>)
        requires
            old(self).wf(),
        ensures
            final(self).wf(),
            outcomes@.len() == payloads@.len(),
            final(self).latch_open() == latch_at(
                old(self).latch_open(),
                payload_seq(payloads@),
                payloads@.len() as int,
            ),
            final(self).pending() == pending_at(
                old(self).latch_open(),
                old(self).pending(),
                payload_seq(payloads@),
                payloads@.len() as int,
            ),
            forall|i: int|
                0 <= i < payloads@.len() ==> (#[trigger] outcomes@[i]).delivered()
                    == delivery_at(
                    old(self).latch_open(),
                    old(self).pending(),
                    payload_seq(payloads@),
                    i,
                ),
            forall|i: int|
                0 <= i < payloads@.len() ==> (#[trigger] outcomes@[i] == PacketOutcome::Skipped
                    <==> payloads@[i]@.len() == 0),
            forall|i: int|
                0 <= i < payloads@.len() ==> (#[trigger] outcomes@[i] == PacketOutcome::Held
                    <==> held_at(old(self).latch_open(), payload_seq(payloads@), i)),
    {
        let ghost open0 = self.latch_open();
        let ghost pending0 = self.pending();
        let ghost stream = payload_seq(payloads@);
        let mut outcomes: Vec<PacketOutcome> = Vec::new();
        let mut i: usize = 0;
        while i < payloads.len()
            invariant
                self.wf(),
                i <= payloads@.len(),
                stream == payload_seq(payloads@),
                outcomes@.len() == i,
                self.latch_open() == latch_at(open0, stream, i as int),
                self.pending() == pending_at(open0, pending0, stream, i as int),
                forall|k: int|
                    0 <= k < i ==> (#[trigger] outcomes@[k]).delivered() == delivery_at(
                        open0,
                        pending0,
                        stream,
                        k,
                    ),
                forall|k: int|
                    0 <= k < i ==> (#[trigger] outcomes@[k] == PacketOutcome::Skipped
                        <==> payloads@[k]@.len() == 0),
                forall|k: int|
                    0 <= k < i ==> (#[trigger] outcomes@[k] == PacketOutcome::Held <==> held_at(
                        open0,
                        stream,
                        k,
                    )),
            decreases payloads@.len() - i,
        {
            assert(stream[i as int] == payloads@[i as int]@);
            let outcome = self.push(payloads[i].as_slice());
            outcomes.push(outcome);
            i = i + 1;
        }
        outcomes
    }
}

/// The payloads of a stream as sequences of octets.
pub open spec fn payload_seq(payloads: Seq<Vec<u8>>) -> Seq<Seq<u8>> {
    Seq::new(payloads.len(), |i: int| payloads[i]@)
}

/// Whether the latch is open when the first `i` payloads of a stream have
/// been taken, for a latch that was `open` at the start.
pub open spec fn latch_at(open: bool, payloads: Seq<Seq<u8>>, i: int) -> bool
    decreases i,
{
    if i <= 0 {
        open
    } else {
        latch_after(latch_at(open, payloads, i - 1), payloads[i - 1])
    }
}

/// What is buffered when the first `i` payloads of a stream have been taken.
pub open spec fn pending_at(
    open: bool,
    pending: Seq<u8>,
    payloads: Seq<Seq<u8>>,
    i: int,
) -> Seq<u8>
    decreases i,
{
    if i <= 0 {
        pending
    } else {
        video_pending_after(
            latch_at(open, payloads, i - 1),
            pending_at(open, pending, payloads, i - 1),
            payloads[i - 1],
        )
    }
}

/// What the video path hands to the host for payload `i` of a stream.
pub open spec fn delivery_at(
    open: bool,
    pending: Seq<u8>,
    payloads: Seq<Seq<u8>>,
    i: int,
) -> Option<Seq<u8>> {
    video_delivery(latch_at(open, payloads, i), pending_at(open, pending, payloads, i), payloads[i])
}

/// Whether payload `i` of a stream is held back: it is not empty, and the
/// latch is still closed when it has been looked at.
pub open spec fn held_at(open: bool, payloads: Seq<Seq<u8>>, i: int) -> bool {
    payloads[i].len() > 0 && !latch_after(latch_at(open, payloads, i), payloads[i])
}

/// The latch of a track that starts closed is open after `i` payloads exactly
/// when one of them starts an access unit.
pub proof fn lemma_latch_opens_on_keyframe(payloads: Seq<Seq<u8>>, i: int)
    requires
        0 <= i <= payloads.len(),
    ensures
        latch_at(false, payloads, i) <==> exists|j: int|
            0 <= j < i && starts_access_unit(#[trigger] payloads[j]),
    decreases i,
{
    if i > 0 {
        lemma_latch_opens_on_keyframe(payloads, i - 1);
        if latch_at(false, payloads, i) {
            if latch_at(false, payloads, i - 1) {
                let j = choose|j: int| 0 <= j < i - 1 && starts_access_unit(#[trigger] payloads[j]);
                assert(0 <= j < i && starts_access_unit(payloads[j]));
            } else {
                assert(starts_access_unit(payloads[i - 1]));
            }
        }
    }
}

/// A latch that is open stays open, whatever comes after.
pub proof fn lemma_latch_stays_open(open: bool, payloads: Seq<Seq<u8>>, i: int, k: int)
    requires
        0 <= i <= k,
        latch_at(open, payloads, i),
    ensures
        latch_at(open, payloads, k),
    decreases k - i,
{
    if i < k {
        lemma_latch_stays_open(open, payloads, i, k - 1);
    }
}

/// Nothing is delivered before a keyframe: on a track that starts with its
/// latch closed, a payload is handed to the host only if it, or one before it,
/// starts an access unit.
pub proof fn lemma_no_delivery_before_keyframe(pending: Seq<u8>, payloads: Seq<Seq<u8>>, i: int)
    requires
        0 <= i < payloads.len(),
        delivery_at(false, pending, payloads, i) is Some,
    ensures
        exists|j: int| 0 <= j <= i && starts_access_unit(#[trigger] payloads[j]),
{
    lemma_latch_opens_on_keyframe(payloads, i);
    if latch_at(false, payloads, i) {
        let j = choose|j: int| 0 <= j < i && starts_access_unit(#[trigger] payloads[j]);
        assert(0 <= j <= i && starts_access_unit(payloads[j]));
    } else {
        assert(starts_access_unit(payloads[i]));
    }
}

} // verus!
