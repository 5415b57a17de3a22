//! The keyframe-request loop of one remote track.
//!
//! Every three seconds the ingest path asks the sender of a track for a
//! keyframe, for as long as the connection can still be reached and the
//! request can be written.

use vstd::prelude::*;

verus! {

/// Seconds between two keyframe requests.
pub const KEYFRAME_REQUEST_INTERVAL_SECS: u64 = 3;

/// A picture-loss indication: the control message that asks for a keyframe.
#[derive(Clone, Copy, Debug, PartialEq, Eq, Structural)]
pub struct PictureLossIndication {
    pub sender_ssrc: u32,
    pub media_ssrc: u32,
}

/// What the loop does when its timer has fired.
#[derive(Clone, Copy, Debug, PartialEq, Eq, Structural)]
pub enum KeepaliveAction {
    /// Write this request, then report how the write went.
    Send(PictureLossIndication),
    /// The loop is over.
    Stop,
}

/// The loop of one track.
#[derive(Debug)]
pub struct Keepalive {
    media_ssrc: u32,
    running: bool,
}

impl Keepalive {
    /// The synchronization source that the requests are addressed to.
    pub closed spec fn media_ssrc(self) -> u32 {
        self.media_ssrc
    }

    /// Whether the loop still waits for its timer.
    pub closed spec fn is_running(self) -> bool {
        self.running
    }

    /// The loop for the track with synchronization source `media_ssrc`.
    pub fn new(media_ssrc: u32) -> (keepalive: Keepalive)
        ensures
            keepalive.is_running(),
            keepalive.media_ssrc() == media_ssrc,
    {
        Keepalive { media_ssrc, running: true }
    }

    pub fn running(&self) -> (running: bool)
        ensures
            running == self.is_running(),
    {
        self.running
    }

    /// The timer has fired. While the loop runs and the connection can be
    /// reached, a request goes out to the track's synchronization source,
    /// with no sender named; else the loop is over.
    pub fn on_timer(&mut self, connection_reachable: bool) -> (action: KeepaliveAction)
        ensures
            final(self).media_ssrc() == old(self).media_ssrc(),
            final(self).is_running() == (old(self).is_running() && connection_reachable),
            final(self).is_running() ==> action == KeepaliveAction::Send(
                PictureLossIndication { sender_ssrc: 0, media_ssrc: old(self).media_ssrc() },
            ),
            !final(self).is_running() ==> action == KeepaliveAction::Stop,
    {
        if self.running && connection_reachable {
            KeepaliveAction::Send(
                PictureLossIndication { sender_ssrc: 0, media_ssrc: self.media_ssrc },
            )
        } else {
            self.running = false;
            KeepaliveAction::Stop
        }
    }

    /// The request was written, or could not be: a failed write ends the
    /// loop.
    pub fn on_sent(&mut self, written: bool)
        ensures
            final(self).media_ssrc() == old(self).media_ssrc(),
            final(self).is_running() == (old(self).is_running() && written),
    {
        if !written {
            self.running = false;
        }
    }
}

} // verus!
