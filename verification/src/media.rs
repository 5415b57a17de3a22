//! The kinds of media that a session carries.

use vstd::prelude::*;

verus! {

/// The two kinds of media that a session carries.
#[derive(Clone, Copy, Debug, PartialEq, Eq, Structural)]
pub enum MediaKind {
    Audio,
    Video,
}

impl MediaKind {
    /// The discriminator that the host sees: 0 for audio, 1 for video.
    pub open spec fn wire(self) -> u32 {
        match self {
            MediaKind::Audio => 0,
            MediaKind::Video => 1,
        }
    }

    pub fn wire_value(self) -> (v: u32)
        ensures
            v == self.wire(),
    {
        match self {
            MediaKind::Audio => 0,
            MediaKind::Video => 1,
        }
    }

    /// The kind that a discriminator stands for, if it stands for one.
    pub fn from_wire(v: u32) -> (kind: Option<MediaKind>)
        ensures
            kind is Some <==> v == 0 || v == 1,
            kind matches Some(k) ==> k.wire() == v,
    {
        if v == 0 {
            Some(MediaKind::Audio)
        } else if v == 1 {
            Some(MediaKind::Video)
        } else {
            None
        }
    }
}

} // verus!
