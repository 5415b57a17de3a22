//! Sans-I/O core of a bridge between a WebRTC peer connection and a host
//! application that exchanges whole encoded media frames.

pub mod call;
pub mod codec;
pub mod depacketizer;
pub mod keepalive;
pub mod keyframe;
pub mod lifecycle;
pub mod media;
pub mod negotiation;
pub mod stream;
pub mod whip;
