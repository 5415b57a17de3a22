use obs_webrtc::call::{obs_webrtc_call_init, CodecContext, Delivery};
use obs_webrtc::codec::{
    ingest_audio_codec, ingest_transceivers, ingest_video_codec, publish_audio_track,
    publish_video_track, track_kind, TransceiverDirection, TransceiverRequest, STUN_SERVER_URL,
};
use obs_webrtc::depacketizer::{AudioDepacketizer, PacketOutcome, VideoDepacketizer};
use obs_webrtc::keepalive::{
    Keepalive, KeepaliveAction, PictureLossIndication, KEYFRAME_REQUEST_INTERVAL_SECS,
};
use obs_webrtc::lifecycle::{poll_stop, CompletionSignal, ConnectionState, StopReason};
use obs_webrtc::media::MediaKind;
use obs_webrtc::negotiation::{Event, Failure, Negotiation, Phase};
use obs_webrtc::stream::{
    obs_webrtc_stream_audio, obs_webrtc_stream_data, obs_webrtc_stream_init, SampleDuration,
};
use obs_webrtc::whip::SignalingError;

#[test]
fn media_kind_discriminators() {
    assert_eq!(MediaKind::Audio.wire_value(), 0);
    assert_eq!(MediaKind::Video.wire_value(), 1);
    assert_eq!(MediaKind::from_wire(0), Some(MediaKind::Audio));
    assert_eq!(MediaKind::from_wire(1), Some(MediaKind::Video));
    assert_eq!(MediaKind::from_wire(2), None);
}

#[test]
fn callback_carries_token_length_and_kind() {
    let call = obs_webrtc_call_init(CodecContext(0xdead));
    assert_eq!(call.host_context(), CodecContext(0xdead));
    let d = call.callback(vec![1, 2, 3], 1);
    assert_eq!(d, Delivery { context: CodecContext(0xdead), data: vec![1, 2, 3], length: 3, kind: 1 });
}

#[test]
fn audio_packet_gives_one_invocation_of_kind_zero() {
    let call = obs_webrtc_call_init(CodecContext(7));
    let track = AudioDepacketizer::new();
    let d = call.on_audio_packet(&track, &[9, 8]).unwrap();
    assert_eq!(d, Delivery { context: CodecContext(7), data: vec![9, 8], length: 2, kind: 0 });
    assert_eq!(call.on_audio_packet(&track, &[]), None);
    assert!(call.on_audio_packet(&track, &[1]).is_some());
}

#[test]
fn video_packets_reach_the_host_only_from_the_keyframe_on() {
    let call = obs_webrtc_call_init(CodecContext(7));
    let mut track = VideoDepacketizer::new();
    assert_eq!(call.on_video_packet(&mut track, &[0x41, 0x9a, 0x00, 0x10]), None);
    assert_eq!(call.on_video_packet(&mut track, &[]), None);
    let d = call.on_video_packet(&mut track, &[0x67, 0x42, 0x00, 0x1f]).unwrap();
    assert_eq!(d.kind, 1);
    assert_eq!(d.length, 8);
    assert_eq!(d.data, vec![0, 0, 0, 1, 0x67, 0x42, 0x00, 0x1f]);
    assert_eq!(d.context, CodecContext(7));
    assert!(call.on_video_packet(&mut track, &[0x41, 0x9a, 0x00, 0x10]).is_some());
}

#[test]
fn only_delivered_outcomes_are_forwarded() {
    let call = obs_webrtc_call_init(CodecContext(1));
    assert_eq!(call.forward(PacketOutcome::Skipped, MediaKind::Video), None);
    assert_eq!(call.forward(PacketOutcome::Held, MediaKind::Video), None);
    assert_eq!(call.forward(PacketOutcome::Dropped, MediaKind::Audio), None);
    let d = call.forward(PacketOutcome::Delivered(vec![5]), MediaKind::Audio).unwrap();
    assert_eq!((d.length, d.kind), (1, 0));
}

#[test]
fn ingest_codecs_are_fixed() {
    let v = ingest_video_codec();
    assert_eq!(v.payload_type, 102);
    assert_eq!(v.kind, MediaKind::Video);
    assert_eq!(v.capability.mime_type, "video/H264");
    assert_eq!(v.capability.clock_rate, 90000);
    assert_eq!(v.capability.channels, 0);
    assert_eq!(
        v.capability.sdp_fmtp_line,
        "level-asymmetry-allowed=1;packetization-mode=1;profile-level-id=42e01f"
    );
    let a = ingest_audio_codec();
    assert_eq!(a.payload_type, 111);
    assert_eq!(a.kind, MediaKind::Audio);
    assert_eq!(a.capability.mime_type, "audio/opus");
    assert_eq!(a.capability.clock_rate, 48000);
    assert_eq!(a.capability.channels, 2);
    assert_eq!(a.capability.sdp_fmtp_line, "");
    assert_eq!(
        ingest_transceivers(),
        vec![
            TransceiverRequest { kind: MediaKind::Audio, direction: TransceiverDirection::Recvonly },
            TransceiverRequest { kind: MediaKind::Video, direction: TransceiverDirection::Recvonly },
        ]
    );
    assert_eq!(STUN_SERVER_URL, "stun:stun.l.google.com:19302");
}

#[test]
fn publish_tracks_are_fixed() {
    let v = publish_video_track();
    assert_eq!((v.id.as_str(), v.stream_id.as_str()), ("video", "webrtc-rs"));
    assert_eq!(v.capability.mime_type, "video/H264");
    assert_eq!(v.capability.clock_rate, 90000);
    assert_eq!(
        v.capability.sdp_fmtp_line,
        "profile-level-id=428014; max-fs=3600; max-mbps=108000; max-br=1400"
    );
    let a = publish_audio_track();
    assert_eq!((a.id.as_str(), a.stream_id.as_str()), ("audio", "webrtc-rs"));
    assert_eq!(a.capability.mime_type, "audio/opus");
    assert_eq!(a.capability.clock_rate, 0);
}

#[test]
fn tracks_are_told_apart_by_mime_type_in_lower_case() {
    assert_eq!(track_kind("audio/opus"), Some(MediaKind::Audio));
    assert_eq!(track_kind("AUDIO/OPUS"), Some(MediaKind::Audio));
    assert_eq!(track_kind("video/H264"), Some(MediaKind::Video));
    assert_eq!(track_kind("video/h264"), Some(MediaKind::Video));
    assert_eq!(track_kind("video/VP8"), None);
    assert_eq!(track_kind(""), None);
}

#[test]
fn keepalive_asks_every_three_seconds_until_the_connection_is_gone() {
    assert_eq!(KEYFRAME_REQUEST_INTERVAL_SECS, 3);
    let mut k = Keepalive::new(0x1234);
    let pli = PictureLossIndication { sender_ssrc: 0, media_ssrc: 0x1234 };
    assert_eq!(k.on_timer(true), KeepaliveAction::Send(pli));
    k.on_sent(true);
    assert!(k.running());
    assert_eq!(k.on_timer(true), KeepaliveAction::Send(pli));
    k.on_sent(true);
    assert_eq!(k.on_timer(false), KeepaliveAction::Stop);
    assert!(!k.running());
    assert_eq!(k.on_timer(true), KeepaliveAction::Stop);
}

#[test]
fn keepalive_ends_when_a_write_fails() {
    let mut k = Keepalive::new(1);
    assert!(matches!(k.on_timer(true), KeepaliveAction::Send(_)));
    k.on_sent(false);
    assert!(!k.running());
    assert_eq!(k.on_timer(true), KeepaliveAction::Stop);
}

#[test]
fn only_failed_raises_the_completion_signal() {
    let mut s = CompletionSignal::new();
    for state in [
        ConnectionState::Unspecified,
        ConnectionState::New,
        ConnectionState::Connecting,
        ConnectionState::Connected,
        ConnectionState::Disconnected,
        ConnectionState::Closed,
    ] {
        assert!(!s.on_state_change(state));
        assert!(!s.raised());
    }
    assert!(s.on_state_change(ConnectionState::Failed));
    assert!(s.raised());
}

#[test]
fn duplicate_failures_are_coalesced() {
    let mut s = CompletionSignal::new();
    let n = s.on_state_changes(&vec![
        ConnectionState::Connected,
        ConnectionState::Failed,
        ConnectionState::Failed,
        ConnectionState::Closed,
        ConnectionState::Failed,
    ]);
    assert_eq!(n, 1);
    assert!(s.raised());
    assert_eq!(s.on_state_changes(&vec![ConnectionState::Failed]), 0);
    assert!(s.try_recv());
    assert!(!s.try_recv());
    assert_eq!(s.on_state_changes(&vec![ConnectionState::Connected]), 0);
    assert!(!s.raised());
}

#[test]
fn wait_ends_on_signal_or_interrupt() {
    let mut s = CompletionSignal::new();
    assert_eq!(poll_stop(&mut s, false), None);
    assert_eq!(poll_stop(&mut s, true), Some(StopReason::Interrupted));
    s.try_send();
    assert_eq!(poll_stop(&mut s, false), Some(StopReason::Completed));
    assert!(!s.raised());
    s.try_send();
    assert_eq!(poll_stop(&mut s, true), Some(StopReason::Completed));
}

#[test]
fn connection_states_follow_their_order() {
    assert!(ConnectionState::New.can_precede(ConnectionState::Connecting));
    assert!(ConnectionState::Connecting.can_precede(ConnectionState::Connected));
    assert!(ConnectionState::Connected.can_precede(ConnectionState::Disconnected));
    assert!(ConnectionState::Disconnected.can_precede(ConnectionState::Connected));
    assert!(ConnectionState::Disconnected.can_precede(ConnectionState::Failed));
    assert!(ConnectionState::Connected.can_precede(ConnectionState::Failed));
    assert!(ConnectionState::Failed.can_precede(ConnectionState::Closed));
    assert!(!ConnectionState::Closed.can_precede(ConnectionState::Closed));
    assert!(!ConnectionState::New.can_precede(ConnectionState::Connected));
    assert!(!ConnectionState::Failed.can_precede(ConnectionState::Connected));
}

#[test]
fn negotiation_runs_its_steps_in_order() {
    let mut n = Negotiation::new();
    assert_eq!(n.current(), Phase::CreateOffer);
    let steps = n.advance_all(&vec![Event::Succeeded; 9]);
    assert_eq!(
        steps,
        vec![
            Phase::WatchGathering,
            Phase::SetLocalDescription,
            Phase::AwaitGathering,
            Phase::ReadLocalDescription,
            Phase::Exchange,
            Phase::SetRemoteDescription,
            Phase::AwaitStop,
            Phase::Close,
            Phase::Done,
        ]
    );
    assert_eq!(n.outcome(), Some(Ok(())));
    assert_eq!(n.advance(Event::Failed), Phase::Done);
    assert_eq!(n.outcome(), Some(Ok(())));
}

#[test]
fn signaling_failure_closes_the_connection() {
    for error in [
        SignalingError::Transport,
        SignalingError::Status,
        SignalingError::MalformedBody,
        SignalingError::MalformedEncoding,
        SignalingError::MalformedDescription,
    ] {
        let mut n = Negotiation::new();
        n.advance_all(&vec![Event::Succeeded; 5]);
        assert_eq!(n.current(), Phase::Exchange);
        assert_eq!(n.outcome(), None);
        assert_eq!(n.advance(Event::SignalingFailed(error)), Phase::Close);
        assert_eq!(n.first_failure(), Some(Failure::Signaling(error)));
        assert_eq!(n.advance(Event::Succeeded), Phase::Done);
        assert_eq!(n.outcome(), Some(Err(Failure::Signaling(error))));
    }
}

#[test]
fn every_failing_step_leads_to_the_close() {
    let cases = [
        (0usize, Failure::Offer),
        (2, Failure::LocalDescription),
        (4, Failure::NoLocalDescription),
        (5, Failure::Signaling(SignalingError::Transport)),
        (6, Failure::RemoteDescription),
    ];
    for (good, failure) in cases {
        let mut n = Negotiation::new();
        n.advance_all(&vec![Event::Succeeded; good]);
        assert_eq!(n.advance(Event::Failed), Phase::Close);
        assert_eq!(n.advance(Event::Failed), Phase::Done);
        assert_eq!(n.outcome(), Some(Err(failure)));
    }
}

#[test]
fn waiting_steps_have_no_failure() {
    let mut n = Negotiation::new();
    n.advance(Event::Succeeded);
    assert_eq!(n.advance(Event::Failed), Phase::SetLocalDescription);
    n.advance(Event::Succeeded);
    assert_eq!(n.advance(Event::Failed), Phase::ReadLocalDescription);
    n.advance_all(&vec![Event::Succeeded; 3]);
    assert_eq!(n.current(), Phase::AwaitStop);
    assert_eq!(n.advance(Event::Failed), Phase::Close);
    assert_eq!(n.advance(Event::Failed), Phase::Done);
    assert_eq!(n.outcome(), Some(Err(Failure::Close)));
}

#[test]
fn push_without_a_session_does_nothing() {
    assert_eq!(obs_webrtc_stream_data(None, &[1, 2, 3], 5), None);
    assert_eq!(obs_webrtc_stream_audio(None, &[1, 2, 3], 5), None);
}

#[test]
fn video_duration_is_kept_in_nanoseconds() {
    let stream = obs_webrtc_stream_init();
    let w = obs_webrtc_stream_data(Some(&stream), &[1, 2, 3], 33_333_333).unwrap();
    assert_eq!(w.kind, MediaKind::Video);
    assert_eq!(w.sample.data, vec![1, 2, 3]);
    assert_eq!(w.sample.duration, SampleDuration { secs: 0, subsec_nanos: 33_333_333 });
    let w = obs_webrtc_stream_data(Some(&stream), &[], 2_500_000_001).unwrap();
    assert_eq!(w.sample.duration, SampleDuration { secs: 2, subsec_nanos: 500_000_001 });
    let w = obs_webrtc_stream_data(Some(&stream), &[], u64::MAX).unwrap();
    assert_eq!(w.sample.duration, SampleDuration { secs: 18_446_744_073, subsec_nanos: 709_551_615 });
}

#[test]
fn audio_duration_is_kept_in_microseconds() {
    let stream = obs_webrtc_stream_init();
    let w = obs_webrtc_stream_audio(Some(&stream), &[4, 5], 20_000).unwrap();
    assert_eq!(w.kind, MediaKind::Audio);
    assert_eq!(w.sample.data, vec![4, 5]);
    assert_eq!(w.sample.duration, SampleDuration { secs: 0, subsec_nanos: 20_000_000 });
    let w = obs_webrtc_stream_audio(Some(&stream), &[], 2_500_001).unwrap();
    assert_eq!(w.sample.duration, SampleDuration { secs: 2, subsec_nanos: 500_001_000 });
    let w = obs_webrtc_stream_audio(Some(&stream), &[], u64::MAX).unwrap();
    assert_eq!(
        w.sample.duration,
        SampleDuration { secs: 18_446_744_073_709, subsec_nanos: 551_615_000 }
    );
}

#[test]
fn durations_agree_with_std() {
    for d in [0u64, 1, 999, 1_000, 999_999, 1_000_000, 1_234_567_890_123, u64::MAX] {
        let n = SampleDuration::from_nanos(d);
        let std_n = std::time::Duration::from_nanos(d);
        assert_eq!((n.secs, n.subsec_nanos), (std_n.as_secs(), std_n.subsec_nanos()));
        let m = SampleDuration::from_micros(d);
        let std_m = std::time::Duration::from_micros(d);
        assert_eq!((m.secs, m.subsec_nanos), (std_m.as_secs(), std_m.subsec_nanos()));
    }
}

#[test]
fn stream_has_both_tracks_from_the_start() {
    let stream = obs_webrtc_stream_init();
    assert_eq!(stream.video_track.capability.mime_type, "video/H264");
    assert_eq!(stream.video_track.capability.clock_rate, 90000);
    assert_eq!(stream.video_track.stream_id, "webrtc-rs");
    assert_eq!(stream.video_track.id, "video");
    assert_eq!(stream.audio_track.capability.mime_type, "audio/opus");
    assert_eq!(stream.audio_track.stream_id, "webrtc-rs");
    assert_eq!(stream.audio_track.id, "audio");
    assert_eq!(stream.video_track, publish_video_track());
    assert_eq!(stream.audio_track, publish_audio_track());
}

#[test]
fn mime_types_are_those_of_the_engine() {
    assert_eq!(obs_webrtc::codec::MIME_TYPE_H264, webrtc::api::media_engine::MIME_TYPE_H264);
    assert_eq!(obs_webrtc::codec::MIME_TYPE_OPUS, webrtc::api::media_engine::MIME_TYPE_OPUS);
}

#[test]
fn failed_run_keeps_its_failure_to_the_end() {
    let mut n = Negotiation::new();
    let steps = n.advance_all(&vec![
        Event::Succeeded,
        Event::Succeeded,
        Event::Failed,
        Event::Succeeded,
        Event::Succeeded,
    ]);
    assert_eq!(
        steps,
        vec![
            Phase::WatchGathering,
            Phase::SetLocalDescription,
            Phase::Close,
            Phase::Done,
            Phase::Done,
        ]
    );
    assert_eq!(n.first_failure(), Some(Failure::LocalDescription));
    assert_eq!(n.outcome(), Some(Err(Failure::LocalDescription)));
}
