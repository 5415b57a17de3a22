use obs_webrtc::whip::{
    decode_answer, decode_body, encode_offer, SdpType, SessionDescription, SignalingError,
    SignalingReply,
};

fn offer(sdp: &str) -> SessionDescription {
    SessionDescription { sdp_type: SdpType::Offer, sdp: sdp.to_owned() }
}

#[test]
fn description_json_names_type_then_sdp() {
    assert_eq!(offer("sdp").to_json(), "{\"type\":\"offer\",\"sdp\":\"sdp\"}");
    let d = SessionDescription { sdp_type: SdpType::Unspecified, sdp: "a\"b\r\n".to_owned() };
    assert_eq!(d.to_json(), "{\"type\":\"Unspecified\",\"sdp\":\"a\\\"b\\r\\n\"}");
}

#[test]
fn request_body_wraps_the_encoded_description() {
    let body = encode_offer(&offer("sdp")).unwrap();
    assert_eq!(body, "{\"desc\":\"eyJ0eXBlIjoib2ZmZXIiLCJzZHAiOiJzZHAifQ==\"}");
}

#[test]
fn reply_body_gives_the_description() {
    let body = b"{\"desc\":\"eyJ0eXBlIjoiYW5zd2VyIiwic2RwIjoidj0wXHJcbm89LSAxIDIgSU4gSVA0IDEyNy4wLjAuMVxyXG4ifQ==\"}";
    let answer = decode_body(body).unwrap();
    assert_eq!(answer.sdp_type, SdpType::Answer);
    assert_eq!(answer.sdp, "v=0\r\no=- 1 2 IN IP4 127.0.0.1\r\n");
}

#[test]
fn wire_format_round_trip() {
    let sample = SessionDescription {
        sdp_type: SdpType::Offer,
        sdp: "v=0\r\no=- 46117317 2 IN IP4 127.0.0.1\r\ns=-\r\nt=0 0\r\na=ice-ufrag:\"x\\y\"\r\n"
            .to_owned(),
    };
    let body = encode_offer(&sample).unwrap();
    let reply = SignalingReply::Response { status: 200, body: body.into_bytes() };
    assert_eq!(decode_answer(&reply), Ok(sample));
}

#[test]
fn round_trip_of_every_role() {
    for role in [
        SdpType::Unspecified,
        SdpType::Offer,
        SdpType::Pranswer,
        SdpType::Answer,
        SdpType::Rollback,
    ] {
        let d = SessionDescription { sdp_type: role, sdp: "x".to_owned() };
        let text = d.to_json();
        assert_eq!(SessionDescription::from_json(text.as_bytes()), Some(d));
    }
    assert_eq!(SdpType::Offer.name(), "offer");
    assert_eq!(SdpType::Pranswer.name(), "pranswer");
    assert_eq!(SdpType::Answer.name(), "answer");
    assert_eq!(SdpType::Rollback.name(), "rollback");
    assert_eq!(SdpType::Unspecified.name(), "Unspecified");
}

#[test]
fn transport_failure_is_a_signaling_error() {
    assert_eq!(decode_answer(&SignalingReply::TransportFailed), Err(SignalingError::Transport));
}

#[test]
fn non_success_status_is_a_signaling_error() {
    let body = encode_offer(&offer("sdp")).unwrap().into_bytes();
    for status in [199u16, 300, 404, 500] {
        let reply = SignalingReply::Response { status, body: body.clone() };
        assert_eq!(decode_answer(&reply), Err(SignalingError::Status));
    }
    for status in [200u16, 201, 299] {
        let reply = SignalingReply::Response { status, body: body.clone() };
        assert!(decode_answer(&reply).is_ok());
    }
}

#[test]
fn malformed_body_is_a_signaling_error() {
    assert_eq!(decode_body(b""), Err(SignalingError::MalformedBody));
    assert_eq!(decode_body(b"not json"), Err(SignalingError::MalformedBody));
    assert_eq!(decode_body(b"{}"), Err(SignalingError::MalformedBody));
    assert_eq!(decode_body(b"{\"desc\":7}"), Err(SignalingError::MalformedBody));
    assert_eq!(decode_body(b"[\"abcd\"]"), Err(SignalingError::MalformedBody));
    assert_eq!(decode_body(b"{\"desc\":\"abcd\"} x"), Err(SignalingError::MalformedBody));
}

#[test]
fn malformed_base64_is_a_signaling_error() {
    assert_eq!(decode_body(b"{\"desc\":\"%%%\"}"), Err(SignalingError::MalformedEncoding));
    assert_eq!(decode_body(b"{\"desc\":\"a\"}"), Err(SignalingError::MalformedEncoding));
    assert_eq!(decode_body(b"{\"desc\":\"ab=c\"}"), Err(SignalingError::MalformedEncoding));
}

#[test]
fn malformed_description_is_a_signaling_error() {
    // base64 of `hello`
    assert_eq!(decode_body(b"{\"desc\":\"aGVsbG8=\"}"), Err(SignalingError::MalformedDescription));
    // base64 of `{"type":"offer"}`
    assert_eq!(
        decode_body(b"{\"desc\":\"eyJ0eXBlIjoib2ZmZXIifQ==\"}"),
        Err(SignalingError::MalformedDescription)
    );
    // base64 of `{"type":"later","sdp":"x"}`
    assert_eq!(
        decode_body(b"{\"desc\":\"eyJ0eXBlIjoibGF0ZXIiLCJzZHAiOiJ4In0=\"}"),
        Err(SignalingError::MalformedDescription)
    );
    // an empty string decodes to no octets, which are no JSON text
    assert_eq!(decode_body(b"{\"desc\":\"\"}"), Err(SignalingError::MalformedDescription));
}

#[test]
fn unknown_members_are_passed_over() {
    let text = b"{\"sdp\":\"s\",\"extra\":[1,2],\"type\":\"pranswer\"}";
    assert_eq!(
        SessionDescription::from_json(text),
        Some(SessionDescription { sdp_type: SdpType::Pranswer, sdp: "s".to_owned() })
    );
}

#[test]
fn description_json_agrees_with_the_engine() {
    let mut theirs = webrtc::peer_connection::sdp::session_description::RTCSessionDescription::default();
    theirs.sdp_type = webrtc::peer_connection::sdp::sdp_type::RTCSdpType::Answer;
    theirs.sdp = "v=0\r\n\u{7f}\"\\\u{1}".to_owned();
    let ours = SessionDescription { sdp_type: SdpType::Answer, sdp: theirs.sdp.clone() };
    assert_eq!(ours.to_json(), serde_json::to_string(&theirs).unwrap());
}

#[test]
fn duplicate_members_are_refused() {
    let text = b"{\"type\":\"offer\",\"sdp\":\"a\",\"sdp\":\"b\"}";
    assert_eq!(SessionDescription::from_json(text), None);
}
