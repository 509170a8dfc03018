use starnet::config::CodecType;
use starnet::encode::EncodedFrame;
use starnet::events::{InputEvent, MouseButton};
use starnet::identity::SessionId;
use starnet::transport::{
    client_reader_step, host_reader_step, input_message, registration_message, signaling_url,
    video_frame_message, ClientTransport, HostTransport, PeerRole, ReaderStep, TransportError,
    TransportMsg, WireInbound,
};

#[test]
fn signaling_url_keeps_websocket_urls() {
    assert_eq!(signaling_url("ws://example.com:8080/signal"), "ws://example.com:8080/signal");
    assert_eq!(signaling_url("wss://example.com/signal"), "wss://example.com/signal");
}

#[test]
fn signaling_url_adds_ws_scheme() {
    assert_eq!(signaling_url("127.0.0.1:8080/signal"), "ws://127.0.0.1:8080/signal");
    assert_eq!(signaling_url(""), "ws://");
    assert_eq!(signaling_url("ws:/x"), "ws://ws:/x");
    assert_eq!(signaling_url("http://h"), "ws://http://h");
}

#[test]
fn signaling_url_normalizing_twice_is_once() {
    for u in ["h:1/signal", "ws://h", "wss://h", "", "w", "ws:"] {
        let once = signaling_url(u);
        assert_eq!(signaling_url(&once), once);
    }
}

#[test]
fn registration_messages_name_role_and_session() {
    let sid = SessionId(0x67e5504410b1426f9247bb680e5fe0c8);
    match registration_message(PeerRole::Host, &sid) {
        TransportMsg::Control { action, value } => {
            assert_eq!(action, "register_host");
            assert_eq!(value.as_deref(), Some(r#"{"session_id":"67e55044-10b1-426f-9247-bb680e5fe0c8"}"#));
        }
        other => panic!("unexpected {:?}", other),
    }
    match registration_message(PeerRole::Client, &sid) {
        TransportMsg::Control { action, value } => {
            assert_eq!(action, "register_client");
            assert_eq!(value.as_deref(), Some(r#"{"session_id":"67e55044-10b1-426f-9247-bb680e5fe0c8"}"#));
        }
        other => panic!("unexpected {:?}", other),
    }
}

fn sample_frame() -> EncodedFrame {
    EncodedFrame { data: vec![0, 0, 0, 1, 0x65, 0x88], codec: CodecType::H264, is_keyframe: true, timestamp: 1_000_000 }
}

#[test]
fn video_frame_message_carries_the_frame() {
    match video_frame_message(&sample_frame()) {
        TransportMsg::VideoFrame { data, codec, is_keyframe, timestamp, width, height } => {
            assert_eq!(data, vec![0, 0, 0, 1, 0x65, 0x88]);
            assert_eq!(codec, "h264");
            assert!(is_keyframe);
            assert_eq!(timestamp, 1_000_000);
            assert_eq!((width, height), (0, 0));
        }
        other => panic!("unexpected {:?}", other),
    }
}

#[test]
fn video_frames_arrive_intact_at_the_client() {
    let f = EncodedFrame { data: vec![9, 8, 7], codec: CodecType::VP9, is_keyframe: false, timestamp: 42 };
    match client_reader_step(WireInbound::Message(video_frame_message(&f))) {
        ReaderStep::Deliver(g) => {
            assert_eq!(g.data, f.data);
            assert_eq!(g.codec, CodecType::VP9);
            assert_eq!(g.is_keyframe, f.is_keyframe);
            assert_eq!(g.timestamp, f.timestamp);
        }
        other => panic!("unexpected {:?}", other),
    }
}

#[test]
fn input_events_arrive_intact_at_the_host() {
    let e = InputEvent::MouseClick { button: MouseButton::Right, x: 12.25f64.to_bits(), y: 7.5f64.to_bits(), pressed: false };
    match input_message(e) {
        TransportMsg::Input { event } => assert_eq!(event, e),
        other => panic!("unexpected {:?}", other),
    }
    match host_reader_step(WireInbound::Message(input_message(e))) {
        ReaderStep::Deliver(got) => assert_eq!(got, e),
        other => panic!("unexpected {:?}", other),
    }
}

#[test]
fn each_side_passes_over_what_is_not_for_it() {
    let sid = SessionId(1);
    assert!(matches!(host_reader_step(WireInbound::Message(video_frame_message(&sample_frame()))), ReaderStep::Skip));
    assert!(matches!(client_reader_step(WireInbound::Message(input_message(InputEvent::KeyPress { key: 1, modifiers: 0 }))), ReaderStep::Skip));
    assert!(matches!(host_reader_step(WireInbound::Message(registration_message(PeerRole::Client, &sid))), ReaderStep::Skip));
    assert!(matches!(client_reader_step(WireInbound::Message(registration_message(PeerRole::Host, &sid))), ReaderStep::Skip));
    assert!(matches!(host_reader_step(WireInbound::Unparsable), ReaderStep::Skip));
    assert!(matches!(client_reader_step(WireInbound::Other), ReaderStep::Skip));
    assert!(matches!(host_reader_step(WireInbound::Close), ReaderStep::Stop));
    assert!(matches!(client_reader_step(WireInbound::Failure), ReaderStep::Stop));
}

#[test]
fn host_transport_lifecycle() {
    let mut t: HostTransport<Vec<String>, Vec<InputEvent>> = HostTransport::new();
    assert!(!t.is_connected());
    assert!(matches!(t.video_frame_outbound(&sample_frame()), Err(TransportError::NotConnected)));
    assert!(matches!(t.input_receiver(), Err(TransportError::NotConnected)));
    t.attach(Vec::new(), vec![InputEvent::KeyRelease { key: 2, modifiers: 4 }]);
    assert!(t.is_connected());
    match t.video_frame_outbound(&sample_frame()) {
        Ok((s, TransportMsg::VideoFrame { timestamp, .. })) => {
            assert!(s.is_empty());
            assert_eq!(timestamp, 1_000_000);
        }
        other => panic!("unexpected {:?}", other.map(|(_, m)| m)),
    }
    let rx = t.input_receiver().unwrap();
    assert_eq!(rx.pop(), Some(InputEvent::KeyRelease { key: 2, modifiers: 4 }));
    assert!(t.send_input_event(InputEvent::KeyPress { key: 1, modifiers: 0 }).is_ok());
    match t.receive_video_frame() {
        Err(TransportError::ChannelError(m)) => assert_eq!(m, "Host doesn't receive video frames"),
        other => panic!("unexpected {:?}", other),
    }
    assert!(t.disconnect().is_ok());
    assert!(!t.is_connected());
    assert!(matches!(t.video_frame_outbound(&sample_frame()), Err(TransportError::NotConnected)));
    let d: HostTransport<u8, u8> = HostTransport::default();
    assert!(!d.is_connected());
}

#[test]
fn host_input_received_maps_closed_channel() {
    let e = InputEvent::KeyPress { key: 3, modifiers: 1 };
    assert_eq!(HostTransport::<u8, u8>::input_received(Some(e)).unwrap(), e);
    match HostTransport::<u8, u8>::input_received(None) {
        Err(TransportError::Disconnected(m)) => assert_eq!(m, "input channel closed"),
        other => panic!("unexpected {:?}", other),
    }
}

#[test]
fn client_transport_lifecycle() {
    let mut t: ClientTransport<u32, Vec<EncodedFrame>> = ClientTransport::new();
    let e = InputEvent::MouseScroll { x: 0, y: 0, delta_x: 1.5f64.to_bits(), delta_y: (-2.0f64).to_bits() };
    assert!(matches!(t.input_event_outbound(e), Err(TransportError::NotConnected)));
    assert!(matches!(t.video_receiver(), Err(TransportError::NotConnected)));
    t.attach(5, vec![sample_frame()]);
    assert!(t.is_connected());
    match t.input_event_outbound(e) {
        Ok((s, TransportMsg::Input { event })) => {
            assert_eq!(*s, 5);
            assert_eq!(event, e);
        }
        other => panic!("unexpected {:?}", other.map(|(_, m)| m)),
    }
    assert_eq!(t.video_receiver().unwrap().len(), 1);
    assert!(t.send_video_frame(&sample_frame()).is_ok());
    match t.receive_input_event() {
        Err(TransportError::ChannelError(m)) => assert_eq!(m, "Client doesn't receive input events"),
        other => panic!("unexpected {:?}", other),
    }
    assert!(t.disconnect().is_ok());
    assert!(!t.is_connected());
    assert!(matches!(t.input_event_outbound(e), Err(TransportError::NotConnected)));
    let d: ClientTransport<u8, u8> = ClientTransport::default();
    assert!(!d.is_connected());
}

#[test]
fn client_frame_received_maps_closed_channel() {
    assert_eq!(ClientTransport::<u8, u8>::frame_received(Some(sample_frame())).unwrap().timestamp, 1_000_000);
    match ClientTransport::<u8, u8>::frame_received(None) {
        Err(TransportError::Disconnected(m)) => assert_eq!(m, "video channel closed"),
        other => panic!("unexpected {:?}", other),
    }
}

#[test]
fn every_codec_survives_the_trip() {
    for c in [CodecType::H264, CodecType::H265, CodecType::VP8, CodecType::VP9, CodecType::AV1] {
        let f = EncodedFrame { data: vec![1, 2], codec: c, is_keyframe: true, timestamp: 5 };
        match video_frame_message(&f) {
            TransportMsg::VideoFrame { codec, .. } => assert_eq!(CodecType::from_label(&codec), c),
            other => panic!("unexpected {:?}", other),
        }
        match client_reader_step(WireInbound::Message(video_frame_message(&f))) {
            ReaderStep::Deliver(g) => assert_eq!(g.codec, c),
            other => panic!("unexpected {:?}", other),
        }
    }
}

#[test]
fn codec_labels_are_lowercase_names() {
    assert_eq!(CodecType::H264.label(), "h264");
    assert_eq!(CodecType::H265.label(), "h265");
    assert_eq!(CodecType::VP8.label(), "vp8");
    assert_eq!(CodecType::VP9.label(), "vp9");
    assert_eq!(CodecType::AV1.label(), "av1");
    assert_eq!(CodecType::from_label(&"mpeg2".to_string()), CodecType::H264);
    assert_eq!(CodecType::from_label(&"H265".to_string()), CodecType::H264);
}

fn run_host(ws: Vec<WireInbound>) -> Vec<InputEvent> {
    let mut out = Vec::new();
    for w in ws {
        match host_reader_step(w) {
            ReaderStep::Deliver(e) => out.push(e),
            ReaderStep::Skip => {}
            ReaderStep::Stop => break,
        }
    }
    out
}

#[test]
fn host_delivers_inputs_in_order_until_close() {
    let e1 = InputEvent::KeyPress { key: 1, modifiers: 0 };
    let e2 = InputEvent::KeyRelease { key: 1, modifiers: 0 };
    let e3 = InputEvent::KeyPress { key: 9, modifiers: 0 };
    let ws = vec![
        WireInbound::Message(input_message(e1)),
        WireInbound::Unparsable,
        WireInbound::Message(video_frame_message(&sample_frame())),
        WireInbound::Message(input_message(e2)),
        WireInbound::Close,
        WireInbound::Message(input_message(e3)),
    ];
    assert_eq!(run_host(ws), vec![e1, e2]);
}

#[test]
fn client_delivers_frames_in_order_until_failure() {
    let f1 = EncodedFrame { data: vec![1], codec: CodecType::AV1, is_keyframe: true, timestamp: 1 };
    let f2 = EncodedFrame { data: vec![2], codec: CodecType::H264, is_keyframe: false, timestamp: 2 };
    let ws = vec![
        WireInbound::Message(video_frame_message(&f1)),
        WireInbound::Other,
        WireInbound::Message(input_message(InputEvent::KeyPress { key: 1, modifiers: 0 })),
        WireInbound::Message(video_frame_message(&f2)),
        WireInbound::Failure,
        WireInbound::Message(video_frame_message(&f1)),
    ];
    let mut got = Vec::new();
    for w in ws {
        match client_reader_step(w) {
            ReaderStep::Deliver(f) => got.push(f),
            ReaderStep::Skip => {}
            ReaderStep::Stop => break,
        }
    }
    assert_eq!(got.len(), 2);
    assert_eq!((got[0].data.clone(), got[0].codec, got[0].timestamp), (vec![1], CodecType::AV1, 1));
    assert_eq!((got[1].data.clone(), got[1].codec, got[1].timestamp), (vec![2], CodecType::H264, 2));
}
