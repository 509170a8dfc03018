use starnet::events::SignalMessage;
use starnet::identity::{DeviceId, SessionId};
use starnet::signal::{
    CloseCause, DeviceRegistry, Inbound, ServerReply, SignalEffect, SignalEnvelope, SignalSession,
};

fn id(s: &str) -> DeviceId {
    DeviceId(s.to_string())
}

fn env(payload: SignalMessage) -> Inbound {
    Inbound::Envelope(SignalEnvelope { target: None, payload })
}

fn register(device: &str, name: &str) -> Inbound {
    env(SignalMessage::Register { device_id: id(device), device_name: name.to_string() })
}

fn pair(from: &str, to: &str) -> Inbound {
    env(SignalMessage::PairRequest { from: id(from), to: id(to), session_id: SessionId(9) })
}

fn offer(from: &str, to: &str) -> Inbound {
    env(SignalMessage::Offer { from: id(from), to: id(to), session_id: SessionId(9), sdp: "v=0".to_string() })
}

#[test]
fn registry_register_lookup_unregister() {
    let mut r = DeviceRegistry::new();
    assert_eq!(r.len(), 0);
    r.register("a".to_string(), "Alpha".to_string());
    r.register("b".to_string(), "Beta".to_string());
    assert!(r.contains(&"a".to_string()));
    assert_eq!(r.device_name(&"b".to_string()).map(|s| s.as_str()), Some("Beta"));
    assert_eq!(r.len(), 2);
    r.register("a".to_string(), "Alpha 2".to_string());
    assert_eq!(r.len(), 2);
    assert_eq!(r.device_name(&"a".to_string()).map(|s| s.as_str()), Some("Alpha 2"));
    assert!(r.unregister(&"a".to_string()));
    assert!(!r.unregister(&"a".to_string()));
    assert!(!r.contains(&"a".to_string()));
    assert!(r.contains(&"b".to_string()));
    assert_eq!(r.device_name(&"a".to_string()), None);
    assert_eq!(r.len(), 1);
}

#[test]
fn registration_opens_channel_and_replies() {
    let mut reg = DeviceRegistry::new();
    let mut s = SignalSession::new();
    let out = s.step(&mut reg, register("host-1", "Office PC"));
    assert!(out.keep_open);
    assert_eq!(s.device_id.as_deref(), Some("host-1"));
    assert_eq!(reg.device_name(&"host-1".to_string()).map(|n| n.as_str()), Some("Office PC"));
    assert_eq!(out.effects.len(), 2);
    assert!(matches!(&out.effects[0], SignalEffect::OpenChannel { device_id } if device_id == "host-1"));
    assert!(matches!(&out.effects[1], SignalEffect::Reply(ServerReply::Registered { device_id }) if device_id == "host-1"));
}

#[test]
fn registered_device_is_reachable_from_another_connection() {
    let mut reg = DeviceRegistry::new();
    let mut host = SignalSession::new();
    let mut client = SignalSession::new();
    host.step(&mut reg, register("host-1", "Office PC"));
    for inbound in [pair("client-1", "host-1"), offer("client-1", "host-1")] {
        let out = client.step(&mut reg, inbound);
        assert!(out.keep_open);
        assert_eq!(out.effects.len(), 1);
        match &out.effects[0] {
            SignalEffect::Forward { to, payload } => {
                assert_eq!(to, "host-1");
                assert!(matches!(payload, SignalMessage::PairRequest { .. } | SignalMessage::Offer { .. }));
            }
            other => panic!("unexpected {:?}", other),
        }
    }
    let ice = env(SignalMessage::IceCandidate {
        from: id("host-1"),
        to: id("client-1"),
        session_id: SessionId(9),
        candidate: "candidate:1".to_string(),
        sdp_mid: Some("0".to_string()),
        sdp_m_line_index: Some(0),
    });
    client.step(&mut reg, register("client-1", "Laptop"));
    let out = host.step(&mut reg, ice);
    assert!(matches!(&out.effects[0], SignalEffect::Forward { to, payload: SignalMessage::IceCandidate { .. } } if to == "client-1"));
}

#[test]
fn unknown_device_is_not_reached() {
    let mut reg = DeviceRegistry::new();
    let mut s = SignalSession::new();
    let out = s.step(&mut reg, pair("client-1", "nobody"));
    assert!(out.keep_open);
    assert_eq!(out.effects.len(), 1);
    assert!(matches!(&out.effects[0], SignalEffect::Reply(ServerReply::DeviceNotFound { device_id }) if device_id == "nobody"));
    let out = s.step(&mut reg, offer("client-1", "nobody"));
    assert!(out.keep_open);
    assert!(out.effects.is_empty());
    let answer = env(SignalMessage::Answer { from: id("a"), to: id("nobody"), session_id: SessionId(1), sdp: String::new() });
    assert!(s.step(&mut reg, answer).effects.is_empty());
}

#[test]
fn unregistered_device_is_gone_and_connection_ends() {
    let mut reg = DeviceRegistry::new();
    let mut host = SignalSession::new();
    let mut other = SignalSession::new();
    host.step(&mut reg, register("host-1", "PC"));
    let out = host.step(&mut reg, env(SignalMessage::Unregister { device_id: id("host-1") }));
    assert!(!out.keep_open);
    assert!(matches!(&out.effects[0], SignalEffect::CloseChannel { device_id, cause: CloseCause::Unregistered } if device_id == "host-1"));
    assert!(!reg.contains(&"host-1".to_string()));
    let out = other.step(&mut reg, pair("c", "host-1"));
    assert!(matches!(&out.effects[0], SignalEffect::Reply(ServerReply::DeviceNotFound { .. })));
}

#[test]
fn close_drops_the_registration_twice_as_cleanup_follows() {
    let mut reg = DeviceRegistry::new();
    let mut s = SignalSession::new();
    s.step(&mut reg, register("host-1", "PC"));
    let out = s.step(&mut reg, Inbound::Close);
    assert!(!out.keep_open);
    assert!(!reg.contains(&"host-1".to_string()));
    assert!(matches!(&out.effects[0], SignalEffect::CloseChannel { device_id, cause: CloseCause::Disconnected } if device_id == "host-1"));
    let fin = s.finish(&mut reg);
    assert_eq!(fin.len(), 1);
    assert!(matches!(&fin[0], SignalEffect::CloseChannel { cause: CloseCause::Disconnected, .. }));
    assert!(s.device_id.is_none());
    assert!(s.finish(&mut reg).is_empty());
}

#[test]
fn failure_ends_connection_and_cleanup_unregisters() {
    let mut reg = DeviceRegistry::new();
    let mut s = SignalSession::new();
    s.step(&mut reg, register("host-1", "PC"));
    let out = s.step(&mut reg, Inbound::Failure);
    assert!(!out.keep_open);
    assert!(out.effects.is_empty());
    assert!(reg.contains(&"host-1".to_string()));
    s.finish(&mut reg);
    assert!(!reg.contains(&"host-1".to_string()));
}

#[test]
fn reregistration_replaces_and_keeps_old_id_registered() {
    let mut reg = DeviceRegistry::new();
    let mut s = SignalSession::new();
    s.step(&mut reg, register("a", "first"));
    s.step(&mut reg, register("b", "second"));
    assert_eq!(s.device_id.as_deref(), Some("b"));
    assert!(reg.contains(&"a".to_string()));
    s.step(&mut reg, register("b", "third"));
    assert_eq!(reg.device_name(&"b".to_string()).map(|n| n.as_str()), Some("third"));
    assert_eq!(reg.len(), 2);
    s.finish(&mut reg);
    assert!(reg.contains(&"a".to_string()));
    assert!(!reg.contains(&"b".to_string()));
}

#[test]
fn malformed_frames_get_an_error_reply_and_others_are_ignored() {
    let mut reg = DeviceRegistry::new();
    let mut s = SignalSession::new();
    let out = s.step(&mut reg, Inbound::Malformed("expected value at line 1 column 1".to_string()));
    assert!(out.keep_open);
    match &out.effects[0] {
        SignalEffect::Reply(r) => {
            assert_eq!(r.malformed_text().as_deref(), Some(r#"{"error":"expected value at line 1 column 1"}"#));
        }
        other => panic!("unexpected {:?}", other),
    }
    let out = s.step(&mut reg, Inbound::Ignored);
    assert!(out.keep_open);
    assert!(out.effects.is_empty());
    assert_eq!(ServerReply::Registered { device_id: "x".into() }.malformed_text(), None);
}

#[test]
fn routing_and_other_traffic_change_nothing() {
    let mut reg = DeviceRegistry::new();
    let mut s = SignalSession::new();
    s.step(&mut reg, register("me", "Mine"));
    let mut other = SignalSession::new();
    other.step(&mut reg, register("you", "Yours"));
    for inbound in [
        pair("me", "you"),
        offer("me", "ghost"),
        Inbound::Malformed("bad".to_string()),
        Inbound::Ignored,
        Inbound::Failure,
    ] {
        s.step(&mut reg, inbound);
        assert_eq!(reg.len(), 2);
        assert_eq!(s.device_id.as_deref(), Some("me"));
        assert_eq!(reg.device_name(&"me".to_string()).map(|n| n.as_str()), Some("Mine"));
        assert_eq!(reg.device_name(&"you".to_string()).map(|n| n.as_str()), Some("Yours"));
    }
}

#[test]
fn forwarded_messages_are_relayed_to_the_registered_socket() {
    let mut reg = DeviceRegistry::new();
    let mut host = SignalSession::new();
    let text = r#"{"type":"PairRequest"}"#.to_string();
    // Before registering, nothing is written.
    assert!(host.step(&mut reg, Inbound::Relayed(text.clone())).effects.is_empty());
    host.step(&mut reg, register("host-1", "PC"));
    let out = host.step(&mut reg, Inbound::Relayed(text.clone()));
    assert!(out.keep_open);
    assert_eq!(out.effects.len(), 1);
    assert!(matches!(&out.effects[0], SignalEffect::Relay(t) if *t == text));
    assert_eq!(reg.len(), 1);
}

#[test]
fn a_connection_changes_only_the_devices_it_names() {
    let mut reg = DeviceRegistry::new();
    let mut bystander = SignalSession::new();
    bystander.step(&mut reg, register("keep", "Kept"));
    let mut s = SignalSession::new();
    for inbound in [
        register("a", "A"),
        pair("a", "keep"),
        env(SignalMessage::Unregister { device_id: id("b") }),
        register("c", "C"),
        Inbound::Relayed("x".to_string()),
        Inbound::Close,
    ] {
        s.step(&mut reg, inbound);
    }
    s.finish(&mut reg);
    assert_eq!(reg.device_name(&"keep".to_string()).map(|n| n.as_str()), Some("Kept"));
    assert!(reg.contains(&"a".to_string()));
    assert!(!reg.contains(&"c".to_string()));
}
