use netwatch_agent::client::{EmitRoute, SocketClient, SocketError, AuthOutcome, OUTBOUND_CAPACITY};
use netwatch_agent::frame::{decode_event, encode_event, parse_handshake, split_batch, Endpoint};
use netwatch_agent::json::JsonValue;
use netwatch_agent::registry::InboundEvent;

fn connected_client() -> SocketClient {
    let mut c = SocketClient::new();
    c.connect("https://example.com").unwrap();
    c.accept_handshake("0{\"sid\":\"abc\",\"pingInterval\":25000,\"pingTimeout\":20000}").unwrap();
    c.establish();
    c
}

#[test]
fn handshake_yields_session_id_and_intervals() {
    let h = parse_handshake("0{\"sid\":\"abc\",\"pingInterval\":25000,\"pingTimeout\":20000}").unwrap();
    assert_eq!(h.sid, "abc");
    assert_eq!(h.ping_interval, 25000);
    assert_eq!(h.ping_timeout, 20000);
}

#[test]
fn handshake_without_open_marker_is_refused() {
    assert!(parse_handshake("{\"sid\":\"abc\",\"pingInterval\":25000,\"pingTimeout\":20000}").is_none());
    assert!(parse_handshake("0{\"sid\":\"abc\"}").is_none());
    assert!(parse_handshake("0not json").is_none());
    let mut c = SocketClient::new();
    c.connect("https://example.com").unwrap();
    match c.accept_handshake("40/agent,") {
        Err(SocketError::Handshake(_)) => {}
        other => panic!("unexpected {:?}", other),
    }
}

#[test]
fn connect_builds_handshake_and_session_urls() {
    let mut c = SocketClient::new();
    let url = c.connect("https://example.com/nw-socket/").unwrap();
    assert_eq!(url, "https://example.com/nw-socket/socket.io/?EIO=4&transport=polling");
    let post = c.accept_handshake("0{\"sid\":\"abc\",\"pingInterval\":25000,\"pingTimeout\":20000}").unwrap();
    assert_eq!(post.url, "https://example.com/nw-socket/socket.io/?EIO=4&transport=polling&sid=abc");
    assert_eq!(post.frame, "40/agent,");
    assert!(!c.is_connected());
    c.establish();
    assert!(c.is_connected());
}

#[test]
fn connect_keeps_the_port_and_defaults_the_path() {
    let mut c = SocketClient::new();
    let url = c.connect("http://localhost:3000").unwrap();
    assert_eq!(url, "http://localhost:3000/socket.io/?EIO=4&transport=polling");
    let e = Endpoint { base_url: "http://h".to_string(), socket_path: "/socket.io".to_string() };
    assert_eq!(e.session_url("s1"), "http://h/socket.io/?EIO=4&transport=polling&sid=s1");
}

#[test]
fn connect_without_url_is_a_config_error() {
    let mut c = SocketClient::new();
    match c.connect("") {
        Err(SocketError::Config(m)) => assert_eq!(m, "No server URL configured"),
        other => panic!("unexpected {:?}", other),
    }
    match c.connect("not a url") {
        Err(SocketError::Config(m)) => assert!(m.starts_with("Invalid URL: ")),
        other => panic!("unexpected {:?}", other),
    }
}

#[test]
fn emitted_frames_leave_in_order() {
    let mut c = connected_client();
    for e in ["e1", "e2", "e3"] {
        match c.emit(e, "null") {
            Ok(EmitRoute::Queued) => {}
            other => panic!("unexpected {:?}", other),
        }
    }
    let a = c.next_outbound(c.epoch).unwrap();
    let b = c.next_outbound(c.epoch).unwrap();
    let d = c.next_outbound(c.epoch).unwrap();
    assert_eq!(a.frame, "42/agent,[\"e1\",null]");
    assert_eq!(b.frame, "42/agent,[\"e2\",null]");
    assert_eq!(d.frame, "42/agent,[\"e3\",null]");
    assert_eq!(a.url, "https://example.com/socket.io/?EIO=4&transport=polling&sid=abc");
    assert!(c.next_outbound(c.epoch).is_none());
}

#[test]
fn full_outbound_queue_refuses_frames() {
    let mut c = connected_client();
    for _ in 0..OUTBOUND_CAPACITY {
        assert!(matches!(c.emit("x", "1"), Ok(EmitRoute::Queued)));
    }
    assert!(matches!(c.emit("x", "1"), Err(SocketError::Emit(_))));
}

#[test]
fn emit_without_session_is_not_connected() {
    let mut c = SocketClient::new();
    assert!(matches!(c.emit("x", "1"), Err(SocketError::NotConnected)));
}

#[test]
fn emit_before_establishment_goes_direct() {
    let mut c = SocketClient::new();
    c.connect("https://example.com").unwrap();
    c.accept_handshake("0{\"sid\":\"abc\",\"pingInterval\":25000,\"pingTimeout\":20000}").unwrap();
    match c.emit("auth", "{}") {
        Ok(EmitRoute::Direct(p)) => {
            assert_eq!(p.frame, "42/agent,[\"auth\",{}]");
            assert_eq!(p.url, "https://example.com/socket.io/?EIO=4&transport=polling&sid=abc");
        }
        other => panic!("unexpected {:?}", other),
    }
}

#[test]
fn disconnect_drops_the_session() {
    let mut c = connected_client();
    c.emit("x", "1").unwrap();
    c.disconnect();
    assert!(!c.is_connected());
    assert!(c.next_outbound(c.epoch).is_none());
    assert!(matches!(c.emit("x", "1"), Err(SocketError::NotConnected)));
}

#[test]
fn encode_event_frames_name_and_payload() {
    assert_eq!(encode_event("heartbeat", "{\"a\":1}"), "42/agent,[\"heartbeat\",{\"a\":1}]");
}

#[test]
fn batch_with_one_length_prefixed_frame_dispatches_once() {
    let body = "36:42/agent,[\"capture_screenshot\",null]";
    assert_eq!(split_batch(body), vec!["42/agent,[\"capture_screenshot\",null]".to_string()]);
    let mut c = connected_client();
    c.on_capture_screenshot(7);
    let ds = c.receive(body);
    assert_eq!(ds.len(), 1);
    assert!(matches!(ds[0].event, InboundEvent::CaptureScreenshot));
    assert_eq!(ds[0].subscribers, vec![7]);
}

#[test]
fn misaligned_length_prefix_gives_one_frame_and_one_dispatch() {
    let body = "22:42/agent,[\"capture_screenshot\",null]";
    assert_eq!(split_batch(body), vec!["42/agent,[\"capture_screenshot\",null]".to_string()]);
    let mut c = connected_client();
    c.on_capture_screenshot(3);
    let ds = c.receive(body);
    assert_eq!(ds.len(), 1);
    assert!(matches!(ds[0].event, InboundEvent::CaptureScreenshot));
    assert_eq!(ds[0].subscribers, vec![3]);
}

#[test]
fn invalid_length_prefix_is_one_frame() {
    assert_eq!(split_batch("abc:def"), vec!["abc:def".to_string()]);
    assert_eq!(split_batch("42/agent,[\"x\",1]"), vec!["42/agent,[\"x\",1]".to_string()]);
    assert_eq!(split_batch("+2:ab"), vec!["ab".to_string()]);
    assert_eq!(split_batch(""), Vec::<String>::new());
    assert_eq!(split_batch("9:ab"), vec!["ab".to_string()]);
}

#[test]
fn keepalive_frames_are_skipped() {
    let c = connected_client();
    assert_eq!(split_batch("1:31:6"), vec!["3".to_string(), "6".to_string()]);
    assert_eq!(c.receive("1:31:6").len(), 0);
}

#[test]
fn two_command_subscribers_both_receive_in_order() {
    let mut c = connected_client();
    c.on_command(1);
    c.on_command(2);
    let ds = c.receive("42/agent,[\"command\",{\"id\":\"c1\",\"command\":\"GET_BLOCKING_RULES\"}]");
    assert_eq!(ds.len(), 1);
    assert_eq!(ds[0].subscribers, vec![1, 2]);
    match &ds[0].event {
        InboundEvent::Command(p) => {
            assert_eq!(p.id, "c1");
            assert_eq!(p.command, "GET_BLOCKING_RULES");
            assert!(p.payload.is_none());
        }
        other => panic!("unexpected {:?}", other),
    }
}

#[test]
fn single_slot_registration_overwrites() {
    let mut c = connected_client();
    c.on_stop_screen_stream(1);
    c.on_stop_screen_stream(2);
    let ds = c.receive("42/agent,[\"stop_screen_stream\"]");
    assert_eq!(ds.len(), 1);
    assert_eq!(ds[0].subscribers, vec![2]);
}

#[test]
fn undecodable_events_are_dropped() {
    let c = connected_client();
    assert_eq!(c.receive("42/agent,[\"start_screen_stream\",{\"fps\":10}]").len(), 0);
    assert_eq!(c.receive("42/agent,[\"unknown\",{}]").len(), 0);
    assert_eq!(c.receive("42/agent,not json").len(), 0);
    let ds = c.receive("42/agent,[\"start_screen_stream\",{\"quality\":80,\"fps\":10}]");
    assert!(matches!(ds[0].event, InboundEvent::StartScreenStream { quality: 80, fps: 10 }));
}

#[test]
fn decode_event_takes_name_and_data() {
    let (name, data) = decode_event("42/agent,[\"list_directory\",{\"path\":\"/tmp\"}]").unwrap();
    assert_eq!(name, "list_directory");
    assert_eq!(data.get("path").and_then(|p| p.as_text()), Some("/tmp".to_string()));
    let (name, data) = decode_event("42/agent,[\"capture_screenshot\"]").unwrap();
    assert_eq!(name, "capture_screenshot");
    assert!(data.is_null());
    assert!(decode_event("42/agent,[1,2]").is_none());
}

#[test]
fn auth_success_records_the_computer() {
    let mut c = SocketClient::new();
    c.on_auth_success(5);
    let r = c.accept_auth_response("42/agent,[\"auth_success\",{\"computerId\":\"pc-1\",\"config\":{\"screenshotInterval\":30000}}]");
    match r {
        Ok(AuthOutcome::Accepted(a)) => {
            assert_eq!(a.computer_id, "pc-1");
            assert_eq!(a.config.screenshot_interval, Some(30000));
            assert_eq!(a.config.activity_log_interval, None);
            assert_eq!(a.subscribers, vec![5]);
        }
        other => panic!("unexpected {:?}", other),
    }
    assert_eq!(c.computer_id, Some("pc-1".to_string()));
}

#[test]
fn auth_error_fails_with_its_message() {
    let mut c = SocketClient::new();
    match c.accept_auth_response("42/agent,[\"auth_error\",{\"message\":\"bad key\"}]") {
        Err(SocketError::AuthFailed(m)) => assert_eq!(m, "bad key"),
        other => panic!("unexpected {:?}", other),
    }
    assert!(matches!(c.accept_auth_response("40/agent,"), Ok(AuthOutcome::Unanswered)));
}

#[test]
fn ping_is_due_five_seconds_before_the_interval() {
    let c = connected_client();
    assert!(!c.ping_due(20000));
    assert!(c.ping_due(20001));
    assert_eq!(SocketClient::ping_frame(), "2");
    assert!(!SocketClient::new().ping_due(1_000_000));
}

#[test]
fn error_messages_name_their_kind() {
    assert_eq!(SocketError::NotConnected.message(), "Not connected to server");
    assert_eq!(SocketError::Config("x".to_string()).message(), "Configuration error: x");
    assert_eq!(SocketError::AuthFailed("no".to_string()).message(), "Authentication failed: no");
}

#[test]
fn command_response_leaves_out_absent_members() {
    let mut c = connected_client();
    c.send_command_response("c1".to_string(), true, Some("ok".to_string()), None).unwrap();
    let p = c.next_outbound(c.epoch).unwrap();
    assert_eq!(p.frame, "42/agent,[\"command_response\",{\"commandId\":\"c1\",\"success\":true,\"response\":\"ok\"}]");
}

#[test]
fn json_values_parse_and_print() {
    let v = JsonValue::parse("{\"b\":[1,-2,1.5,\"x\",null,true]}").unwrap();
    assert_eq!(v.to_text(), "{\"b\":[1,-2,1.5,\"x\",null,true]}");
    assert!(matches!(v, JsonValue::Object(_)));
    assert!(JsonValue::parse("{").is_none());
}

#[test]
fn tasks_of_a_superseded_session_stop() {
    let mut c = connected_client();
    let old = c.epoch;
    assert!(c.task_active(old));
    c.emit("x", "1").unwrap();
    c.connect("https://example.com").unwrap();
    assert_ne!(c.epoch, old);
    c.accept_handshake("0{\"sid\":\"def\",\"pingInterval\":25000,\"pingTimeout\":20000}").unwrap();
    c.establish();
    assert!(!c.task_active(old));
    assert!(c.task_active(c.epoch));
    c.emit("y", "2").unwrap();
    assert!(c.next_outbound(old).is_none());
    let p = c.next_outbound(c.epoch).unwrap();
    assert_eq!(p.frame, "42/agent,[\"y\",2]");
    assert!(p.url.ends_with("sid=def"));
}

#[test]
fn failed_connect_keeps_the_session() {
    let mut c = connected_client();
    let epoch = c.epoch;
    assert!(c.connect("").is_err());
    assert!(c.connect("not a url").is_err());
    assert!(c.is_connected());
    assert!(c.task_active(epoch));
    assert_eq!(c.session.as_ref().unwrap().id, "abc");
}

#[test]
fn length_prefix_counts_utf8_bytes() {
    assert_eq!(split_batch("2:é1:a"), vec!["é".to_string(), "a".to_string()]);
    assert_eq!(split_batch("3:a€b"), vec!["a€b".to_string()]);
    assert_eq!(split_batch("1:é"), vec!["é".to_string()]);
    assert_eq!(split_batch("1:x2:ab"), vec!["x".to_string(), "ab".to_string()]);
    assert_eq!(split_batch("1:xy2:ab"), vec!["xy2:ab".to_string()]);
    assert_eq!(split_batch("4:€x1:y"), vec!["€x".to_string(), "y".to_string()]);
}
