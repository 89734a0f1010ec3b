use termux_gui::dispatch::CommandChannel;
use termux_gui::frame::{bytes_needed, decode_frame, encode_frame};
use termux_gui::json::JsonValue;
use termux_gui::rendezvous::{abstract_socket_address, Rendezvous};
use termux_gui::session::{ActivationStep, CommandOutcome, Launcher, Session, SessionState};

fn from_serde(v: &serde_json::Value) -> JsonValue {
    match v {
        serde_json::Value::Null => JsonValue::Null,
        serde_json::Value::Bool(b) => JsonValue::Bool(*b),
        serde_json::Value::Number(n) => match n.as_i64() {
            Some(i) => JsonValue::Int(i),
            None => JsonValue::Num(n.to_string()),
        },
        serde_json::Value::String(s) => JsonValue::Str(s.clone()),
        serde_json::Value::Array(a) => JsonValue::Array(a.iter().map(from_serde).collect()),
        serde_json::Value::Object(m) => {
            JsonValue::Object(m.iter().map(|(k, v)| (k.clone(), from_serde(v))).collect())
        }
    }
}

fn to_serde(v: &JsonValue) -> serde_json::Value {
    match v {
        JsonValue::Null => serde_json::Value::Null,
        JsonValue::Bool(b) => serde_json::Value::Bool(*b),
        JsonValue::Int(i) => serde_json::Value::from(*i),
        JsonValue::Num(s) => serde_json::from_str(s).unwrap(),
        JsonValue::Str(s) => serde_json::Value::String(s.clone()),
        JsonValue::Array(a) => serde_json::Value::Array(a.iter().map(to_serde).collect()),
        JsonValue::Object(f) => {
            serde_json::Value::Object(f.iter().map(|(k, v)| (k.clone(), to_serde(v))).collect())
        }
    }
}

/// Reads one frame from `stream` starting at `*pos`, as a reader of a
/// blocking stream would: never past the frame's end.
fn read_frame(stream: &[u8], pos: &mut usize) -> Vec<u8> {
    let mut buf: Vec<u8> = Vec::new();
    loop {
        let need = bytes_needed(&buf);
        if need == 0 {
            break;
        }
        let take = need.min(stream.len() - *pos);
        assert!(take > 0, "stream ended inside a frame");
        buf.extend_from_slice(&stream[*pos..*pos + take]);
        *pos += take;
    }
    decode_frame(&buf).unwrap().0
}

#[test]
fn json_frames_round_trip() {
    let texts = [
        r#"{"method":"ping","params":{}}"#,
        r#"[1,-2,3.5,"x",null,true,{"a":[]}]"#,
        r#""héllo""#,
        "18446744073709551615",
    ];
    for t in texts {
        let value: serde_json::Value = serde_json::from_str(t).unwrap();
        let model = from_serde(&value);
        let body = serde_json::to_vec(&to_serde(&model)).unwrap();
        let frame = encode_frame(&body);
        let (decoded, used) = decode_frame(&frame).unwrap();
        assert_eq!(used, frame.len());
        let back: serde_json::Value = serde_json::from_slice(&decoded).unwrap();
        assert_eq!(back, value);
        assert_eq!(from_serde(&back), model);
    }
}

#[test]
fn end_to_end_with_mock_host() {
    // (1) two named endpoints, each taking one peer
    let mut session = Session::new();
    let main_addr = abstract_socket_address(session.main_token()).unwrap();
    let event_addr = abstract_socket_address(session.event_token()).unwrap();
    assert_ne!(main_addr, event_addr);
    session.listeners_bound().unwrap();
    assert_eq!(
        session.activation_result(Launcher::Primary, CommandOutcome::Succeeded).unwrap(),
        ActivationStep::AwaitPeers
    );

    // (2) the host connects to both and answers the handshake
    let mut main_listener = Rendezvous::new();
    let mut event_listener = Rendezvous::new();
    assert!(main_listener.offer());
    assert!(event_listener.offer());
    assert!(!main_listener.offer());
    session.peers_accepted().unwrap();
    assert_eq!(session.handshake_request(), 1);
    session.handshake_reply(Some(0)).unwrap();
    assert_eq!(session.state(), SessionState::Established);

    // (3) the client sends ping and waits
    let mut channel = CommandChannel::new();
    let ping = termux_gui::json::request("ping", vec![]);
    channel.begin_call(&ping).unwrap();
    let wire = encode_frame(&serde_json::to_vec(&to_serde(&ping)).unwrap());
    let mut at = 0;
    let host_got: serde_json::Value = serde_json::from_slice(&read_frame(&wire, &mut at)).unwrap();
    assert_eq!(host_got, serde_json::from_str::<serde_json::Value>(r#"{"method":"ping","params":{}}"#).unwrap());

    // (4) the host echoes {"ok":true}; the client reads exactly that
    let reply_wire = encode_frame(br#"{"ok":true}"#);
    let mut rat = 0;
    let reply_body = read_frame(&reply_wire, &mut rat);
    let reply = channel.reply(from_serde(&serde_json::from_slice(&reply_body).unwrap())).unwrap();
    assert_eq!(reply, JsonValue::Object(vec![("ok".to_string(), JsonValue::Bool(true))]));
    assert_eq!(rat, reply_wire.len());

    // (5) the host pushes destroy on the event stream
    let mut events = encode_frame(br#"{"type":"click","value":{"id":3}}"#);
    events.extend(encode_frame(br#"{"type":"destroy","value":{}}"#));
    let mut eat = 0;
    let first = from_serde(&serde_json::from_slice(&read_frame(&events, &mut eat)).unwrap());
    assert!(!session.observe_event(&first));
    assert!(!session.teardown_requested());

    // (6) the client observes it and marks the session for teardown
    let second = from_serde(&serde_json::from_slice(&read_frame(&events, &mut eat)).unwrap());
    assert!(session.observe_event(&second));
    assert!(session.teardown_requested());
    assert_eq!(eat, events.len());
    session.close().unwrap();
    assert_eq!(session.state(), SessionState::Closed);
}
