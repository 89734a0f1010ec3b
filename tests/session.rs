use termux_gui::error::GuiError;
use termux_gui::frame::ShortRead;
use termux_gui::json::JsonValue;
use termux_gui::session::{
    is_destroy_event, ActivationStep, CommandOutcome, Launcher, Session, SessionState,
    PROTOCOL_VERSION, VERSION_ACCEPTED,
};
use termux_gui::token::{generate_random_address, TOKEN_LEN};

fn awaiting_handshake() -> Session {
    let mut s = Session::new();
    s.listeners_bound().unwrap();
    s.peers_accepted().unwrap();
    s
}

fn event(kind: &str) -> JsonValue {
    JsonValue::Object(vec![
        ("type".to_string(), JsonValue::Str(kind.to_string())),
        ("value".to_string(), JsonValue::Object(vec![])),
    ])
}

#[test]
fn token_is_fifty_alphanumerics() {
    let t = generate_random_address();
    assert_eq!(t.len(), TOKEN_LEN);
    assert_eq!(t.len(), 50);
    assert!(t.chars().all(|c| c.is_ascii_alphanumeric()));
}

#[test]
fn tokens_do_not_collide() {
    let tokens: Vec<String> = (0..200).map(|_| generate_random_address()).collect();
    for i in 0..tokens.len() {
        for j in (i + 1)..tokens.len() {
            assert_ne!(tokens[i], tokens[j]);
        }
    }
}

#[test]
fn sessions_back_to_back_use_different_addresses() {
    let a = Session::new();
    let b = Session::new();
    assert_ne!(a.main_token(), b.main_token());
    assert_ne!(a.event_token(), b.event_token());
    assert_ne!(a.main_token(), a.event_token());
    assert_eq!(a.state(), SessionState::Uninitialized);
}

#[test]
fn handshake_offers_version_one() {
    let s = awaiting_handshake();
    assert_eq!(s.handshake_request(), 1);
    assert_eq!(PROTOCOL_VERSION, 1);
    assert_eq!(VERSION_ACCEPTED, 0);
}

#[test]
fn handshake_accepts_zero() {
    let mut s = awaiting_handshake();
    assert_eq!(s.state(), SessionState::AwaitingHandshake);
    assert!(s.handshake_reply(Some(0)).is_ok());
    assert_eq!(s.state(), SessionState::Established);
}

#[test]
fn handshake_rejects_other_byte() {
    for b in [1u8, 2, 0x7f, 0xff] {
        let mut s = awaiting_handshake();
        assert!(matches!(s.handshake_reply(Some(b)), Err(GuiError::ProtocolVersionMismatch(x)) if x == b));
        assert_eq!(s.state(), SessionState::Failed);
    }
}

#[test]
fn handshake_fails_when_stream_closes() {
    let mut s = awaiting_handshake();
    assert!(matches!(
        s.handshake_reply(None),
        Err(GuiError::ShortRead(ShortRead { expected: 1, received: 0 }))
    ));
    assert_eq!(s.state(), SessionState::Failed);
}

#[test]
fn handshake_out_of_order_is_refused() {
    let mut s = Session::new();
    assert!(matches!(s.handshake_reply(Some(0)), Err(GuiError::InvalidOperation(_))));
    assert_eq!(s.state(), SessionState::Uninitialized);
    assert!(matches!(s.peers_accepted(), Err(GuiError::InvalidOperation(_))));
    s.listeners_bound().unwrap();
    assert!(matches!(s.listeners_bound(), Err(GuiError::InvalidOperation(_))));
}

#[test]
fn activation_primary_success_awaits_peers() {
    let mut s = Session::new();
    s.listeners_bound().unwrap();
    assert_eq!(
        s.activation_result(Launcher::Primary, CommandOutcome::Succeeded).unwrap(),
        ActivationStep::AwaitPeers
    );
    assert_eq!(s.state(), SessionState::AwaitingPeer);
}

#[test]
fn activation_falls_back_then_fails() {
    let mut s = Session::new();
    s.listeners_bound().unwrap();
    assert_eq!(
        s.activation_result(Launcher::Primary, CommandOutcome::Missing).unwrap(),
        ActivationStep::TryFallback
    );
    assert_eq!(
        s.activation_result(Launcher::Primary, CommandOutcome::Failed).unwrap(),
        ActivationStep::TryFallback
    );
    assert!(matches!(
        s.activation_result(Launcher::Fallback, CommandOutcome::Failed),
        Err(GuiError::ConnectionFailed)
    ));
    assert_eq!(s.state(), SessionState::Failed);
}

#[test]
fn activation_fallback_success_awaits_peers() {
    let mut s = Session::new();
    s.listeners_bound().unwrap();
    assert_eq!(
        s.activation_result(Launcher::Fallback, CommandOutcome::Succeeded).unwrap(),
        ActivationStep::AwaitPeers
    );
    let mut missing = Session::new();
    missing.listeners_bound().unwrap();
    assert!(matches!(
        missing.activation_result(Launcher::Fallback, CommandOutcome::Missing),
        Err(GuiError::ConnectionFailed)
    ));
}

#[test]
fn activation_before_bind_is_refused() {
    let mut s = Session::new();
    assert!(matches!(
        s.activation_result(Launcher::Primary, CommandOutcome::Succeeded),
        Err(GuiError::InvalidOperation(_))
    ));
}

#[test]
fn activation_command_names_both_endpoints() {
    let s = Session::new();
    let args = s.activation_args();
    let expected = vec![
        "broadcast".to_string(),
        "-n".to_string(),
        "com.termux.gui/.GUIReceiver".to_string(),
        "--es".to_string(),
        "mainSocket".to_string(),
        s.main_token().to_string(),
        "--es".to_string(),
        "eventSocket".to_string(),
        s.event_token().to_string(),
    ];
    assert_eq!(args, expected);
    assert_eq!(Session::activation_program(Launcher::Primary), "termux-am");
    assert_eq!(Session::activation_program(Launcher::Fallback), "am");
}

#[test]
fn close_and_loss_are_terminal() {
    let mut s = awaiting_handshake();
    s.handshake_reply(Some(0)).unwrap();
    s.close().unwrap();
    assert_eq!(s.state(), SessionState::Closed);
    assert!(matches!(s.close(), Err(GuiError::InvalidOperation(_))));
    assert!(matches!(s.stream_lost(), Err(GuiError::InvalidOperation(_))));

    let mut t = awaiting_handshake();
    t.handshake_reply(Some(0)).unwrap();
    t.stream_lost().unwrap();
    assert_eq!(t.state(), SessionState::Broken);
}

#[test]
fn destroy_event_marks_teardown() {
    let mut s = awaiting_handshake();
    s.handshake_reply(Some(0)).unwrap();
    assert!(!s.observe_event(&event("click")));
    assert!(!s.teardown_requested());
    assert!(s.observe_event(&event("destroy")));
    assert!(s.teardown_requested());
    assert!(!s.observe_event(&event("click")));
    assert!(s.teardown_requested());
}

#[test]
fn destroy_event_needs_string_type() {
    assert!(is_destroy_event(&event("destroy")));
    assert!(!is_destroy_event(&event("destroyed")));
    assert!(!is_destroy_event(&JsonValue::Str("destroy".to_string())));
    let numeric = JsonValue::Object(vec![("type".to_string(), JsonValue::Int(0))]);
    assert!(!is_destroy_event(&numeric));
}
