use termux_gui::dispatch::CommandChannel;
use termux_gui::error::GuiError;
use termux_gui::json::JsonValue;
use termux_gui::rendezvous::{
    abstract_socket_address, ListenerState, Rendezvous, LISTEN_BACKLOG, SUN_PATH_LEN,
};

fn msg(method: &str) -> JsonValue {
    JsonValue::Object(vec![("method".to_string(), JsonValue::Str(method.to_string()))])
}

#[test]
fn abstract_address_starts_with_zero_byte() {
    assert_eq!(abstract_socket_address("ab1").unwrap(), vec![0, b'a', b'b', b'1']);
    assert_eq!(abstract_socket_address("").unwrap(), vec![0]);
}

#[test]
fn abstract_address_must_fit() {
    let longest = "x".repeat(SUN_PATH_LEN - 1);
    assert_eq!(abstract_socket_address(&longest).unwrap().len(), SUN_PATH_LEN);
    let too_long = "x".repeat(SUN_PATH_LEN);
    assert!(matches!(abstract_socket_address(&too_long), Err(GuiError::SocketBind(_))));
}

#[test]
fn listener_backlog_is_one() {
    assert_eq!(LISTEN_BACKLOG, 1);
}

#[test]
fn rendezvous_takes_only_first_connection() {
    let mut r = Rendezvous::new();
    assert_eq!(r.state(), ListenerState::Listening);
    assert!(r.offer());
    assert_eq!(r.state(), ListenerState::Connected);
    assert!(!r.offer());
    assert!(!r.offer());
    assert_eq!(r.state(), ListenerState::Connected);
}

#[test]
fn replies_pair_with_requests_in_order() {
    let mut c = CommandChannel::new();
    c.begin_call(&msg("A")).unwrap();
    assert!(c.is_awaiting());
    assert_eq!(c.reply(JsonValue::Int(1)).unwrap(), JsonValue::Int(1));
    assert!(!c.is_awaiting());
    c.begin_call(&msg("B")).unwrap();
    assert_eq!(c.reply(JsonValue::Int(2)).unwrap(), JsonValue::Int(2));
}

#[test]
fn overlapping_calls_are_refused() {
    let mut c = CommandChannel::new();
    c.begin_call(&msg("A")).unwrap();
    assert!(matches!(c.begin_call(&msg("B")), Err(GuiError::InvalidOperation(_))));
    assert!(matches!(c.call(&msg("C")), Err(GuiError::InvalidOperation(_))));
    assert!(c.is_awaiting());
    assert_eq!(c.reply(JsonValue::Bool(true)).unwrap(), JsonValue::Bool(true));
}

#[test]
fn unsolicited_reply_is_refused() {
    let mut c = CommandChannel::new();
    assert!(matches!(c.reply(JsonValue::Null), Err(GuiError::InvalidOperation(_))));
    c.call(&msg("A")).unwrap();
    assert!(!c.is_awaiting());
    assert!(matches!(c.reply(JsonValue::Null), Err(GuiError::InvalidOperation(_))));
}
