//! The lifecycle of a session: rendezvous names, the activation fallback,
//! the one-byte version handshake, and teardown.
use vstd::prelude::*;
use crate::error::GuiError;
use crate::frame::ShortRead;
use crate::json::{json_get, Json, JsonValue};
use crate::token::{generate_random_address, is_token};

verus! {

/// The protocol version the client offers in the handshake.
pub const PROTOCOL_VERSION: u8 = 1;

/// The byte with which the host accepts the offered version.
pub const VERSION_ACCEPTED: u8 = 0;

/// Where a session stands.
#[derive(Debug, Clone, Copy, PartialEq, Eq, Structural)]
pub enum SessionState {
    /// Names drawn; nothing bound yet.
    Uninitialized,
    /// Both endpoints listen; the host has not connected yet.
    AwaitingPeer,
    /// The host connected to both endpoints; the handshake is due.
    AwaitingHandshake,
    /// The handshake succeeded: commands and events flow.
    Established,
    /// Setup failed; terminal.
    Failed,
    /// The caller ended the session; terminal.
    Closed,
    /// A stream closed unexpectedly; terminal.
    Broken,
}

/// The two commands that can wake the host, tried in this order.
#[derive(Debug, Clone, Copy, PartialEq, Eq, Structural)]
pub enum Launcher {
    Primary,
    Fallback,
}

/// How running an activation command went.
#[derive(Debug, Clone, Copy, PartialEq, Eq, Structural)]
pub enum CommandOutcome {
    /// The command could not be started (it is absent).
    Missing,
    /// The command ran and exited with a failure status.
    Failed,
    /// The command ran and exited successfully.
    Succeeded,
}

/// What to do after an activation command ran.
#[derive(Debug, Clone, Copy, PartialEq, Eq, Structural)]
pub enum ActivationStep {
    /// Run the fallback command.
    TryFallback,
    /// Wait for the host to connect to both endpoints.
    AwaitPeers,
}

/// Whether `event` is `{"type": "destroy", ...}`: the host ended the window.
pub open spec fn is_destroy(event: Json) -> bool {
    json_get(event, "type"@) == Some(Json::Str("destroy"@))
}

/// One session with the host: the names of its two endpoints and its state.
pub struct Session {
    state: SessionState,
    main_token: String,
    event_token: String,
    teardown: bool,
}

impl Session {
    pub closed spec fn spec_state(&self) -> SessionState {
        self.state
    }

    pub closed spec fn spec_main_token(&self) -> Seq<char> {
        self.main_token@
    }

    pub closed spec fn spec_event_token(&self) -> Seq<char> {
        self.event_token@
    }

    pub closed spec fn spec_teardown(&self) -> bool {
        self.teardown
    }

    /// A new session with two freshly drawn endpoint names.
    pub fn new() -> (r: Session)
        ensures
            r.spec_state() == SessionState::Uninitialized,
            is_token(r.spec_main_token()),
            is_token(r.spec_event_token()),
            !r.spec_teardown(),
    {
        let main_token = generate_random_address();
        let event_token = generate_random_address();
        Session { state: SessionState::Uninitialized, main_token, event_token, teardown: false }
    }

    pub fn state(&self) -> (r: SessionState)
        ensures
            r == self.spec_state(),
    {
        self.state
    }

    /// The name of the command endpoint.
    pub fn main_token(&self) -> (r: &str)
        ensures
            r@ == self.spec_main_token(),
    {
        self.main_token.as_str()
    }

    /// The name of the event endpoint.
    pub fn event_token(&self) -> (r: &str)
        ensures
            r@ == self.spec_event_token(),
    {
        self.event_token.as_str()
    }

    /// Whether the host signalled that the window ended.
    pub fn teardown_requested(&self) -> (r: bool)
        ensures
            r == self.spec_teardown(),
    {
        self.teardown
    }

    /// Both endpoints listen now.
    pub fn listeners_bound(&mut self) -> (r: Result<(), GuiError>)
        ensures
            r is Ok <==> old(self).spec_state() == SessionState::Uninitialized,
            r is Ok ==> final(self).spec_state() == SessionState::AwaitingPeer,
            r is Err ==> r->Err_0 is InvalidOperation && final(self).spec_state() == old(self).spec_state(),
            final(self).spec_main_token() == old(self).spec_main_token(),
            final(self).spec_event_token() == old(self).spec_event_token(),
            final(self).spec_teardown() == old(self).spec_teardown(),
    {
        if self.state == SessionState::Uninitialized {
            self.state = SessionState::AwaitingPeer;
            Ok(())
        } else {
            Err(GuiError::InvalidOperation("listeners already bound".to_owned()))
        }
    }

    /// The arguments of the activation command: a broadcast to the host's
    /// receiver that names both endpoints.
    pub fn activation_args(&self) -> (r: Vec<String>)
        ensures
            r@.len() == 9,
            r@[0]@ == "broadcast"@,
            r@[1]@ == "-n"@,
            r@[2]@ == "com.termux.gui/.GUIReceiver"@,
            r@[3]@ == "--es"@,
            r@[4]@ == "mainSocket"@,
            r@[5]@ == self.spec_main_token(),
            r@[6]@ == "--es"@,
            r@[7]@ == "eventSocket"@,
            r@[8]@ == self.spec_event_token(),
    {
        let mut r: Vec<String> = Vec::new();
        r.push("broadcast".to_owned());
        r.push("-n".to_owned());
        r.push("com.termux.gui/.GUIReceiver".to_owned());
        r.push("--es".to_owned());
        r.push("mainSocket".to_owned());
        r.push(self.main_token.clone());
        r.push("--es".to_owned());
        r.push("eventSocket".to_owned());
        r.push(self.event_token.clone());
        r
    }

    /// The program an activation attempt runs.
    pub fn activation_program(launcher: Launcher) -> (r: &'static str)
        ensures
            launcher == Launcher::Primary ==> r@ == "termux-am"@,
            launcher == Launcher::Fallback ==> r@ == "am"@,
    {
        match launcher {
            Launcher::Primary => "termux-am",
            Launcher::Fallback => "am",
        }
    }

    /// Decides what follows an activation attempt: a primary command that is
    /// absent or fails gives way to the fallback; a fallback that is absent
    /// or fails ends the session with `ConnectionFailed`.
    pub fn activation_result(&mut self, launcher: Launcher, outcome: CommandOutcome) -> (r: Result<
        ActivationStep,
        GuiError,
    >)
        ensures
            old(self).spec_state() != SessionState::AwaitingPeer ==> r is Err && r->Err_0 is InvalidOperation
                && final(self).spec_state() == old(self).spec_state(),
            old(self).spec_state() == SessionState::AwaitingPeer ==> {
                &&& outcome == CommandOutcome::Succeeded ==> r == Ok::<ActivationStep, GuiError>(
                    ActivationStep::AwaitPeers,
                ) && final(self).spec_state() == SessionState::AwaitingPeer
                &&& (outcome != CommandOutcome::Succeeded && launcher == Launcher::Primary) ==> r
                    == Ok::<ActivationStep, GuiError>(ActivationStep::TryFallback) && final(self).spec_state() == SessionState::AwaitingPeer
                &&& (outcome != CommandOutcome::Succeeded && launcher == Launcher::Fallback) ==> r
                    is Err && r->Err_0 is ConnectionFailed && final(self).spec_state()
                    == SessionState::Failed
            },
            final(self).spec_main_token() == old(self).spec_main_token(),
            final(self).spec_event_token() == old(self).spec_event_token(),
            final(self).spec_teardown() == old(self).spec_teardown(),
    {
        if self.state != SessionState::AwaitingPeer {
            return Err(GuiError::InvalidOperation("no activation is due".to_owned()));
        }
        match (outcome, launcher) {
            (CommandOutcome::Succeeded, _) => Ok(ActivationStep::AwaitPeers),
            (_, Launcher::Primary) => Ok(ActivationStep::TryFallback),
            (_, Launcher::Fallback) => {
                self.state = SessionState::Failed;
                Err(GuiError::ConnectionFailed)
            },
        }
    }

    /// The host connected to both endpoints.
    pub fn peers_accepted(&mut self) -> (r: Result<(), GuiError>)
        ensures
            r is Ok <==> old(self).spec_state() == SessionState::AwaitingPeer,
            r is Ok ==> final(self).spec_state() == SessionState::AwaitingHandshake,
            r is Err ==> r->Err_0 is InvalidOperation && final(self).spec_state() == old(self).spec_state(),
            final(self).spec_main_token() == old(self).spec_main_token(),
            final(self).spec_event_token() == old(self).spec_event_token(),
            final(self).spec_teardown() == old(self).spec_teardown(),
    {
        if self.state == SessionState::AwaitingPeer {
            self.state = SessionState::AwaitingHandshake;
            Ok(())
        } else {
            Err(GuiError::InvalidOperation("no connection is awaited".to_owned()))
        }
    }

    /// The byte the client writes on the command stream to open the handshake.
    pub fn handshake_request(&self) -> (r: u8)
        ensures
            r == PROTOCOL_VERSION,
    {
        PROTOCOL_VERSION
    }

    /// Takes the host's answer to the handshake: the byte it sent back, or
    /// `None` where the stream closed first. Only `VERSION_ACCEPTED`
    /// establishes the session; anything else fails it for good.
    pub fn handshake_reply(&mut self, reply: Option<u8>) -> (r: Result<(), GuiError>)
        ensures
            old(self).spec_state() != SessionState::AwaitingHandshake ==> r is Err && r->Err_0 is InvalidOperation
                && final(self).spec_state() == old(self).spec_state(),
            old(self).spec_state() == SessionState::AwaitingHandshake ==> {
                &&& r is Ok <==> reply == Some(VERSION_ACCEPTED)
                &&& r is Ok ==> final(self).spec_state() == SessionState::Established
                &&& r is Err ==> final(self).spec_state() == SessionState::Failed
                &&& reply is None ==> r == Err::<(), GuiError>(
                    GuiError::ShortRead(ShortRead { expected: 1, received: 0 }),
                )
                &&& (reply is Some && reply != Some(VERSION_ACCEPTED)) ==> r == Err::<(), GuiError>(
                    GuiError::ProtocolVersionMismatch(reply->Some_0),
                )
            },
            final(self).spec_main_token() == old(self).spec_main_token(),
            final(self).spec_event_token() == old(self).spec_event_token(),
            final(self).spec_teardown() == old(self).spec_teardown(),
    {
        if self.state != SessionState::AwaitingHandshake {
            return Err(GuiError::InvalidOperation("no handshake is due".to_owned()));
        }
        match reply {
            Some(b) => {
                if b == VERSION_ACCEPTED {
                    self.state = SessionState::Established;
                    Ok(())
                } else {
                    self.state = SessionState::Failed;
                    Err(GuiError::ProtocolVersionMismatch(b))
                }
            },
            None => {
                self.state = SessionState::Failed;
                Err(GuiError::ShortRead(ShortRead { expected: 1, received: 0 }))
            },
        }
    }

    /// The caller ends an established session.
    pub fn close(&mut self) -> (r: Result<(), GuiError>)
        ensures
            r is Ok <==> old(self).spec_state() == SessionState::Established,
            r is Ok ==> final(self).spec_state() == SessionState::Closed,
            r is Err ==> r->Err_0 is InvalidOperation && final(self).spec_state() == old(self).spec_state(),
            final(self).spec_main_token() == old(self).spec_main_token(),
            final(self).spec_event_token() == old(self).spec_event_token(),
            final(self).spec_teardown() == old(self).spec_teardown(),
    {
        if self.state == SessionState::Established {
            self.state = SessionState::Closed;
            Ok(())
        } else {
            Err(GuiError::InvalidOperation("session is not established".to_owned()))
        }
    }

    /// A stream of an established session closed or failed unexpectedly.
    pub fn stream_lost(&mut self) -> (r: Result<(), GuiError>)
        ensures
            r is Ok <==> old(self).spec_state() == SessionState::Established,
            r is Ok ==> final(self).spec_state() == SessionState::Broken,
            r is Err ==> r->Err_0 is InvalidOperation && final(self).spec_state() == old(self).spec_state(),
            final(self).spec_main_token() == old(self).spec_main_token(),
            final(self).spec_event_token() == old(self).spec_event_token(),
            final(self).spec_teardown() == old(self).spec_teardown(),
    {
        if self.state == SessionState::Established {
            self.state = SessionState::Broken;
            Ok(())
        } else {
            Err(GuiError::InvalidOperation("session is not established".to_owned()))
        }
    }

    /// Looks at an event from the event stream; a `destroy` event marks the
    /// session for teardown. Returns whether it was one.
    pub fn observe_event(&mut self, event: &JsonValue) -> (r: bool)
        ensures
            r == is_destroy(event@),
            final(self).spec_teardown() == (old(self).spec_teardown() || r),
            final(self).spec_state() == old(self).spec_state(),
            final(self).spec_main_token() == old(self).spec_main_token(),
            final(self).spec_event_token() == old(self).spec_event_token(),
    {
        let d = is_destroy_event(event);
        if d {
            self.teardown = true;
        }
        d
    }
}

/// Whether `event` is `{"type": "destroy", ...}`.
pub fn is_destroy_event(event: &JsonValue) -> (r: bool)
    ensures
        r == is_destroy(event@),
{
    match event.get("type") {
        Some(JsonValue::Str(s)) => {
            let d = "destroy".to_owned();
            *s == d
        },
        _ => false,
    }
}

} // verus!
