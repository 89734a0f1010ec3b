//! The errors of the library.
use vstd::prelude::*;
use crate::frame::ShortRead;

verus! {

/// What can go wrong while setting up or using a session.
#[derive(Debug)]
pub enum GuiError {
    /// The underlying stream failed (peer closed, OS error).
    Io(String),
    /// A frame's body is not well-formed structured data.
    Json(String),
    /// A stream ended inside a frame.
    ShortRead(ShortRead),
    /// The host answered the handshake with this byte instead of "accepted".
    ProtocolVersionMismatch(u8),
    /// A listening endpoint could not be created.
    SocketBind(String),
    /// Neither activation command reached the host.
    ConnectionFailed,
    /// A well-formed reply without the shape the method expects.
    InvalidResponse(String),
    /// The host knows no view with this id.
    ViewNotFound(i64),
    /// An operation that the session's current state does not allow.
    InvalidOperation(String),
    /// An event that could not be handled.
    EventError(String),
}

} // verus!
