//! Client side of a two-channel local-socket GUI protocol: the framing
//! codec, the session and rendezvous state machines, the command
//! dispatcher, and the request builders and reply decoders of the widgets.
//!
//! The library performs no I/O. A program drives it: it binds the two
//! endpoints that `Session` names, runs the activation command that
//! `Session::activation_args` spells out, accepts one peer per endpoint,
//! and feeds the host's handshake byte back to `Session::handshake_reply`.
//! Afterwards every widget method returns a `Call`; the program frames its
//! message with `frame::encode_frame`, writes it, and where `Call::wait`
//! says so reads one frame back (`frame::bytes_needed`,
//! `frame::decode_frame`) and hands the reply to `CommandChannel::reply` and
//! to the widget's reader (`from_reply`, `text_from_reply`, ...).
pub mod error;
pub mod frame;
pub mod json;
pub mod token;
pub mod session;
pub mod rendezvous;
pub mod dispatch;
pub mod call;
pub mod view;
pub mod activity;
pub mod components;

pub use activity::Activity;
pub use call::Call;
pub use components::{
    Button, Checkbox, EditText, FrameLayout, GridLayout, HorizontalScrollView, ImageView,
    LinearLayout, NestedScrollView, ProgressBar, RadioButton, RadioGroup, Space, Spinner,
    SwipeRefreshLayout, Switch, TabLayout, TextView, ToggleButton, WebView,
};
pub use error::GuiError;
pub use json::JsonValue;
pub use view::{View, MATCH_PARENT, WRAP_CONTENT};
