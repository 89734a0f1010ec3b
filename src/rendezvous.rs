//! Private listening endpoints in the kernel's abstract socket namespace,
//! each of which takes exactly one peer.
use vstd::prelude::*;
use crate::error::GuiError;
use vstd::string::StringSliceAdditionalSpecFns;

verus! {

/// The size of a local socket address's path field.
pub const SUN_PATH_LEN: usize = 108;

/// How many pending connections a listening endpoint queues: one peer only.
pub const LISTEN_BACKLOG: i32 = 1;

/// The path bytes that name `name` in the abstract namespace: a zero byte,
/// then the name.
pub open spec fn abstract_path(name: &str) -> Seq<u8> {
    seq![0u8] + name.spec_bytes()
}

/// The path of the abstract address named `name`, or `SocketBind` where it
/// does not fit in a socket address.
pub fn abstract_socket_address(name: &str) -> (r: Result<Vec<u8>, GuiError>)
    ensures
        r is Ok <==> abstract_path(name).len() <= SUN_PATH_LEN,
        r is Ok ==> r->Ok_0@ == abstract_path(name),
        r is Err ==> r->Err_0 is SocketBind,
{
    let bytes = name.as_bytes();
    if bytes.len() >= SUN_PATH_LEN {
        return Err(GuiError::SocketBind(name.to_owned()));
    }
    let mut path: Vec<u8> = Vec::new();
    path.push(0u8);
    let mut i: usize = 0;
    while i < bytes.len()
        invariant
            i <= bytes@.len(),
            bytes@ == name.spec_bytes(),
            path@ == seq![0u8] + bytes@.subrange(0, i as int),
        decreases bytes@.len() - i,
    {
        path.push(bytes[i]);
        i += 1;
        assert(bytes@.subrange(0, i as int) =~= bytes@.subrange(0, i - 1) + seq![bytes@[i - 1]]);
    }
    assert(bytes@.subrange(0, bytes@.len() as int) =~= bytes@);
    Ok(path)
}

/// Whether a listening endpoint still waits for its peer.
#[derive(Debug, Clone, Copy, PartialEq, Eq, Structural)]
pub enum ListenerState {
    Listening,
    Connected,
}

/// The state after a connection attempt, and whether the attempt was taken.
pub open spec fn offer_spec(s: ListenerState) -> (ListenerState, bool) {
    (ListenerState::Connected, s == ListenerState::Listening)
}

/// How many of `k` successive connection attempts, from state `s`, are taken.
pub open spec fn taken_count(s: ListenerState, k: nat) -> nat
    decreases k,
{
    if k == 0 {
        0
    } else {
        (if offer_spec(s).1 { 1nat } else { 0nat }) + taken_count(offer_spec(s).0, (k - 1) as nat)
    }
}

/// A single-shot rendezvous: the first connection is the session's stream;
/// every later attempt on the same address is refused.
pub struct Rendezvous {
    state: ListenerState,
}

impl Rendezvous {
    pub closed spec fn spec_state(&self) -> ListenerState {
        self.state
    }

    /// A rendezvous whose endpoint waits for its peer.
    pub fn new() -> (r: Rendezvous)
        ensures
            r.spec_state() == ListenerState::Listening,
    {
        Rendezvous { state: ListenerState::Listening }
    }

    pub fn state(&self) -> (r: ListenerState)
        ensures
            r == self.spec_state(),
    {
        self.state
    }

    /// A peer connected. Returns whether its stream is taken; only the first
    /// one is, and the endpoint is done afterwards.
    pub fn offer(&mut self) -> (taken: bool)
        ensures
            (final(self).spec_state(), taken) == offer_spec(old(self).spec_state()),
    {
        let taken = self.state == ListenerState::Listening;
        self.state = ListenerState::Connected;
        taken
    }
}

/// Once a rendezvous has taken a connection, it takes no other: of any
/// number of attempts on a fresh endpoint at most the first is taken, and
/// after it every attempt is refused.
pub proof fn lemma_single_shot(k: nat)
    ensures
        taken_count(ListenerState::Listening, k) == (if k == 0 { 0nat } else { 1nat }),
        taken_count(ListenerState::Connected, k) == 0,
    decreases k,
{
    if k > 0 {
        lemma_single_shot((k - 1) as nat);
    }
}

} // verus!
