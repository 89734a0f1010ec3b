//! The command channel's request/response discipline: strictly half-duplex,
//! so every reply belongs to the one request that awaits it.
use vstd::prelude::*;
use crate::error::GuiError;
use crate::json::{Json, JsonValue};

verus! {

/// The channel in mathematical form: the request that awaits its reply, if
/// any; every request written, in order; and every request paired with its
/// reply, in order.
pub struct ChannelView {
    pub awaiting: Option<Json>,
    pub sent: Seq<Json>,
    pub exchanges: Seq<(Json, Json)>,
}

/// A request written with no reply expected.
pub open spec fn call_spec(c: ChannelView, msg: Json) -> ChannelView {
    ChannelView { awaiting: None, sent: c.sent.push(msg), exchanges: c.exchanges }
}

/// A request written that awaits its reply.
pub open spec fn begin_spec(c: ChannelView, msg: Json) -> ChannelView {
    ChannelView { awaiting: Some(msg), sent: c.sent.push(msg), exchanges: c.exchanges }
}

/// The reply read for the awaiting request.
pub open spec fn reply_spec(c: ChannelView, reply: Json) -> ChannelView {
    ChannelView {
        awaiting: None,
        sent: c.sent,
        exchanges: c.exchanges.push((c.awaiting->Some_0, reply)),
    }
}

/// The command channel's bookkeeping.
pub struct CommandChannel {
    awaiting: bool,
    pending: Ghost<Json>,
    sent: Ghost<Seq<Json>>,
    exchanges: Ghost<Seq<(Json, Json)>>,
}

impl View for CommandChannel {
    type V = ChannelView;

    closed spec fn view(&self) -> ChannelView {
        ChannelView {
            awaiting: if self.awaiting {
                Some(self.pending@)
            } else {
                None
            },
            sent: self.sent@,
            exchanges: self.exchanges@,
        }
    }
}

impl CommandChannel {
    /// A channel on which nothing was written yet.
    pub fn new() -> (r: CommandChannel)
        ensures
            r@ == (ChannelView { awaiting: None, sent: Seq::empty(), exchanges: Seq::empty() }),
    {
        CommandChannel {
            awaiting: false,
            pending: Ghost(Json::Null),
            sent: Ghost(Seq::empty()),
            exchanges: Ghost(Seq::empty()),
        }
    }

    /// Whether a request awaits its reply.
    pub fn is_awaiting(&self) -> (r: bool)
        ensures
            r == self@.awaiting is Some,
    {
        self.awaiting
    }

    /// Records a request written with no reply expected. Refused while a
    /// reply is awaited: requests never overlap.
    pub fn call(&mut self, msg: &JsonValue) -> (r: Result<(), GuiError>)
        ensures
            r is Ok <==> old(self)@.awaiting is None,
            r is Ok ==> final(self)@ == call_spec(old(self)@, msg@),
            r is Err ==> r->Err_0 is InvalidOperation && final(self)@ == old(self)@,
    {
        if self.awaiting {
            return Err(GuiError::InvalidOperation("a reply is still awaited".to_owned()));
        }
        self.sent = Ghost(self.sent@.push(msg@));
        Ok(())
    }

    /// Records a request written that awaits its reply. Refused while
    /// another reply is awaited.
    pub fn begin_call(&mut self, msg: &JsonValue) -> (r: Result<(), GuiError>)
        ensures
            r is Ok <==> old(self)@.awaiting is None,
            r is Ok ==> final(self)@ == begin_spec(old(self)@, msg@),
            r is Err ==> r->Err_0 is InvalidOperation && final(self)@ == old(self)@,
    {
        if self.awaiting {
            return Err(GuiError::InvalidOperation("a reply is still awaited".to_owned()));
        }
        self.awaiting = true;
        self.pending = Ghost(msg@);
        self.sent = Ghost(self.sent@.push(msg@));
        Ok(())
    }

    /// Takes the reply read from the stream: it answers the awaiting
    /// request, and is handed back unchanged. A reply that no request awaits
    /// is refused.
    pub fn reply(&mut self, reply: JsonValue) -> (r: Result<JsonValue, GuiError>)
        ensures
            r is Ok <==> old(self)@.awaiting is Some,
            r is Ok ==> r->Ok_0 == reply && final(self)@ == reply_spec(old(self)@, reply@),
            r is Err ==> r->Err_0 is InvalidOperation && final(self)@ == old(self)@,
    {
        if !self.awaiting {
            return Err(GuiError::InvalidOperation("no request awaits a reply".to_owned()));
        }
        self.awaiting = false;
        self.exchanges = Ghost(self.exchanges@.push((self.pending@, reply@)));
        Ok(reply)
    }
}

/// Two calls that each wait for their reply, one after the other, pair each
/// request with the reply read right after it, in order, with no cross-talk;
/// and the second request cannot be written while the first awaits.
pub proof fn lemma_fifo_pairing(c: ChannelView, a: Json, ra: Json, b: Json, rb: Json)
    requires
        c.awaiting is None,
    ensures
        begin_spec(c, a).awaiting is Some,
        ({
            let c2 = reply_spec(begin_spec(c, a), ra);
            let c4 = reply_spec(begin_spec(c2, b), rb);
            &&& c2.awaiting is None
            &&& c2.exchanges == c.exchanges.push((a, ra))
            &&& c4.awaiting is None
            &&& c4.exchanges == c.exchanges + seq![(a, ra), (b, rb)]
            &&& c4.sent == c.sent + seq![a, b]
        }),
{
    let c2 = reply_spec(begin_spec(c, a), ra);
    let c4 = reply_spec(begin_spec(c2, b), rb);
    assert(c4.exchanges =~= c.exchanges + seq![(a, ra), (b, rb)]);
    assert(c4.sent =~= c.sent + seq![a, b]);
}

} // verus!
