use vstd::prelude::*;

verus! {

/// The state of the websocket transport.
///
/// See `WebSocket.readyState` on MDN.
#[derive(Debug, Clone, Copy, PartialEq, Eq, Structural)]
pub enum State {
    /// The connection has not yet been established.
    Connecting,
    /// The connection is established and communication is possible.
    Open,
    /// The connection is going through the closing handshake, or close was invoked.
    Closing,
    /// The connection has been closed or could not be opened.
    Closed,
}

/// The two concerns that a poll services in turn.
#[derive(Debug, Clone, Copy, PartialEq, Eq, Structural)]
pub enum NextPoll {
    /// Inbound: the transport's stream of received messages.
    Socket,
    /// Outbound: the queue of messages waiting to be sent.
    Channel,
}

impl NextPoll {
    /// The other concern.
    pub open spec fn other(self) -> NextPoll {
        match self {
            NextPoll::Socket => NextPoll::Channel,
            NextPoll::Channel => NextPoll::Socket,
        }
    }

    /// The concern to service after this one.
    pub fn next(self) -> (r: NextPoll)
        ensures
            r == self.other(),
            r != self,
    {
        match self {
            NextPoll::Socket => NextPoll::Channel,
            NextPoll::Channel => NextPoll::Socket,
        }
    }

}

impl Default for NextPoll {
    /// A fresh engine services the inbound concern first.
    fn default() -> (r: NextPoll)
        ensures
            r == NextPoll::Socket,
    {
        NextPoll::Socket
    }
}

/// Alternation is an involution: going to the next concern twice returns to
/// the one started from, and never stays on the same concern.
pub proof fn lemma_next_alternates(c: NextPoll)
    ensures
        c.other() != c,
        c.other().other() == c,
{
}

} // verus!
