//! The rules of the front end's command layer: a session is opened at most
//! once, commands reach the worker only while a session is open, and a
//! one-shot read that got no value is an error.
use vstd::prelude::*;

verus! {

/// Why the command layer refuses a request.
#[derive(Debug, Clone, Copy, PartialEq, Eq, Structural)]
pub enum BridgeError {
    /// A session is open already.
    AlreadyConnected,
    /// No session is open.
    NotConnected,
    /// The worker answered a one-shot read without a value.
    NoValueReceived,
}

/// The message that the front end shows for `e`.
pub open spec fn error_message(e: BridgeError) -> Seq<char> {
    match e {
        BridgeError::AlreadyConnected => "Already connected"@,
        BridgeError::NotConnected => "SimConnect not connected"@,
        BridgeError::NoValueReceived => "No value received"@,
    }
}

impl BridgeError {
    /// The message that the front end shows for this error.
    pub fn message(&self) -> (text: String)
        ensures
            text@ == error_message(*self),
    {
        match self {
            BridgeError::AlreadyConnected => String::from_str("Already connected"),
            BridgeError::NotConnected => String::from_str("SimConnect not connected"),
            BridgeError::NoValueReceived => String::from_str("No value received"),
        }
    }
}

/// What a request to open a session gets when the session holds `link`.
pub open spec fn connect_result<L>(link: Option<L>) -> Result<(), BridgeError> {
    match link {
        Some(_) => Err(BridgeError::AlreadyConnected),
        None => Ok(()),
    }
}

/// What a command for the worker gets when the session holds `link`: the
/// link to send it on, or a refusal.
pub open spec fn route_result<L>(link: Option<L>) -> Result<L, BridgeError> {
    match link {
        Some(l) => Ok(l),
        None => Err(BridgeError::NotConnected),
    }
}

/// The front end's handle on the worker: `link` is the channel to the worker
/// while a session is open.
pub struct Session<L> {
    link: Option<L>,
}

impl<L> View for Session<L> {
    type V = Option<L>;

    closed spec fn view(&self) -> Option<L> {
        self.link
    }
}

impl<L> Session<L> {
    /// A session that is not open.
    pub fn new() -> (session: Self)
        ensures
            session@ is None,
    {
        Session { link: None }
    }

    /// Whether a session is open.
    pub fn is_connected(&self) -> (open: bool)
        ensures
            open == self@ is Some,
    {
        self.link.is_some()
    }

    /// Whether a session may be opened: refused while one is open.
    pub fn check_connect(&self) -> (result: Result<(), BridgeError>)
        ensures
            result == connect_result(self@),
    {
        match &self.link {
            Some(_) => Err(BridgeError::AlreadyConnected),
            None => Ok(()),
        }
    }

    /// Records the link to a worker that was just started.
    pub fn attach(&mut self, link: L)
        requires
            old(self)@ is None,
        ensures
            final(self)@ == Some(link),
    {
        self.link = Some(link);
    }

    /// Closes the session; returns the link to the worker it had, which is
    /// to be told to disconnect.
    pub fn detach(&mut self) -> (link: Option<L>)
        ensures
            link == old(self)@,
            final(self)@ is None,
    {
        self.link.take()
    }

    /// The link that a command for the worker goes on; refused when no
    /// session is open.
    pub fn route(&self) -> (result: Result<&L, BridgeError>)
        ensures
            match result {
                Ok(l) => route_result(self@) == Ok::<L, BridgeError>(*l),
                Err(e) => route_result(self@) == Err::<L, BridgeError>(e),
            },
    {
        match &self.link {
            Some(l) => Ok(l),
            None => Err(BridgeError::NotConnected),
        }
    }
}

/// The answer to a one-shot read: the value, or an error when the worker
/// had none.
pub fn expect_value<V>(reply: Option<V>) -> (result: Result<V, BridgeError>)
    ensures
        match reply {
            Some(v) => result == Ok::<V, BridgeError>(v),
            None => result == Err::<V, BridgeError>(BridgeError::NoValueReceived),
        },
{
    match reply {
        Some(v) => Ok(v),
        None => Err(BridgeError::NoValueReceived),
    }
}

/// A session is open exactly when opening another is refused, and exactly
/// then commands reach the worker.
pub proof fn lemma_open_exactly_when_routed<L>(link: Option<L>)
    ensures
        connect_result(link) is Err <==> route_result(link) is Ok,
        connect_result(link) is Err ==> connect_result(link) == Err::<(), BridgeError>(BridgeError::AlreadyConnected),
        route_result(link) is Err ==> route_result(link) == Err::<L, BridgeError>(BridgeError::NotConnected),
{
}

/// One thing the front end does to its session.  Nothing else touches it:
/// in particular the worker ending on its own (the simulator quitting, or the
/// session failing to open) leaves the session as it was.
pub enum SessionOp<L> {
    /// Open a session: `check_connect`, and `attach` the new worker's link
    /// when that succeeds.
    Connect(L),
    /// Close the session: `detach`.
    Disconnect,
    /// Any command for the worker: `route`, which changes nothing.
    Command,
}

/// The session's link after `op`, by the contracts of the functions it calls.
pub open spec fn session_step<L>(link: Option<L>, op: SessionOp<L>) -> Option<L> {
    match op {
        SessionOp::Connect(l) => match connect_result(link) {
            Ok(_) => Some(l),
            Err(_) => link,
        },
        SessionOp::Disconnect => None,
        SessionOp::Command => link,
    }
}

/// The session's link after `ops`, starting from `start`.
pub open spec fn session_after<L>(start: Option<L>, ops: Seq<SessionOp<L>>) -> Option<L>
    decreases ops.len(),
{
    if ops.len() == 0 {
        start
    } else {
        session_step(session_after(start, ops.drop_last()), ops.last())
    }
}

/// Some request to open a session came after the last request to close one.
pub open spec fn connected_since_last_disconnect<L>(ops: Seq<SessionOp<L>>) -> bool {
    exists|i: int|
        0 <= i < ops.len() && #[trigger] ops[i] is Connect && forall|j: int|
            i < j < ops.len() ==> !(#[trigger] ops[j] is Disconnect)
}

/// Starting from no session, after any sequence of operations the session is
/// open exactly when a connect came after the last disconnect; then a further
/// connect is refused with `AlreadyConnected` and commands reach the worker,
/// and otherwise a connect succeeds and commands are refused with
/// `NotConnected`.
pub proof fn lemma_session_open_since_last_disconnect<L>(ops: Seq<SessionOp<L>>)
    ensures
        session_after(None, ops) is Some <==> connected_since_last_disconnect(ops),
        connect_result(session_after(None, ops)) == (if connected_since_last_disconnect(ops) {
            Err::<(), BridgeError>(BridgeError::AlreadyConnected)
        } else {
            Ok::<(), BridgeError>(())
        }),
        route_result(session_after(None, ops)) is Ok <==> connected_since_last_disconnect(ops),
        !connected_since_last_disconnect(ops) ==> route_result(session_after(None, ops))
            == Err::<L, BridgeError>(BridgeError::NotConnected),
    decreases ops.len(),
{
    if ops.len() > 0 {
        let prefix = ops.drop_last();
        let n = ops.len() - 1;
        lemma_session_open_since_last_disconnect(prefix);
        match ops.last() {
            SessionOp::Connect(_) => {
                assert(ops[n] is Connect);
                assert(forall|j: int| n < j < ops.len() ==> !(#[trigger] ops[j] is Disconnect));
            },
            SessionOp::Disconnect => {
                if connected_since_last_disconnect(ops) {
                    let i = choose|i: int|
                        0 <= i < ops.len() && #[trigger] ops[i] is Connect && forall|j: int|
                            i < j < ops.len() ==> !(#[trigger] ops[j] is Disconnect);
                    assert(ops[n] is Disconnect);
                }
            },
            SessionOp::Command => {
                if connected_since_last_disconnect(ops) {
                    let i = choose|i: int|
                        0 <= i < ops.len() && #[trigger] ops[i] is Connect && forall|j: int|
                            i < j < ops.len() ==> !(#[trigger] ops[j] is Disconnect);
                    assert(i != n);
                    assert(prefix[i] is Connect);
                    assert forall|j: int| i < j < prefix.len() implies !(#[trigger] prefix[j] is Disconnect) by {
                        assert(prefix[j] == ops[j]);
                    }
                }
                if connected_since_last_disconnect(prefix) {
                    let i = choose|i: int|
                        0 <= i < prefix.len() && #[trigger] prefix[i] is Connect && forall|j: int|
                            i < j < prefix.len() ==> !(#[trigger] prefix[j] is Disconnect);
                    assert(ops[i] is Connect);
                    assert forall|j: int| i < j < ops.len() implies !(#[trigger] ops[j] is Disconnect) by {
                        if j < n {
                            assert(prefix[j] == ops[j]);
                        }
                    }
                }
            },
        }
    }
}

} // verus!
