//! The one-shot listener that learns that the user has come back from the
//! consent page.
//!
//! The listener owns no socket. The thread that does owns one reports what
//! happened to it, and is told what to do next.

use vstd::prelude::*;
use vstd::string::*;

verus! {

/// The page shown to the user once the redirect has arrived.
pub const CONFIRMATION_RESPONSE: &'static str =
    "HTTP/1.1 200 OK\r\nContent-Type: text/html; charset=UTF-8\r\n\r\n<html><body>Close this window</body></html>\r\n";

/// Where a listener stands.
#[derive(Clone, Copy, Debug, PartialEq, Eq, Structural)]
pub enum ListenerState {
    /// Not bound yet.
    Idle,
    /// Bound, and no connection has been accepted.
    Listening,
    /// The one connection has been accepted and awaits its reply.
    Captured,
    /// The reply is written and the address is released.
    Stopped,
}

/// What the thread that owns the socket reports.
#[derive(Clone, Copy, Debug, PartialEq, Eq, Structural)]
pub enum ListenerEvent {
    /// The address was bound.
    Bound,
    /// The address could not be bound.
    BindFailed,
    /// A connection was accepted.
    Accepted,
    /// Accepting a connection failed.
    AcceptFailed,
    /// The accepted connection was read and answered.
    Replied,
}

/// What the thread that owns the socket does next.
#[derive(Clone, Copy, Debug, PartialEq, Eq, Structural)]
pub enum ListenerAction {
    /// Wait for the next connection.
    Accept,
    /// Read the request and answer it with the confirmation page.
    Reply,
    /// Release the address: the listener is done.
    Release,
    /// Give up: the address belongs to someone else.
    Fail,
    /// Nothing: the report does not fit the state.
    Ignore,
}

/// The state that follows `state` on `event`.
pub open spec fn next_state(state: ListenerState, event: ListenerEvent) -> ListenerState {
    match (state, event) {
        (ListenerState::Idle, ListenerEvent::Bound) => ListenerState::Listening,
        (ListenerState::Listening, ListenerEvent::Accepted) => ListenerState::Captured,
        (ListenerState::Captured, ListenerEvent::Replied) => ListenerState::Stopped,
        _ => state,
    }
}

/// What is to be done when `event` is reported in `state`.
pub open spec fn action_for(state: ListenerState, event: ListenerEvent) -> ListenerAction {
    match (state, event) {
        (ListenerState::Idle, ListenerEvent::Bound) => ListenerAction::Accept,
        (ListenerState::Idle, ListenerEvent::BindFailed) => ListenerAction::Fail,
        (ListenerState::Listening, ListenerEvent::Accepted) => ListenerAction::Reply,
        (ListenerState::Listening, ListenerEvent::AcceptFailed) => ListenerAction::Accept,
        (ListenerState::Captured, ListenerEvent::Replied) => ListenerAction::Release,
        _ => ListenerAction::Ignore,
    }
}

/// The state reached from `state` by the reports `events`, in order.
pub open spec fn run(state: ListenerState, events: Seq<ListenerEvent>) -> ListenerState
    decreases events.len(),
{
    if events.len() == 0 {
        state
    } else {
        run(next_state(state, events[0]), events.drop_first())
    }
}

/// How many connections are answered while `events` are reported from `state` on.
pub open spec fn replies(state: ListenerState, events: Seq<ListenerEvent>) -> nat
    decreases events.len(),
{
    if events.len() == 0 {
        0
    } else {
        let here: nat = if action_for(state, events[0]) == ListenerAction::Reply {
            1
        } else {
            0
        };
        here + replies(next_state(state, events[0]), events.drop_first())
    }
}

/// Whether a listener in `state` has accepted its connection.
pub open spec fn captured(state: ListenerState) -> bool {
    state == ListenerState::Captured || state == ListenerState::Stopped
}

/// A one-shot listener.
#[derive(Debug)]
pub struct CallbackListener {
    state: ListenerState,
}

impl CallbackListener {
    /// Where the listener stands.
    pub closed spec fn view(&self) -> ListenerState {
        self.state
    }

    /// A listener that is not bound yet.
    pub fn new() -> (listener: Self)
        ensures
            listener@ == ListenerState::Idle,
    {
        CallbackListener { state: ListenerState::Idle }
    }

    /// Where the listener stands.
    pub fn state(&self) -> (state: ListenerState)
        ensures
            state == self@,
    {
        self.state
    }

    /// Whether the one connection has been accepted.
    pub fn has_captured(&self) -> (yes: bool)
        ensures
            yes == captured(self@),
    {
        match self.state {
            ListenerState::Captured => true,
            ListenerState::Stopped => true,
            _ => false,
        }
    }

    /// Takes a report and says what to do next.
    ///
    /// A failed accept leaves the listener listening; the first accepted
    /// connection is the only one that is answered; a report that does not
    /// fit the state changes nothing.
    pub fn step(&mut self, event: ListenerEvent) -> (action: ListenerAction)
        ensures
            final(self)@ == next_state(old(self)@, event),
            action == action_for(old(self)@, event),
    {
        match (self.state, event) {
            (ListenerState::Idle, ListenerEvent::Bound) => {
                self.state = ListenerState::Listening;
                ListenerAction::Accept
            },
            (ListenerState::Idle, ListenerEvent::BindFailed) => ListenerAction::Fail,
            (ListenerState::Listening, ListenerEvent::Accepted) => {
                self.state = ListenerState::Captured;
                ListenerAction::Reply
            },
            (ListenerState::Listening, ListenerEvent::AcceptFailed) => ListenerAction::Accept,
            (ListenerState::Captured, ListenerEvent::Replied) => {
                self.state = ListenerState::Stopped;
                ListenerAction::Release
            },
            _ => ListenerAction::Ignore,
        }
    }
}

/// Answers the connection that was accepted.
///
/// What the browser sent is of no interest: the redirect only signals that
/// the user has returned. The answer is always the confirmation page.
pub fn handler(_request: &[u8]) -> (response: Vec<u8>)
    ensures
        response@ == CONFIRMATION_RESPONSE.spec_bytes(),
{
    CONFIRMATION_RESPONSE.as_bytes_vec()
}

/// A listener answers at most one connection, whatever is reported to it.
pub proof fn lemma_at_most_one_reply(state: ListenerState, events: Seq<ListenerEvent>)
    ensures
        replies(state, events) <= 1,
        captured(state) ==> replies(state, events) == 0,
    decreases events.len(),
{
    if events.len() > 0 {
        lemma_at_most_one_reply(next_state(state, events[0]), events.drop_first());
    }
}

/// A listener that has stopped stays stopped.
pub proof fn lemma_stopped_is_final(events: Seq<ListenerEvent>)
    ensures
        run(ListenerState::Stopped, events) == ListenerState::Stopped,
    decreases events.len(),
{
    if events.len() > 0 {
        lemma_stopped_is_final(events.drop_first());
    }
}

/// A listener that started idle has captured only if a connection was
/// accepted, and has then answered exactly as many as it has released.
pub proof fn lemma_capture_needs_connection(state: ListenerState, events: Seq<ListenerEvent>)
    requires
        !captured(state),
        captured(run(state, events)),
    ensures
        events.contains(ListenerEvent::Accepted),
        replies(state, events) == 1,
    decreases events.len(),
{
    if events.len() > 0 {
        let next = next_state(state, events[0]);
        let rest = events.drop_first();
        if captured(next) {
            assert(events[0] == ListenerEvent::Accepted);
            lemma_at_most_one_reply(next, rest);
        } else {
            lemma_capture_needs_connection(next, rest);
            let i = choose|i: int| 0 <= i < rest.len() && rest[i] == ListenerEvent::Accepted;
            assert(events[i + 1] == ListenerEvent::Accepted);
        }
    }
}

} // verus!
