//! The login: request a code, send the user to the consent page, wait for
//! the redirect, exchange the code for an access token.
//!
//! `LoginSession` is what the foreground sees of a login; `LoginWorker` is
//! the state of the background work that one attempt starts. Neither makes a
//! call or blocks: each is told what happened and answers with what to do.

use crate::domain::repository::pocket::{StartLoginOutput, WaitLoginOutput};
use crate::error::SessionError;
use crate::repository::pocket::listener::{
    action_for, captured, lemma_capture_needs_connection, next_state, run, CallbackListener,
    ListenerAction, ListenerEvent, ListenerState,
};
use crate::repository::pocket::remote::{
    consent_url, consent_url_spec, exchange_call, exchange_call_spec, reply_member, reply_view,
    request_code_call, request_code_call_spec, string_of_reply, RemoteCall, RemoteCallView,
    ACCESS_TOKEN_KEY, REQUEST_CODE_KEY,
};
use crate::repository::pocket::token_store::TokenStore;
use vstd::prelude::*;

verus! {

/// The event announced to the presentation layer when a token was obtained.
pub const LOGIN_EVENT: &'static str = "login";

/// Where a login stands, as the presentation layer may be told.
#[derive(Clone, Copy, Debug, PartialEq, Eq, Structural)]
pub enum LoginPhase {
    /// No token is held and no login was started.
    NotStarted,
    /// A request code has been asked for.
    Requesting,
    /// The user has been sent to the consent page.
    AwaitingUserConsent,
    /// The user has returned; the code is being exchanged.
    Exchanging,
    /// A token is held.
    Ready,
    /// The last login failed.
    Failed,
}

/// One attempt to log in.
#[derive(Debug, PartialEq, Eq)]
pub struct LoginAttempt {
    pub request_code: String,
    pub consent_url: String,
}

/// A `LoginAttempt` as mathematical text.
pub struct LoginAttemptView {
    pub request_code: Seq<char>,
    pub consent_url: Seq<char>,
}

impl View for LoginAttempt {
    type V = LoginAttemptView;

    open spec fn view(&self) -> LoginAttemptView {
        LoginAttemptView { request_code: self.request_code@, consent_url: self.consent_url@ }
    }
}

impl Clone for LoginAttempt {
    fn clone(&self) -> (copy: Self)
        ensures
            copy@ == self@,
    {
        LoginAttempt {
            request_code: self.request_code.clone(),
            consent_url: self.consent_url.clone(),
        }
    }
}

/// The view of an attempt that may be absent.
pub open spec fn attempt_view(attempt: Option<LoginAttempt>) -> Option<LoginAttemptView> {
    match attempt {
        Some(a) => Some(a@),
        None => None,
    }
}

/// What a session remembers of its login.
#[derive(Debug, PartialEq, Eq)]
pub enum LoginState {
    /// Nothing is under way.
    Idle,
    /// A request code has been asked for. The attempt that was pending
    /// when it was asked for is kept, and with it whether the user has
    /// returned for that attempt.
    Requesting { kept: Option<LoginAttempt>, captured: bool },
    /// An attempt waits for the user.
    AwaitingUserConsent(LoginAttempt),
    /// The user has returned for this attempt; its code is being exchanged.
    Exchanging(LoginAttempt),
    /// The last attempt failed.
    Failed(SessionError),
}

/// A `LoginState` as mathematical text.
pub enum LoginStateView {
    Idle,
    Requesting { kept: Option<LoginAttemptView>, captured: bool },
    AwaitingUserConsent(LoginAttemptView),
    Exchanging(LoginAttemptView),
    Failed(SessionError),
}

impl View for LoginState {
    type V = LoginStateView;

    open spec fn view(&self) -> LoginStateView {
        match self {
            LoginState::Idle => LoginStateView::Idle,
            LoginState::Requesting { kept, captured } => LoginStateView::Requesting {
                kept: attempt_view(*kept),
                captured: *captured,
            },
            LoginState::AwaitingUserConsent(a) => LoginStateView::AwaitingUserConsent(a@),
            LoginState::Exchanging(a) => LoginStateView::Exchanging(a@),
            LoginState::Failed(e) => LoginStateView::Failed(*e),
        }
    }
}

/// What a caller that waits for the login does next.
#[derive(Debug, PartialEq, Eq)]
pub enum WaitStep {
    /// Nothing: the token is there.
    Ready(WaitLoginOutput),
    /// Block until the background work of this attempt ends, then report
    /// its outcome with `finish_login`.
    Join(LoginAttempt),
    /// Give up with this error.
    Fail(SessionError),
}

/// A `WaitStep` as mathematical text.
pub enum WaitStepView {
    Ready(Seq<char>),
    Join(LoginAttemptView),
    Fail(SessionError),
}

impl View for WaitStep {
    type V = WaitStepView;

    open spec fn view(&self) -> WaitStepView {
        match self {
            WaitStep::Ready(out) => WaitStepView::Ready(out.access_token@),
            WaitStep::Join(a) => WaitStepView::Join(a@),
            WaitStep::Fail(e) => WaitStepView::Fail(*e),
        }
    }
}

/// The attempt that the request code `code` starts.
pub open spec fn attempt_for(code: Seq<char>) -> LoginAttemptView {
    LoginAttemptView { request_code: code, consent_url: consent_url_spec(code) }
}

/// The attempt whose background work is under way, if any. A request for
/// a new code does not end it.
pub open spec fn pending_attempt(state: LoginStateView) -> Option<LoginAttemptView> {
    match state {
        LoginStateView::AwaitingUserConsent(a) => Some(a),
        LoginStateView::Exchanging(a) => Some(a),
        LoginStateView::Requesting { kept, captured } => kept,
        _ => None,
    }
}

/// Whether the user has returned for the attempt that is pending.
pub open spec fn captured_in(state: LoginStateView) -> bool {
    match state {
        LoginStateView::Exchanging(_) => true,
        LoginStateView::Requesting { kept, captured } => kept is Some && captured,
        _ => false,
    }
}

/// The state once a request code has been asked for: what was pending
/// stays pending.
pub open spec fn after_begin(state: LoginStateView) -> LoginStateView {
    LoginStateView::Requesting { kept: pending_attempt(state), captured: captured_in(state) }
}

/// The state that a request for a code leaves behind when nothing comes of
/// it: the attempt that was pending, as far as it had come.
pub open spec fn without_request(state: LoginStateView) -> LoginStateView {
    match pending_attempt(state) {
        Some(a) => if captured_in(state) {
            LoginStateView::Exchanging(a)
        } else {
            LoginStateView::AwaitingUserConsent(a)
        },
        None => match state {
            LoginStateView::Requesting { kept, captured } => LoginStateView::Idle,
            _ => state,
        },
    }
}

/// The state after the service answered the request for a code. A code
/// starts a new attempt, which replaces whatever was pending. Without a
/// code no attempt is started: what was pending stays as it was, and only
/// where nothing was pending is the failure remembered.
pub open spec fn after_reply(
    state: LoginStateView,
    code: Result<Seq<char>, SessionError>,
) -> LoginStateView {
    match code {
        Ok(c) => LoginStateView::AwaitingUserConsent(attempt_for(c)),
        Err(e) => match pending_attempt(state) {
            Some(_) => without_request(state),
            None => LoginStateView::Failed(e),
        },
    }
}

/// Whether the background work started for `code` is the one that `state`
/// waits for.
pub open spec fn accepts(state: LoginStateView, code: Seq<char>) -> bool {
    pending_attempt(state) matches Some(a) && a.request_code == code
}

/// The state after the worker of `code` reported that the user has returned.
pub open spec fn after_capture(state: LoginStateView, code: Seq<char>) -> LoginStateView {
    if accepts(state, code) {
        match state {
            LoginStateView::AwaitingUserConsent(a) => LoginStateView::Exchanging(a),
            LoginStateView::Requesting { kept, captured } => LoginStateView::Requesting {
                kept,
                captured: true,
            },
            _ => state,
        }
    } else {
        state
    }
}

/// The state after the worker of `code` ended with `outcome`. The outcome
/// of the pending attempt ends it; while a new code is asked for, that
/// request goes on. The outcome of a worker that is not waited for changes
/// nothing.
pub open spec fn after_finish(
    state: LoginStateView,
    code: Seq<char>,
    outcome: Result<Seq<char>, SessionError>,
) -> LoginStateView {
    if accepts(state, code) {
        match state {
            LoginStateView::Requesting { kept, captured } => LoginStateView::Requesting {
                kept: None,
                captured: false,
            },
            _ => match outcome {
                Ok(_) => LoginStateView::Idle,
                Err(e) => LoginStateView::Failed(e),
            },
        }
    } else {
        state
    }
}

/// The token held after the worker of `code` ended with `outcome`.
pub open spec fn token_after_finish(
    token: Option<Seq<char>>,
    state: LoginStateView,
    code: Seq<char>,
    outcome: Result<Seq<char>, SessionError>,
) -> Option<Seq<char>> {
    match outcome {
        Ok(t) if accepts(state, code) => Some(t),
        _ => token,
    }
}

/// What the caller that waited is told when the worker of `code` ended with
/// `outcome`.
pub open spec fn finish_result(
    state: LoginStateView,
    code: Seq<char>,
    outcome: Result<Seq<char>, SessionError>,
) -> Result<Seq<char>, SessionError> {
    if accepts(state, code) {
        outcome
    } else {
        Err(SessionError::NoLoginInProgress)
    }
}

/// What a caller that waits for the login does next.
pub open spec fn wait_step(token: Option<Seq<char>>, state: LoginStateView) -> WaitStepView {
    match token {
        Some(t) => WaitStepView::Ready(t),
        None => match pending_attempt(state) {
            Some(a) => WaitStepView::Join(a),
            None => WaitStepView::Fail(SessionError::NoLoginInProgress),
        },
    }
}

/// Where the login stands for a session that holds `token` and remembers
/// `state`.
pub open spec fn phase_of(token: Option<Seq<char>>, state: LoginStateView) -> LoginPhase {
    match token {
        Some(_) => LoginPhase::Ready,
        None => match state {
            LoginStateView::Idle => LoginPhase::NotStarted,
            LoginStateView::Requesting { kept, captured } => LoginPhase::Requesting,
            LoginStateView::AwaitingUserConsent(_) => LoginPhase::AwaitingUserConsent,
            LoginStateView::Exchanging(_) => LoginPhase::Exchanging,
            LoginStateView::Failed(_) => LoginPhase::Failed,
        },
    }
}

/// The text of an outcome.
pub open spec fn outcome_view(outcome: Result<String, SessionError>) -> Result<
    Seq<char>,
    SessionError,
> {
    reply_view(outcome)
}

/// What the foreground sees of a login.
#[derive(Debug)]
pub struct LoginSession {
    state: LoginState,
}

impl LoginSession {
    /// What the session remembers.
    pub closed spec fn view(&self) -> LoginStateView {
        self.state@
    }

    /// A session in which nothing is under way.
    pub fn new() -> (session: Self)
        ensures
            session@ == LoginStateView::Idle,
    {
        LoginSession { state: LoginState::Idle }
    }

    /// Where the login stands, given the token store of the session.
    pub fn phase(&self, store: &TokenStore) -> (phase: LoginPhase)
        ensures
            phase == phase_of(store@, self@),
    {
        if store.is_set() {
            LoginPhase::Ready
        } else {
            match &self.state {
                LoginState::Idle => LoginPhase::NotStarted,
                LoginState::Requesting { kept, captured } => LoginPhase::Requesting,
                LoginState::AwaitingUserConsent(_) => LoginPhase::AwaitingUserConsent,
                LoginState::Exchanging(_) => LoginPhase::Exchanging,
                LoginState::Failed(_) => LoginPhase::Failed,
            }
        }
    }

    /// The attempt whose background work is under way, if any.
    pub fn pending(&self) -> (attempt: Option<LoginAttempt>)
        ensures
            match pending_attempt(self@) {
                Some(a) => attempt matches Some(b) && b@ == a,
                None => attempt is None,
            },
    {
        match &self.state {
            LoginState::AwaitingUserConsent(a) => Some(a.clone()),
            LoginState::Exchanging(a) => Some(a.clone()),
            LoginState::Requesting { kept, captured } => match kept {
                Some(a) => Some(a.clone()),
                None => None,
            },
            _ => None,
        }
    }

    /// Whether the user has returned for the attempt that is pending.
    pub fn has_captured(&self) -> (captured: bool)
        ensures
            captured == captured_in(self@),
    {
        match &self.state {
            LoginState::Exchanging(_) => true,
            LoginState::Requesting { kept, captured } => kept.is_some() && *captured,
            _ => false,
        }
    }

    /// Begins a login: notes that a request code is asked for, and says
    /// which call asks for it. An attempt that is pending stays pending
    /// until a new one takes its place.
    pub fn begin_login(&mut self, consumer_key: &str) -> (call: RemoteCall)
        ensures
            final(self)@ == after_begin(old(self)@),
            call@ == request_code_call_spec(consumer_key@),
    {
        let kept = self.pending();
        let captured = self.has_captured();
        self.state = LoginState::Requesting { kept, captured };
        request_code_call(consumer_key)
    }

    /// Records the attempt that the request code `code` starts, in place of
    /// any earlier one, and hands out the state of its background work.
    pub fn start_server_for_callback(
        &mut self,
        code: &str,
        consumer_key: &str,
    ) -> (worker: LoginWorker)
        ensures
            final(self)@ == after_reply(old(self)@, Ok(code@)),
            worker@ == (WorkerView {
                listener: ListenerState::Idle,
                request_code: code@,
                consumer_key: consumer_key@,
            }),
    {
        self.state = LoginState::AwaitingUserConsent(
            LoginAttempt { request_code: code.to_owned(), consent_url: consent_url(code) },
        );
        LoginWorker {
            listener: CallbackListener::new(),
            request_code: code.to_owned(),
            consumer_key: consumer_key.to_owned(),
        }
    }

    /// Takes the reply to the request for a code.
    ///
    /// A reply with a code starts an attempt, in place of any earlier one:
    /// the result is the consent page for the code and the background work
    /// to run. A transport failure is handed on as it is, and a reply
    /// without a code is an `UpstreamError`. Either starts nothing: an
    /// attempt that was pending stays as it was and can still be waited
    /// for, and only where none was pending is the failure remembered as
    /// the failure of the login.
    pub fn start_login(
        &mut self,
        reply: Result<String, SessionError>,
        consumer_key: &str,
    ) -> (started: Result<(StartLoginOutput, LoginWorker), SessionError>)
        ensures
            final(self)@ == after_reply(
                old(self)@,
                reply_member(reply_view(reply), REQUEST_CODE_KEY@),
            ),
            match reply_member(reply_view(reply), REQUEST_CODE_KEY@) {
                Ok(code) => started matches Ok(pair) && pair.0.auth_url@ == consent_url_spec(code)
                    && pair.1@ == (WorkerView {
                    listener: ListenerState::Idle,
                    request_code: code,
                    consumer_key: consumer_key@,
                }),
                Err(e) => started matches Err(f) && f == e,
            },
    {
        match string_of_reply(reply, REQUEST_CODE_KEY) {
            Ok(code) => {
                let worker = self.start_server_for_callback(code.as_str(), consumer_key);
                Ok((StartLoginOutput { auth_url: consent_url(code.as_str()) }, worker))
            },
            Err(e) => {
                let captured = self.has_captured();
                match self.pending() {
                    Some(a) => {
                        if captured {
                            self.state = LoginState::Exchanging(a);
                        } else {
                            self.state = LoginState::AwaitingUserConsent(a);
                        }
                    },
                    None => {
                        self.state = LoginState::Failed(e);
                    },
                }
                Err(e)
            },
        }
    }

    /// Notes that the user has returned for the attempt of `request_code`.
    /// The report of a worker that is not waited for changes nothing.
    pub fn callback_captured(&mut self, request_code: &str)
        ensures
            final(self)@ == after_capture(old(self)@, request_code@),
    {
        let code = request_code.to_owned();
        let requesting = self.is_requesting();
        match self.pending() {
            Some(a) => {
                if a.request_code == code {
                    if requesting {
                        self.state = LoginState::Requesting { kept: Some(a), captured: true };
                    } else {
                        self.state = LoginState::Exchanging(a);
                    }
                }
            },
            None => {},
        }
    }

    /// Whether a request code is asked for.
    pub fn is_requesting(&self) -> (requesting: bool)
        ensures
            requesting == (self@ is Requesting),
    {
        match &self.state {
            LoginState::Requesting { kept, captured } => true,
            _ => false,
        }
    }

    /// Says what a caller that waits for the login does next.
    ///
    /// With a token in the store there is nothing to wait for. Without one,
    /// the caller joins the background work of the pending attempt; where
    /// none is pending, no login is in progress.
    pub fn wait_login(&self, store: &TokenStore) -> (step: WaitStep)
        ensures
            step@ == wait_step(store@, self@),
    {
        match store.get() {
            Some(access_token) => WaitStep::Ready(WaitLoginOutput { access_token }),
            None => match self.pending() {
                Some(a) => WaitStep::Join(a),
                None => WaitStep::Fail(SessionError::NoLoginInProgress),
            },
        }
    }

    /// Takes the outcome of the background work that was started for
    /// `request_code`.
    ///
    /// The outcome of the pending attempt ends it: a token is stored and
    /// returned, a failure is remembered and returned. The outcome of any
    /// other work changes nothing and is answered with `NoLoginInProgress`.
    pub fn finish_login(
        &mut self,
        store: &mut TokenStore,
        request_code: &str,
        outcome: Result<String, SessionError>,
    ) -> (finished: Result<WaitLoginOutput, SessionError>)
        ensures
            final(self)@ == after_finish(old(self)@, request_code@, outcome_view(outcome)),
            final(store)@ == token_after_finish(
                old(store)@,
                old(self)@,
                request_code@,
                outcome_view(outcome),
            ),
            match finish_result(old(self)@, request_code@, outcome_view(outcome)) {
                Ok(token) => finished matches Ok(out) && out.access_token@ == token,
                Err(e) => finished matches Err(f) && f == e,
            },
    {
        let code = request_code.to_owned();
        let accepted = match self.pending() {
            Some(a) => a.request_code == code,
            None => false,
        };
        if !accepted {
            return Err(SessionError::NoLoginInProgress);
        }
        let requesting = self.is_requesting();
        match outcome {
            Ok(access_token) => {
                store.set(access_token.clone());
                if requesting {
                    self.state = LoginState::Requesting { kept: None, captured: false };
                } else {
                    self.state = LoginState::Idle;
                }
                Ok(WaitLoginOutput { access_token })
            },
            Err(e) => {
                if requesting {
                    self.state = LoginState::Requesting { kept: None, captured: false };
                } else {
                    self.state = LoginState::Failed(e);
                }
                Err(e)
            },
        }
    }
}

/// What the background work of one attempt does next.
#[derive(Debug, PartialEq, Eq)]
pub enum WorkerAction {
    /// Wait for the next connection.
    Accept,
    /// Read the request and answer it with the confirmation page.
    Reply,
    /// Release the address, then make this call to exchange the code.
    Exchange(RemoteCall),
    /// End with this error.
    Fail(SessionError),
    /// Nothing: the report does not fit the state.
    Ignore,
}

/// A `WorkerAction` as mathematical text.
pub enum WorkerActionView {
    Accept,
    Reply,
    Exchange(RemoteCallView),
    Fail(SessionError),
    Ignore,
}

impl View for WorkerAction {
    type V = WorkerActionView;

    open spec fn view(&self) -> WorkerActionView {
        match self {
            WorkerAction::Accept => WorkerActionView::Accept,
            WorkerAction::Reply => WorkerActionView::Reply,
            WorkerAction::Exchange(call) => WorkerActionView::Exchange(call@),
            WorkerAction::Fail(e) => WorkerActionView::Fail(*e),
            WorkerAction::Ignore => WorkerActionView::Ignore,
        }
    }
}

/// A `LoginWorker` as mathematical text.
pub struct WorkerView {
    pub listener: ListenerState,
    pub request_code: Seq<char>,
    pub consumer_key: Seq<char>,
}

/// What a worker does when its listener is told to do `action`.
pub open spec fn worker_action(worker: WorkerView, action: ListenerAction) -> WorkerActionView {
    match action {
        ListenerAction::Accept => WorkerActionView::Accept,
        ListenerAction::Reply => WorkerActionView::Reply,
        ListenerAction::Release => WorkerActionView::Exchange(
            exchange_call_spec(worker.consumer_key, worker.request_code),
        ),
        ListenerAction::Fail => WorkerActionView::Fail(SessionError::ResourceBusy),
        ListenerAction::Ignore => WorkerActionView::Ignore,
    }
}

/// How the background work of one attempt ends.
#[derive(Debug, PartialEq, Eq)]
pub struct WorkerOutcome {
    /// The access token, or why there is none.
    pub result: Result<String, SessionError>,
    /// Whether `LOGIN_EVENT` is to be announced.
    pub announce: bool,
}

/// The state of the background work that one attempt starts: listen for the
/// redirect, then exchange the code.
#[derive(Debug)]
pub struct LoginWorker {
    listener: CallbackListener,
    request_code: String,
    consumer_key: String,
}

impl LoginWorker {
    /// What the worker holds.
    pub closed spec fn view(&self) -> WorkerView {
        WorkerView {
            listener: self.listener@,
            request_code: self.request_code@,
            consumer_key: self.consumer_key@,
        }
    }

    /// The request code of the attempt that this work belongs to.
    pub fn request_code(&self) -> (code: String)
        ensures
            code@ == self@.request_code,
    {
        self.request_code.clone()
    }

    /// Where the listener of this work stands.
    pub fn listener_state(&self) -> (state: ListenerState)
        ensures
            state == self@.listener,
    {
        self.listener.state()
    }

    /// Takes a report about the socket and says what to do next.
    ///
    /// The listener decides; the exchange is asked for when the one
    /// connection has been answered, and at no other time; an address that
    /// cannot be bound ends the work with `ResourceBusy`.
    pub fn step(&mut self, event: ListenerEvent) -> (action: WorkerAction)
        ensures
            final(self)@ == (WorkerView {
                listener: next_state(old(self)@.listener, event),
                ..old(self)@
            }),
            action@ == worker_action(old(self)@, action_for(old(self)@.listener, event)),
            action is Exchange ==> captured(final(self)@.listener),
    {
        match self.listener.step(event) {
            ListenerAction::Accept => WorkerAction::Accept,
            ListenerAction::Reply => WorkerAction::Reply,
            ListenerAction::Release => WorkerAction::Exchange(
                exchange_call(self.consumer_key.as_str(), self.request_code.as_str()),
            ),
            ListenerAction::Fail => WorkerAction::Fail(SessionError::ResourceBusy),
            ListenerAction::Ignore => WorkerAction::Ignore,
        }
    }
}

/// The outcome of background work that was told to ignore a report: a
/// report that does not fit the state shows that the socket is not what
/// the worker takes it for, so the work ends as a failed one, with
/// `IoError`, and announces nothing.
pub fn stalled_outcome() -> (outcome: WorkerOutcome)
    ensures
        outcome.result == Err::<String, SessionError>(SessionError::IoError),
        !outcome.announce,
{
    WorkerOutcome { result: Err(SessionError::IoError), announce: false }
}

/// The outcome of background work that cannot be joined because it is
/// gone: to the caller that waits, no login is in progress.
pub fn lost_outcome() -> (outcome: Result<String, SessionError>)
    ensures
        outcome == Err::<String, SessionError>(SessionError::NoLoginInProgress),
{
    Err(SessionError::NoLoginInProgress)
}

/// Makes the outcome of the background work from the reply to the exchange.
///
/// A transport failure is handed on as it is; a reply without a token is an
/// `UpstreamError`; a token is announced.
pub fn exchange_outcome(reply: Result<String, SessionError>) -> (outcome: WorkerOutcome)
    ensures
        outcome_view(outcome.result) == reply_member(reply_view(reply), ACCESS_TOKEN_KEY@),
        outcome.announce == outcome.result.is_ok(),
{
    let result = string_of_reply(reply, ACCESS_TOKEN_KEY);
    let announce = result.is_ok();
    WorkerOutcome { result, announce }
}

/// The exchange is asked for only after a connection was accepted: whatever
/// is reported to a worker that starts idle, if the last report makes it
/// ask for the exchange, an accepted connection is among the reports, and
/// the listener has stopped.
pub proof fn lemma_exchange_follows_connection(worker: WorkerView, events: Seq<ListenerEvent>)
    requires
        worker.listener == ListenerState::Idle,
        events.len() > 0,
        worker_action(
            worker,
            action_for(run(ListenerState::Idle, events.drop_last()), events.last()),
        ) is Exchange,
    ensures
        events.contains(ListenerEvent::Accepted),
        run(ListenerState::Idle, events) == ListenerState::Stopped,
{
    let before = events.drop_last();
    let reached = run(ListenerState::Idle, before);
    assert(reached == ListenerState::Captured);
    lemma_capture_needs_connection(ListenerState::Idle, before);
    let i = choose|i: int| 0 <= i < before.len() && before[i] == ListenerEvent::Accepted;
    assert(events[i] == ListenerEvent::Accepted);
    lemma_run_append(ListenerState::Idle, before, events.last());
    assert(before.push(events.last()) =~= events);
}

/// Running one more report is one more step.
proof fn lemma_run_append(state: ListenerState, events: Seq<ListenerEvent>, last: ListenerEvent)
    ensures
        run(state, events.push(last)) == next_state(run(state, events), last),
    decreases events.len(),
{
    if events.len() == 0 {
        assert(events.push(last).drop_first() =~= events);
        assert(run(next_state(state, last), events) == next_state(state, last));
    } else {
        assert(events.push(last).drop_first() =~= events.drop_first().push(last));
        lemma_run_append(next_state(state, events[0]), events.drop_first(), last);
    }
}

/// Of two attempts started one after the other, only the later one is
/// waited for: what the work of the earlier one reports changes nothing and
/// reaches no caller, and the outcome of the later one is what the caller
/// that waits is told.
pub proof fn lemma_one_result_observable(
    earlier: LoginStateView,
    token: Option<Seq<char>>,
    first: Seq<char>,
    second: Seq<char>,
    outcome: Result<Seq<char>, SessionError>,
)
    requires
        first != second,
    ensures
        ({
            let state = after_reply(earlier, Ok(second));
            &&& pending_attempt(state) == Some(attempt_for(second))
            &&& after_capture(state, first) == state
            &&& after_finish(state, first, outcome) == state
            &&& token_after_finish(token, state, first, outcome) == token
            &&& finish_result(state, first, outcome) == Err::<Seq<char>, SessionError>(
                SessionError::NoLoginInProgress,
            )
            &&& finish_result(state, second, outcome) == outcome
            &&& finish_result(after_capture(state, second), second, outcome) == outcome
        }),
{
}

/// The outcome of an attempt is taken once: after it, nothing is pending,
/// and a second report of the same work is answered with
/// `NoLoginInProgress`.
pub proof fn lemma_outcome_taken_once(
    state: LoginStateView,
    code: Seq<char>,
    outcome: Result<Seq<char>, SessionError>,
    again: Result<Seq<char>, SessionError>,
)
    requires
        accepts(state, code),
    ensures
        pending_attempt(after_finish(state, code, outcome)) is None,
        finish_result(after_finish(state, code, outcome), code, again) == Err::<
            Seq<char>,
            SessionError,
        >(SessionError::NoLoginInProgress),
        !(state is Requesting) ==> (outcome matches Err(e) ==> after_finish(state, code, outcome)
            == LoginStateView::Failed(e)),
{
}

/// A request for a code that yields none starts nothing and ends nothing:
/// the attempt that was pending when the code was asked for is pending
/// still, as far as it had come, a caller that waits joins it at every
/// point, and its outcome is taken as if no code had been asked for.
pub proof fn lemma_failed_restart_keeps_attempt(
    state: LoginStateView,
    failure: SessionError,
    outcome: Result<Seq<char>, SessionError>,
)
    requires
        pending_attempt(state) is Some,
    ensures
        pending_attempt(after_begin(state)) == pending_attempt(state),
        wait_step(None, after_begin(state)) == wait_step(None, state),
        wait_step(None, after_reply(after_begin(state), Err(failure))) == wait_step(None, state),
        after_reply(after_begin(state), Err(failure)) == without_request(state),
        after_reply(state, Err(failure)) == without_request(state),
        !(state is Requesting) ==> without_request(state) == state,
        finish_result(
            after_reply(after_begin(state), Err(failure)),
            pending_attempt(state).unwrap().request_code,
            outcome,
        ) == outcome,
        finish_result(after_begin(state), pending_attempt(state).unwrap().request_code, outcome)
            == outcome,
{
}

/// Where nothing is pending, a request for a code that yields none is the
/// failure of the login, and no login is in progress.
pub proof fn lemma_failed_start_is_remembered(state: LoginStateView, failure: SessionError)
    requires
        pending_attempt(state) is None,
    ensures
        pending_attempt(after_begin(state)) is None,
        after_reply(after_begin(state), Err(failure)) == LoginStateView::Failed(failure),
        after_reply(state, Err(failure)) == LoginStateView::Failed(failure),
        wait_step(None, after_reply(state, Err(failure))) == WaitStepView::Fail(
            SessionError::NoLoginInProgress,
        ),
{
}

/// Once a login has yielded a token, every caller that waits is given that
/// token at once, with nothing to join, whatever else the session
/// remembers.
pub proof fn lemma_ready_is_immediate(
    token: Option<Seq<char>>,
    state: LoginStateView,
    code: Seq<char>,
    access_token: Seq<char>,
    later: LoginStateView,
)
    requires
        accepts(state, code),
    ensures
        wait_step(token_after_finish(token, state, code, Ok(access_token)), later)
            == WaitStepView::Ready(access_token),
        phase_of(token_after_finish(token, state, code, Ok(access_token)), later)
            == LoginPhase::Ready,
{
}

/// Without a token, a caller that waits is told to join exactly when an
/// attempt is pending, and is otherwise told that no login is in progress.
pub proof fn lemma_wait_without_token(state: LoginStateView)
    ensures
        wait_step(None, state) is Join <==> pending_attempt(state) is Some,
        pending_attempt(state) is None ==> wait_step(None, state) == WaitStepView::Fail(
            SessionError::NoLoginInProgress,
        ),
        wait_step(None, LoginStateView::Idle) == WaitStepView::Fail(
            SessionError::NoLoginInProgress,
        ),
{
}

} // verus!
