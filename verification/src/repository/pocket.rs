//! The session with the article service.

pub mod data;
pub mod listener;
pub mod login;
pub mod remote;
pub mod token_store;

use crate::domain::article::article_views;
use crate::domain::repository::pocket::{
    ListOutput, MarkAsSentInput, StartLoginOutput, WaitLoginOutput,
};
use crate::error::SessionError;
use crate::json::{document_string, json_quoted, literal_of, read_string_member};
use crate::repository::pocket::data::{
    actions_json, actions_text, articles_of, id_views, GetResponse,
};
use crate::repository::pocket::listener::ListenerState;
use crate::repository::pocket::login::{
    after_begin, after_capture, after_finish, after_reply, finish_result, outcome_view,
    pending_attempt, phase_of, token_after_finish, wait_step, LoginAttempt, LoginAttemptView, LoginPhase, LoginSession,
    LoginStateView, LoginWorker, WaitStep, WaitStepView, WorkerView,
};
use crate::repository::pocket::remote::{
    consent_url_spec, list_call, list_call_spec, modify_call, modify_call_spec, reply_member,
    reply_view, request_code_call_spec, RemoteCall, RemoteCallView, REQUEST_CODE_KEY,
};
use crate::repository::pocket::token_store::{
    clear_result, load_result, loaded_token, saved_text, text_of_file, FileRemoval, TokenStore,
};
use vstd::prelude::*;
use vstd::string::*;

verus! {

/// The key under which a persisted session keeps its token.
pub const STATE_TOKEN_KEY: &'static str = "accessToken";

/// The persisted form of a session.
#[derive(Debug, PartialEq, Eq)]
pub struct PocketRepositoryState {
    pub access_token: String,
}

/// What the session layer is configured with.
#[derive(Debug, PartialEq, Eq)]
pub struct PocketRepositoryConfig {
    pub consumer_key: String,
    pub state_file_path: String,
}

impl Default for PocketRepositoryConfig {
    fn default() -> (config: Self)
        ensures
            config.consumer_key@ == Seq::<char>::empty(),
            config.state_file_path@ == Seq::<char>::empty(),
    {
        PocketRepositoryConfig { consumer_key: String::new(), state_file_path: String::new() }
    }
}

/// The JSON object that persists a token whose JSON string literal is
/// `literal`.
pub open spec fn state_frame(literal: Seq<char>) -> Seq<char> {
    "{\"accessToken\":"@ + literal + "}"@
}

/// The JSON object that persists the token `token`.
pub open spec fn state_text(token: Seq<char>) -> Seq<char> {
    state_frame(json_quoted(token))
}

/// Writes the JSON object that persists a token, around the JSON string
/// literal of the token.
pub fn state_json(literal: &str) -> (text: String)
    ensures
        text@ == state_frame(literal@),
{
    let mut text = "{\"accessToken\":".to_owned();
    text.append(literal);
    text.append("}");
    text
}

/// The token that the persisted text `text` holds, if it holds one.
pub open spec fn state_token(text: Seq<char>) -> Option<Seq<char>> {
    document_string(text, STATE_TOKEN_KEY@)
}

impl PocketRepositoryState {
    /// Reads a persisted session.
    ///
    /// The text must be a JSON object with a string under `accessToken`;
    /// anything else is a `DeserializationError`.
    pub fn from_json(text: &str) -> (state: Result<Self, SessionError>)
        ensures
            match state_token(text@) {
                Some(token) => state matches Ok(s) && s.access_token@ == token,
                None => state matches Err(e) && e == SessionError::DeserializationError,
            },
    {
        PocketRepositoryState::of_member(read_string_member(text, STATE_TOKEN_KEY))
    }

    /// Makes the persisted session of the token that was read from its
    /// file: a token that could not be read is a `DeserializationError`,
    /// whatever kept it from being read.
    pub fn of_member(member: Result<String, SessionError>) -> (state: Result<Self, SessionError>)
        ensures
            match member {
                Ok(token) => state matches Ok(s) && s.access_token == token,
                Err(_) => state matches Err(e) && e == SessionError::DeserializationError,
            },
    {
        match member {
            Ok(access_token) => Ok(PocketRepositoryState { access_token }),
            Err(_) => Err(SessionError::DeserializationError),
        }
    }

    /// Writes the session as the JSON object that `from_json` reads.
    pub fn to_json(&self) -> (text: String)
        ensures
            text@ == state_text(self.access_token@),
    {
        let literal = literal_of(self.access_token.as_str());
        state_json(literal.as_str())
    }
}

/// What a session holds, as mathematical text.
pub struct SessionView {
    pub consumer_key: Seq<char>,
    pub state_file_path: Seq<char>,
    pub token: Option<Seq<char>>,
    pub login: LoginStateView,
}

/// The call that lists the articles for a session that holds `token`.
pub open spec fn list_call_for(consumer_key: Seq<char>, token: Option<Seq<char>>) -> Result<
    RemoteCallView,
    SessionError,
> {
    match token {
        Some(t) => Ok(list_call_spec(consumer_key, t)),
        None => Err(SessionError::NotLoggedIn),
    }
}

/// What a caller that lists the articles does next.
#[derive(Debug, PartialEq, Eq)]
pub enum ListStep {
    /// Make this call: the token is there.
    Call(RemoteCall),
    /// Block until the background work of this attempt ends, report its
    /// outcome with `finish_login`, and ask again.
    Join(LoginAttempt),
    /// Give up with this error, and make no call.
    Fail(SessionError),
}

/// A `ListStep` as mathematical text.
pub enum ListStepView {
    Call(RemoteCallView),
    Join(LoginAttemptView),
    Fail(SessionError),
}

impl View for ListStep {
    type V = ListStepView;

    open spec fn view(&self) -> ListStepView {
        match self {
            ListStep::Call(call) => ListStepView::Call(call@),
            ListStep::Join(a) => ListStepView::Join(a@),
            ListStep::Fail(e) => ListStepView::Fail(*e),
        }
    }
}

/// What a caller that lists the articles does next: listing waits for the
/// login first. With a token the listing call is made with it; without
/// one the pending attempt is joined; where none is pending, no login is
/// in progress and no call is made.
pub open spec fn list_step_for(
    consumer_key: Seq<char>,
    token: Option<Seq<char>>,
    login: LoginStateView,
) -> ListStepView {
    match wait_step(token, login) {
        WaitStepView::Ready(t) => ListStepView::Call(list_call_spec(consumer_key, t)),
        WaitStepView::Join(a) => ListStepView::Join(a),
        WaitStepView::Fail(e) => ListStepView::Fail(e),
    }
}

/// The call that marks `ids` as delivered for a session that holds `token`.
pub open spec fn mark_call_for(
    consumer_key: Seq<char>,
    token: Option<Seq<char>>,
    ids: Seq<Seq<char>>,
) -> Result<RemoteCallView, SessionError> {
    match token {
        Some(t) => Ok(modify_call_spec(consumer_key, t, actions_text(ids))),
        None => Err(SessionError::NotLoggedIn),
    }
}

/// The session with the article service: the token store and the login,
/// under one roof.
///
/// Every operation that needs the network or the disk is split in two
/// here: one function says what to do, another takes
/// what came of it.
#[derive(Debug)]
pub struct PocketRepositoryImpl {
    config: PocketRepositoryConfig,
    login: LoginSession,
    store: TokenStore,
}

impl PocketRepositoryImpl {
    /// What the session holds.
    pub closed spec fn view(&self) -> SessionView {
        SessionView {
            consumer_key: self.config.consumer_key@,
            state_file_path: self.config.state_file_path@,
            token: self.store@,
            login: self.login@,
        }
    }

    /// A session that holds no token and in which no login is under way.
    pub fn new(config: PocketRepositoryConfig) -> (session: Self)
        ensures
            session@ == (SessionView {
                consumer_key: config.consumer_key@,
                state_file_path: config.state_file_path@,
                token: None,
                login: LoginStateView::Idle,
            }),
    {
        PocketRepositoryImpl { config, login: LoginSession::new(), store: TokenStore::new() }
    }

    /// Where the session is persisted.
    pub fn state_file_path(&self) -> (path: String)
        ensures
            path@ == self@.state_file_path,
    {
        self.config.state_file_path.clone()
    }

    /// Whether a token is held.
    pub fn is_login(&self) -> (held: bool)
        ensures
            held == self@.token.is_some(),
    {
        self.store.is_set()
    }

    /// Where the login stands.
    pub fn phase(&self) -> (phase: LoginPhase)
        ensures
            phase == phase_of(self@.token, self@.login),
    {
        self.login.phase(&self.store)
    }

    /// Takes over the persisted session from the text of its file; `file`
    /// is `None` where no file was found.
    ///
    /// No file is no error and changes nothing. A file that holds a session
    /// replaces the token. A file that cannot be decoded changes nothing and
    /// is a `DeserializationError`.
    pub fn load_state(&mut self, file: Option<&str>) -> (done: Result<(), SessionError>)
        ensures
            final(self)@ == (SessionView {
                token: loaded_token(old(self)@.token, text_of_file(file)),
                ..old(self)@
            }),
            done == load_result(text_of_file(file)),
    {
        self.store.load_from_disk(file)
    }

    /// The text to write to the file of the persisted session.
    /// `NotLoggedIn` where no token is held.
    pub fn save_state(&self) -> (text: Result<String, SessionError>)
        ensures
            match saved_text(self@.token) {
                Ok(expected) => text matches Ok(t) && t@ == expected,
                Err(e) => text matches Err(f) && f == e,
            },
    {
        self.store.save_to_disk()
    }

    /// Begins a login: says which call asks for a request code. An attempt
    /// that is pending stays pending until a new one takes its place.
    pub fn begin_login(&mut self) -> (call: RemoteCall)
        ensures
            final(self)@ == (SessionView { login: after_begin(old(self)@.login), ..old(self)@ }),
            call@ == request_code_call_spec(old(self)@.consumer_key),
    {
        self.login.begin_login(self.config.consumer_key.as_str())
    }

    /// Takes the reply to the request for a code.
    ///
    /// A reply with a code starts an attempt, in place of any earlier one:
    /// the result is the consent page for the code and the background work
    /// to run. A transport failure is handed on as it is, and a reply
    /// without a code is an `UpstreamError`. Either starts nothing: an
    /// attempt that was pending stays as it was and can still be waited
    /// for, and only where none was pending is the failure remembered as
    /// the failure of the login. The token is not touched.
    pub fn start_login(
        &mut self,
        reply: Result<String, SessionError>,
    ) -> (started: Result<(StartLoginOutput, LoginWorker), SessionError>)
        ensures
            final(self)@ == (SessionView {
                login: after_reply(
                    old(self)@.login,
                    reply_member(reply_view(reply), REQUEST_CODE_KEY@),
                ),
                ..old(self)@
            }),
            match reply_member(reply_view(reply), REQUEST_CODE_KEY@) {
                Ok(code) => started matches Ok(pair) && pair.0.auth_url@ == consent_url_spec(code)
                    && pair.1@ == (WorkerView {
                    listener: ListenerState::Idle,
                    request_code: code,
                    consumer_key: old(self)@.consumer_key,
                }),
                Err(e) => started matches Err(f) && f == e,
            },
    {
        self.login.start_login(reply, self.config.consumer_key.as_str())
    }

    /// Notes that the user has returned for the attempt of `request_code`.
    pub fn callback_captured(&mut self, request_code: &str)
        ensures
            final(self)@ == (SessionView {
                login: after_capture(old(self)@.login, request_code@),
                ..old(self)@
            }),
    {
        self.login.callback_captured(request_code)
    }

    /// Says what a caller that waits for the login does next: nothing where
    /// a token is held, join the background work where an attempt is
    /// pending, give up with `NoLoginInProgress` otherwise.
    pub fn wait_login(&self) -> (step: WaitStep)
        ensures
            step@ == wait_step(self@.token, self@.login),
    {
        self.login.wait_login(&self.store)
    }

    /// Takes the outcome of the background work that was started for
    /// `request_code`.
    ///
    /// The outcome of the pending attempt ends it: a token is stored and
    /// returned, a failure is remembered and returned. The outcome of any
    /// other work changes nothing and is answered with `NoLoginInProgress`.
    pub fn finish_login(
        &mut self,
        request_code: &str,
        outcome: Result<String, SessionError>,
    ) -> (finished: Result<WaitLoginOutput, SessionError>)
        ensures
            final(self)@ == (SessionView {
                login: after_finish(old(self)@.login, request_code@, outcome_view(outcome)),
                token: token_after_finish(
                    old(self)@.token,
                    old(self)@.login,
                    request_code@,
                    outcome_view(outcome),
                ),
                ..old(self)@
            }),
            match finish_result(old(self)@.login, request_code@, outcome_view(outcome)) {
                Ok(token) => finished matches Ok(out) && out.access_token@ == token,
                Err(e) => finished matches Err(f) && f == e,
            },
    {
        self.login.finish_login(&mut self.store, request_code, outcome)
    }

    /// Ends the session: the token is dropped, and the report says whether
    /// the persisted file went with it. Where there was no file, the report
    /// is `NotLoggedIn`.
    pub fn logout(&mut self, removal: FileRemoval) -> (done: Result<(), SessionError>)
        ensures
            final(self)@ == (SessionView { token: None, ..old(self)@ }),
            done == clear_result(removal),
    {
        self.store.clear(removal)
    }

    /// The token of the session. `NotLoggedIn` where none is held.
    pub fn get_access_token(&self) -> (token: Result<String, SessionError>)
        ensures
            match self@.token {
                Some(held) => token matches Ok(t) && t@ == held,
                None => token matches Err(e) && e == SessionError::NotLoggedIn,
            },
    {
        match self.store.get() {
            Some(t) => Ok(t),
            None => Err(SessionError::NotLoggedIn),
        }
    }

    /// Says what a caller that lists the articles does next. Listing waits
    /// for the login: the call is described where a token is held, the
    /// pending attempt is to be joined where none is, and where nothing is
    /// pending the answer is `NoLoginInProgress`. Nothing is changed.
    pub fn list_step(&self) -> (step: ListStep)
        ensures
            step@ == list_step_for(self@.consumer_key, self@.token, self@.login),
    {
        match self.wait_login() {
            WaitStep::Ready(output) => ListStep::Call(
                list_call(self.config.consumer_key.as_str(), output.access_token.as_str()),
            ),
            WaitStep::Join(attempt) => ListStep::Join(attempt),
            WaitStep::Fail(e) => ListStep::Fail(e),
        }
    }

    /// Describes the call that lists the saved articles, for a caller that
    /// has waited for the login. `NotLoggedIn` where no token is held.
    pub fn list_call(&self) -> (call: Result<RemoteCall, SessionError>)
        ensures
            match list_call_for(self@.consumer_key, self@.token) {
                Ok(expected) => call matches Ok(c) && c@ == expected,
                Err(e) => call matches Err(f) && f == e,
            },
    {
        match self.get_access_token() {
            Ok(token) => Ok(list_call(self.config.consumer_key.as_str(), token.as_str())),
            Err(e) => Err(e),
        }
    }

    /// Makes the listing out of the items that the service returned.
    pub fn list(&self, response: GetResponse) -> (output: ListOutput)
        ensures
            article_views(output.articles@) == articles_of(response.list@),
    {
        ListOutput { articles: response.into() }
    }

    /// Describes the call that tags the given articles as delivered.
    /// `NotLoggedIn` where no token is held.
    pub fn mark_as_sent(&self, input: MarkAsSentInput) -> (call: Result<RemoteCall, SessionError>)
        ensures
            match mark_call_for(self@.consumer_key, self@.token, id_views(input.ids@)) {
                Ok(expected) => call matches Ok(c) && c@ == expected,
                Err(e) => call matches Err(f) && f == e,
            },
    {
        match self.get_access_token() {
            Ok(token) => {
                let actions = actions_json(&input.ids);
                Ok(
                    modify_call(
                        self.config.consumer_key.as_str(),
                        token.as_str(),
                        actions.as_str(),
                    ),
                )
            },
            Err(e) => Err(e),
        }
    }
}

/// Listing waits for the login before it calls. Without a token and with
/// nothing pending no call is made: no login is in progress. With an
/// attempt pending that attempt is joined first. With a token the call is
/// the listing call with that token.
pub proof fn lemma_listing_waits_for_login(
    consumer_key: Seq<char>,
    token: Option<Seq<char>>,
    login: LoginStateView,
)
    ensures
        token is None && pending_attempt(login) is None ==> list_step_for(
            consumer_key,
            token,
            login,
        ) == ListStepView::Fail(SessionError::NoLoginInProgress),
        token is None && pending_attempt(login) is Some ==> list_step_for(
            consumer_key,
            token,
            login,
        ) == ListStepView::Join(pending_attempt(login).unwrap()),
        token matches Some(t) ==> list_step_for(consumer_key, token, login) == ListStepView::Call(
            list_call_spec(consumer_key, t),
        ),
{
}

} // verus!
