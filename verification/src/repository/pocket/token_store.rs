//! The access token of the current session, and its persisted form.
//!
//! The store never touches the disk. Whoever does hands it the text that was
//! read, takes from it the text to write, and reports how a removal went.

use crate::domain::article::text_of;
use crate::error::SessionError;
use crate::repository::pocket::{state_text, state_token, PocketRepositoryState};
use vstd::prelude::*;

verus! {

/// How the removal of the persisted session went.
#[derive(Clone, Copy, Debug, PartialEq, Eq, Structural)]
pub enum FileRemoval {
    /// The file is gone.
    Removed,
    /// There was no file.
    Missing,
    /// The file system refused for another reason.
    Failed,
}

/// The token held after the persisted text `file` was loaded over `token`.
/// No file and an unreadable file both leave the token as it was.
pub open spec fn loaded_token(token: Option<Seq<char>>, file: Option<Seq<char>>) -> Option<
    Seq<char>,
> {
    match file {
        None => token,
        Some(text) => match state_token(text) {
            Some(found) => Some(found),
            None => token,
        },
    }
}

/// Whether loading the persisted text `file` succeeds: no file is no error,
/// a file that cannot be decoded is one.
pub open spec fn load_result(file: Option<Seq<char>>) -> Result<(), SessionError> {
    match file {
        Some(text) if state_token(text) is None => Err(SessionError::DeserializationError),
        _ => Ok(()),
    }
}

/// What a store holding `token` writes to disk: nothing can be saved where
/// nothing is held.
pub open spec fn saved_text(token: Option<Seq<char>>) -> Result<Seq<char>, SessionError> {
    match token {
        Some(t) => Ok(state_text(t)),
        None => Err(SessionError::NotLoggedIn),
    }
}

/// What clearing reports: a session that was never persisted cannot be
/// removed, and says so.
pub open spec fn clear_result(removal: FileRemoval) -> Result<(), SessionError> {
    match removal {
        FileRemoval::Removed => Ok(()),
        FileRemoval::Missing => Err(SessionError::NotLoggedIn),
        FileRemoval::Failed => Err(SessionError::IoError),
    }
}

/// One use of a store.
pub enum StoreOp {
    /// Read the token.
    Get,
    /// Replace the token.
    Put(Seq<char>),
    /// Load the persisted text, if a file was found.
    Load(Option<Seq<char>>),
    /// Produce the text to persist.
    Save,
    /// End the session.
    Clear(FileRemoval),
}

/// The token held after `op` was applied to a store holding `token`.
pub open spec fn token_after(token: Option<Seq<char>>, op: StoreOp) -> Option<Seq<char>> {
    match op {
        StoreOp::Get => token,
        StoreOp::Put(t) => Some(t),
        StoreOp::Load(file) => loaded_token(token, file),
        StoreOp::Save => token,
        StoreOp::Clear(_) => None,
    }
}

/// The token held after `ops` were applied in order.
pub open spec fn token_after_all(token: Option<Seq<char>>, ops: Seq<StoreOp>) -> Option<Seq<char>>
    decreases ops.len(),
{
    if ops.len() == 0 {
        token
    } else {
        token_after_all(token_after(token, ops[0]), ops.drop_first())
    }
}

/// Whether `op` leaves every token as it is: it neither sets nor clears, nor
/// loads a file that holds a session.
pub open spec fn keeps_token(op: StoreOp) -> bool {
    match op {
        StoreOp::Get => true,
        StoreOp::Save => true,
        StoreOp::Load(file) => file matches Some(text) ==> state_token(text) is None,
        StoreOp::Put(_) => false,
        StoreOp::Clear(_) => false,
    }
}

/// The in-memory cache of the access token.
#[derive(Debug)]
pub struct TokenStore {
    access_token: Option<String>,
}

impl TokenStore {
    /// The token that is held, if any.
    pub closed spec fn view(&self) -> Option<Seq<char>> {
        text_of(self.access_token)
    }

    /// A store that holds nothing: logged out.
    pub fn new() -> (store: Self)
        ensures
            store@ is None,
    {
        TokenStore { access_token: None }
    }

    /// The token that is held, if any.
    pub fn get(&self) -> (token: Option<String>)
        ensures
            text_of(token) == self@,
            text_of(token) == token_after(self@, StoreOp::Get),
    {
        match &self.access_token {
            Some(t) => Some(t.clone()),
            None => None,
        }
    }

    /// Whether a token is held.
    pub fn is_set(&self) -> (held: bool)
        ensures
            held == self@.is_some(),
    {
        self.access_token.is_some()
    }

    /// Replaces the token.
    pub fn set(&mut self, token: String)
        ensures
            final(self)@ == Some(token@),
            final(self)@ == token_after(old(self)@, StoreOp::Put(token@)),
    {
        self.access_token = Some(token);
    }

    /// The persisted form of what is held. `NotLoggedIn` where nothing is.
    pub fn snapshot(&self) -> (state: Result<PocketRepositoryState, SessionError>)
        ensures
            match self@ {
                Some(token) => state matches Ok(s) && s.access_token@ == token,
                None => state matches Err(e) && e == SessionError::NotLoggedIn,
            },
    {
        match &self.access_token {
            Some(t) => Ok(PocketRepositoryState { access_token: t.clone() }),
            None => Err(SessionError::NotLoggedIn),
        }
    }

    /// Takes over a persisted session.
    pub fn restore(&mut self, state: PocketRepositoryState)
        ensures
            final(self)@ == Some(state.access_token@),
    {
        self.access_token = Some(state.access_token);
    }

    /// Loads the persisted session from the text of its file; `file` is
    /// `None` where no file was found.
    ///
    /// No file is no error and changes nothing. A file that holds a session
    /// replaces the token. A file that cannot be decoded changes nothing and
    /// is a `DeserializationError`.
    pub fn load_from_disk(&mut self, file: Option<&str>) -> (done: Result<(), SessionError>)
        ensures
            final(self)@ == loaded_token(old(self)@, text_of_file(file)),
            final(self)@ == token_after(old(self)@, StoreOp::Load(text_of_file(file))),
            done == load_result(text_of_file(file)),
    {
        match file {
            None => Ok(()),
            Some(text) => match PocketRepositoryState::from_json(text) {
                Ok(state) => {
                    self.restore(state);
                    Ok(())
                },
                Err(e) => Err(e),
            },
        }
    }

    /// The text to write to the file of the persisted session.
    /// `NotLoggedIn` where no token is held.
    pub fn save_to_disk(&self) -> (text: Result<String, SessionError>)
        ensures
            match saved_text(self@) {
                Ok(expected) => text matches Ok(t) && t@ == expected,
                Err(e) => text matches Err(f) && f == e,
            },
    {
        match self.snapshot() {
            Ok(state) => Ok(state.to_json()),
            Err(e) => Err(e),
        }
    }

    /// Ends the session: the token is dropped, and the report says whether
    /// the persisted file went with it.
    pub fn clear(&mut self, removal: FileRemoval) -> (done: Result<(), SessionError>)
        ensures
            final(self)@ is None,
            final(self)@ == token_after(old(self)@, StoreOp::Clear(removal)),
            done == clear_result(removal),
    {
        self.access_token = None;
        match removal {
            FileRemoval::Removed => Ok(()),
            FileRemoval::Missing => Err(SessionError::NotLoggedIn),
            FileRemoval::Failed => Err(SessionError::IoError),
        }
    }
}

/// Saves `token` from one store and loads what was saved into a fresh one;
/// tells whether the fresh store then holds `token`.
pub fn round_trips(token: &str) -> (same: bool)
    ensures
        same == (state_token(state_text(token@)) == Some(token@)),
        same == (loaded_token(None, Some(state_text(token@))) == Some(token@)),
{
    let wanted = token.to_owned();
    let mut store = TokenStore::new();
    store.set(token.to_owned());
    let mut fresh = TokenStore::new();
    match store.save_to_disk() {
        Ok(text) => {
            match fresh.load_from_disk(Some(text.as_str())) {
                Ok(_) => match fresh.get() {
                    Some(found) => found == wanted,
                    None => false,
                },
                Err(_) => false,
            }
        },
        Err(_) => false,
    }
}

/// The text of a file that may be absent.
pub open spec fn text_of_file(file: Option<&str>) -> Option<Seq<char>> {
    match file {
        Some(text) => Some(text@),
        None => None,
    }
}

/// Once a token is set, it is what the store holds for as long as nothing
/// sets, clears or loads a persisted session over it.
pub proof fn lemma_token_stays(before: Option<Seq<char>>, token: Seq<char>, ops: Seq<StoreOp>)
    requires
        forall|i: int| 0 <= i < ops.len() ==> keeps_token(#[trigger] ops[i]),
    ensures
        token_after_all(token_after(before, StoreOp::Put(token)), ops) == Some(token),
    decreases ops.len(),
{
    lemma_kept(Some(token), ops);
}

/// Uses that keep the token leave the store as it was.
pub proof fn lemma_kept(held: Option<Seq<char>>, ops: Seq<StoreOp>)
    requires
        forall|i: int| 0 <= i < ops.len() ==> keeps_token(#[trigger] ops[i]),
    ensures
        token_after_all(held, ops) == held,
    decreases ops.len(),
{
    if ops.len() > 0 {
        assert(keeps_token(ops[0]));
        let rest = ops.drop_first();
        assert forall|i: int| 0 <= i < rest.len() implies keeps_token(#[trigger] rest[i]) by {
            assert(rest[i] == ops[i + 1]);
        }
        lemma_kept(held, rest);
    }
}

/// Loading where no file exists changes nothing and is no error.
pub proof fn lemma_load_missing(held: Option<Seq<char>>)
    ensures
        loaded_token(held, None) == held,
        load_result(None) == Ok::<(), SessionError>(()),
{
}

/// For a token that the decoder reads back from what the encoder wrote for
/// it, a fresh store that loads what a store holding the token saved holds
/// that token, and reports no error.
pub proof fn lemma_load_of_saved(token: Seq<char>)
    requires
        state_token(state_text(token)) == Some(token),
    ensures
        saved_text(Some(token)) == Ok::<Seq<char>, SessionError>(state_text(token)),
        loaded_token(None, Some(state_text(token))) == Some(token),
        load_result(Some(state_text(token))) == Ok::<(), SessionError>(()),
{
}

} // verus!
