//! The interface to the service that keeps the saved articles.

use crate::domain::{Article, ArticleId};
use crate::error::SessionError;
use vstd::prelude::*;

verus! {

/// The articles to mark as delivered.
#[derive(Debug, PartialEq, Eq)]
pub struct MarkAsSentInput {
    pub ids: Vec<ArticleId>,
}

/// Where the user gives consent.
#[derive(Debug, PartialEq, Eq)]
pub struct StartLoginOutput {
    pub auth_url: String,
}

/// The token that a completed login yields.
#[derive(Debug, PartialEq, Eq)]
pub struct WaitLoginOutput {
    pub access_token: String,
}

/// The saved articles.
#[derive(Debug, PartialEq, Eq)]
pub struct ListOutput {
    pub articles: Vec<Article>,
}

/// The session with the article service, and what it gives access to.
pub trait PocketRepository {
    /// Whether an access token is held.
    fn is_login(&self) -> bool;

    /// Takes over a persisted session, if there is one.
    fn load_state(&mut self) -> Result<(), SessionError>;

    /// Persists the current session.
    fn save_state(&mut self) -> Result<(), SessionError>;

    /// Starts a login and says where the user gives consent.
    fn start_login(&mut self) -> Result<StartLoginOutput, SessionError>;

    /// Waits until the login that was started has finished.
    fn wait_login(&mut self) -> Result<WaitLoginOutput, SessionError>;

    /// Ends the session.
    fn logout(&mut self) -> Result<(), SessionError>;

    /// Fetches the saved articles.
    fn list(&mut self) -> Result<ListOutput, SessionError>;

    /// Marks articles as delivered.
    fn mark_as_sent(&mut self, input: MarkAsSentInput) -> Result<(), SessionError>;
}

} // verus!
