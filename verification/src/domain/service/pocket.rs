//! What the presentation layer can ask about the session and the articles.

use crate::domain::Article;
use crate::error::SessionError;
use vstd::prelude::*;

verus! {

/// The session operations offered to the presentation layer.
pub trait PocketService {
    /// Reports whether a session exists, after taking over a persisted one.
    fn is_login(&mut self) -> Result<IsLoginOutput, SessionError>;

    /// Ends the session.
    fn logout(&mut self) -> Result<(), SessionError>;

    /// Starts a login and says where the user gives consent.
    fn start_login(&mut self) -> Result<StartLoginOutput, SessionError>;

    /// Fetches the saved articles and persists the session that served them.
    fn list(&mut self) -> Result<ListOutput, SessionError>;
}

/// Whether a session exists.
#[derive(Debug, PartialEq, Eq)]
pub struct IsLoginOutput {
    pub is_login: bool,
}

/// Where the user gives consent.
#[derive(Debug, PartialEq, Eq)]
pub struct StartLoginOutput {
    pub auth_url: String,
}

/// The saved articles.
#[derive(Debug, PartialEq, Eq)]
pub struct ListOutput {
    pub articles: Vec<Article>,
}

} // verus!
