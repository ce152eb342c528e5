//! The interface to the reader device.

use crate::domain::Article;
use crate::error::SessionError;
use vstd::prelude::*;

verus! {

/// The articles of one delivery.
#[derive(Debug, PartialEq, Eq)]
pub struct SendInput {
    pub articles: Vec<Article>,
}

/// Delivers articles to the reader device.
pub trait KindleRepository {
    /// Sends the articles as one document.
    fn send(&mut self, input: SendInput) -> Result<(), SessionError>;
}

} // verus!
