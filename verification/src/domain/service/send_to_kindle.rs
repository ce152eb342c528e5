//! What the presentation layer can ask to have delivered.

use crate::domain::Article;
use crate::error::SessionError;
use vstd::prelude::*;

verus! {

/// The delivery offered to the presentation layer.
pub trait SendToKindleService {
    /// Marks the articles as delivered, rewrites each and sends them on.
    fn send(&mut self, input: SendInput) -> Result<SendOutput, SessionError>;
}

/// The articles to deliver.
#[derive(Debug, PartialEq, Eq)]
pub struct SendInput {
    pub articles: Vec<Article>,
}

/// The acknowledgement of a delivery.
#[derive(Debug, PartialEq, Eq)]
pub struct SendOutput {}

} // verus!
