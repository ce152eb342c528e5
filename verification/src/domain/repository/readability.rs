//! The interface to the renderer that extracts the readable part of a page.

use crate::domain::Article;
use crate::error::SessionError;
use vstd::prelude::*;

verus! {

/// The article whose page is to be rewritten.
#[derive(Debug, PartialEq, Eq)]
pub struct ConvertInput {
    pub article: Article,
}

/// The article with its readable contents.
#[derive(Debug, PartialEq, Eq)]
pub struct ConvertOutput {
    pub article: Article,
}

/// Rewrites the page of an article into its readable contents.
pub trait ReadabilityRepository {
    /// Fetches and rewrites the page of one article.
    fn convert(&mut self, input: ConvertInput) -> Result<ConvertOutput, SessionError>;
}

} // verus!
