//! A saved article.

use vstd::prelude::*;

verus! {

/// The identifier that the remote service gives an article.
pub type ArticleId = String;

/// One saved article, with the text that is sent on to the reader device.
#[derive(Debug, PartialEq, Eq)]
pub struct Article {
    pub id: ArticleId,
    pub title: String,
    pub url: String,
    pub cover: Option<String>,
    pub contents: String,
}

/// What an `Article` holds, as mathematical text.
pub struct ArticleView {
    pub id: Seq<char>,
    pub title: Seq<char>,
    pub url: Seq<char>,
    pub cover: Option<Seq<char>>,
    pub contents: Seq<char>,
}

/// The text of an optional string.
pub open spec fn text_of(value: Option<String>) -> Option<Seq<char>> {
    match value {
        Some(s) => Some(s@),
        None => None,
    }
}

impl View for Article {
    type V = ArticleView;

    open spec fn view(&self) -> ArticleView {
        ArticleView {
            id: self.id@,
            title: self.title@,
            url: self.url@,
            cover: text_of(self.cover),
            contents: self.contents@,
        }
    }
}

impl Clone for Article {
    fn clone(&self) -> (copy: Self)
        ensures
            copy@ == self@,
    {
        let cover = match &self.cover {
            Some(c) => Some(c.clone()),
            None => None,
        };
        Article {
            id: self.id.clone(),
            title: self.title.clone(),
            url: self.url.clone(),
            cover,
            contents: self.contents.clone(),
        }
    }
}

/// The views of a list of articles, in order.
pub open spec fn article_views(articles: Seq<Article>) -> Seq<ArticleView> {
    articles.map_values(|a: Article| a@)
}

} // verus!
