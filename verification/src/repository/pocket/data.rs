//! The shapes in which the article service lists and modifies articles.

use crate::domain::article::text_of;
use crate::domain::article::article_views;
use crate::domain::{Article, ArticleView};
use crate::json::{json_quoted, literal_of};
use vstd::prelude::*;
use vstd::string::*;

verus! {

/// The identifier of a saved item.
pub type ItemId = String;

/// The key of an image within its item.
pub type ImageId = String;

/// The key of the image that serves as cover.
pub const COVER_IMAGE_KEY: &'static str = "1";

/// The tag that marks an article as delivered.
pub const SENT_TAG: &'static str = "sent-to-kindle";

/// An image of a saved item.
#[derive(Debug, PartialEq, Eq)]
pub struct Image {
    pub item_id: ItemId,
    pub image_id: ImageId,
    pub src: String,
}

/// A saved item, as far as an article is made of it. `images` holds the
/// images by their key; in a well-formed item each key occurs once.
#[derive(Debug, PartialEq, Eq)]
pub struct Item {
    pub item_id: ItemId,
    pub given_url: String,
    pub given_title: String,
    pub excerpt: String,
    pub images: Option<Vec<(ImageId, Image)>>,
}

/// The reply that lists the saved items; in a well-formed reply each
/// identifier occurs once.
#[derive(Debug, PartialEq, Eq)]
pub struct GetResponse {
    pub list: Vec<Item>,
}

/// The source of the first image in `images` that is kept under `key`.
pub open spec fn image_source(images: Seq<(ImageId, Image)>, key: Seq<char>) -> Option<Seq<char>>
    decreases images.len(),
{
    if images.len() == 0 {
        None
    } else if images[0].0@ == key {
        Some(images[0].1.src@)
    } else {
        image_source(images.drop_first(), key)
    }
}

/// The cover of an item: the source of its image under `COVER_IMAGE_KEY`.
pub open spec fn cover_of(images: Option<Vec<(ImageId, Image)>>) -> Option<Seq<char>> {
    match images {
        Some(list) => image_source(list@, COVER_IMAGE_KEY@),
        None => None,
    }
}

/// The article that is made of an item: its excerpt stands for the contents
/// until the page has been rewritten.
pub open spec fn article_of(item: Item) -> ArticleView {
    ArticleView {
        id: item.item_id@,
        title: item.given_title@,
        url: item.given_url@,
        cover: cover_of(item.images),
        contents: item.excerpt@,
    }
}

/// The articles that are made of a list of items, in order.
pub open spec fn articles_of(items: Seq<Item>) -> Seq<ArticleView> {
    items.map_values(|item: Item| article_of(item))
}

/// The JSON object that tags as delivered the item whose identifier has
/// the JSON string literal `literal`.
pub open spec fn action_frame(literal: Seq<char>) -> Seq<char> {
    "{\"action\":\"tags_add\",\"tags\":\"sent-to-kindle\",\"item_id\":"@ + literal + "}"@
}

/// The actions for the identifiers with the literals `literals`, separated
/// by commas.
pub open spec fn actions_joined(literals: Seq<Seq<char>>) -> Seq<char>
    decreases literals.len(),
{
    if literals.len() == 0 {
        Seq::<char>::empty()
    } else if literals.len() == 1 {
        action_frame(literals[0])
    } else {
        actions_joined(literals.drop_last()) + ","@ + action_frame(literals.last())
    }
}

/// The JSON array of the actions for the identifiers with the literals
/// `literals`.
pub open spec fn actions_frame(literals: Seq<Seq<char>>) -> Seq<char> {
    "["@ + actions_joined(literals) + "]"@
}

/// The JSON string literals of `ids`, in order.
pub open spec fn quoted_all(ids: Seq<Seq<char>>) -> Seq<Seq<char>> {
    ids.map_values(|id: Seq<char>| json_quoted(id))
}

/// The JSON array of the actions that tag each of `ids` as delivered.
pub open spec fn actions_text(ids: Seq<Seq<char>>) -> Seq<char> {
    actions_frame(quoted_all(ids))
}

/// Whether no key occurs twice in `images`: the images of an item are kept
/// by key.
pub open spec fn keys_distinct(images: Seq<(ImageId, Image)>) -> bool {
    forall|i: int, j: int|
        0 <= i < j < images.len() ==> (#[trigger] images[i]).0@ != (#[trigger] images[j]).0@
}

/// Whether no identifier occurs twice in `items`: a listing keeps its
/// items by identifier.
pub open spec fn ids_distinct(items: Seq<Item>) -> bool {
    forall|i: int, j: int|
        0 <= i < j < items.len() ==> (#[trigger] items[i]).item_id@ != (#[trigger] items[j]).item_id@
}

/// The text of a list of identifiers.
pub open spec fn id_views(ids: Seq<String>) -> Seq<Seq<char>> {
    ids.map_values(|id: String| id@)
}

/// Finds the source of the image kept under `key`.
fn find_image_source(images: &Vec<(ImageId, Image)>, key: &str) -> (source: Option<String>)
    ensures
        text_of(source) == image_source(images@, key@),
{
    let wanted = key.to_owned();
    let mut i: usize = 0;
    assert(images@.skip(0) =~= images@);
    while i < images.len()
        invariant
            i <= images.len(),
            wanted@ == key@,
            image_source(images@, key@) == image_source(images@.skip(i as int), key@),
        decreases images.len() - i,
    {
        let ghost rest = images@.skip(i as int);
        assert(rest[0] == images@[i as int]);
        assert(rest.drop_first() =~= images@.skip(i + 1));
        if images[i].0 == wanted {
            return Some(images[i].1.src.clone());
        }
        i += 1;
    }
    assert(images@.skip(i as int).len() == 0);
    None
}

impl Item {
    /// Makes the article of this item.
    pub fn to_article(&self) -> (article: Article)
        ensures
            article@ == article_of(*self),
    {
        let cover = match &self.images {
            Some(list) => find_image_source(list, COVER_IMAGE_KEY),
            None => None,
        };
        Article {
            id: self.item_id.clone(),
            title: self.given_title.clone(),
            url: self.given_url.clone(),
            contents: self.excerpt.clone(),
            cover,
        }
    }
}

impl GetResponse {
    /// Makes the articles of the listed items, in the order of the list.
    pub fn into(self) -> (articles: Vec<Article>)
        ensures
            article_views(articles@) == articles_of(self.list@),
    {
        let mut ret: Vec<Article> = Vec::new();
        let mut i: usize = 0;
        while i < self.list.len()
            invariant
                i <= self.list.len(),
                ret@.len() == i,
                article_views(ret@) == articles_of(self.list@.take(i as int)),
            decreases self.list.len() - i,
        {
            let article = self.list[i].to_article();
            let ghost views = article_views(ret@);
            ret.push(article);
            assert(article_views(ret@) =~= views.push(article_of(self.list@[i as int])));
            assert(articles_of(self.list@.take(i + 1)) =~= articles_of(
                self.list@.take(i as int),
            ).push(article_of(self.list@[i as int])));
            i += 1;
        }
        assert(self.list@.take(i as int) =~= self.list@);
        ret
    }
}

impl Item {
    /// Whether the images are kept by key, each key once.
    pub open spec fn well_formed(&self) -> bool {
        match self.images {
            Some(list) => keys_distinct(list@),
            None => true,
        }
    }
}

impl GetResponse {
    /// Whether the listing keeps its items by identifier, each once, and
    /// each item its images by key.
    pub open spec fn well_formed(&self) -> bool {
        &&& ids_distinct(self.list@)
        &&& forall|i: int| 0 <= i < self.list@.len() ==> (#[trigger] self.list@[i]).well_formed()
    }
}

/// Where each key occurs once, the image found under a key is the one
/// image that is kept under it, wherever it stands.
pub proof fn lemma_image_under_key(images: Seq<(ImageId, Image)>, key: Seq<char>, at: int)
    requires
        keys_distinct(images),
        0 <= at < images.len(),
        images[at].0@ == key,
    ensures
        image_source(images, key) == Some(images[at].1.src@),
    decreases images.len(),
{
    if at > 0 {
        let rest = images.drop_first();
        assert(images[0].0@ != images[at].0@);
        assert forall|i: int, j: int| 0 <= i < j < rest.len() implies (#[trigger] rest[i]).0@ != (
        #[trigger] rest[j]).0@ by {
            assert(rest[i] == images[i + 1]);
            assert(rest[j] == images[j + 1]);
        }
        assert(rest[at - 1] == images[at]);
        lemma_image_under_key(rest, key, at - 1);
    }
}

/// Where no image is kept under a key, none is found.
pub proof fn lemma_no_image_under_key(images: Seq<(ImageId, Image)>, key: Seq<char>)
    requires
        forall|i: int| 0 <= i < images.len() ==> (#[trigger] images[i]).0@ != key,
    ensures
        image_source(images, key) is None,
    decreases images.len(),
{
    if images.len() > 0 {
        let rest = images.drop_first();
        assert(images[0].0@ != key);
        assert forall|i: int| 0 <= i < rest.len() implies (#[trigger] rest[i]).0@ != key by {
            assert(rest[i] == images[i + 1]);
        }
        lemma_no_image_under_key(rest, key);
    }
}

/// The articles of a listing in which each identifier occurs once have
/// each identifier once.
pub proof fn lemma_articles_keep_ids_distinct(items: Seq<Item>)
    requires
        ids_distinct(items),
    ensures
        forall|i: int, j: int|
            0 <= i < j < items.len() ==> (#[trigger] articles_of(items)[i]).id != (
            #[trigger] articles_of(items)[j]).id,
{
    assert forall|i: int, j: int| 0 <= i < j < items.len() implies (#[trigger] articles_of(
        items,
    )[i]).id != (#[trigger] articles_of(items)[j]).id by {
        assert(items[i].item_id@ != items[j].item_id@);
    }
}

/// Writes the JSON array of the actions that tag items as delivered,
/// around the JSON string literals of their identifiers.
pub fn actions_of_literals(literals: &Vec<String>) -> (text: String)
    ensures
        text@ == actions_frame(id_views(literals@)),
{
    let mut text = "[".to_owned();
    let mut i: usize = 0;
    while i < literals.len()
        invariant
            i <= literals.len(),
            text@ == "["@ + actions_joined(id_views(literals@).take(i as int)),
        decreases literals.len() - i,
    {
        let ghost before = id_views(literals@).take(i as int);
        let ghost after = id_views(literals@).take(i + 1);
        proof {
            assert(after.drop_last() =~= before);
            assert(after.last() == literals@[i as int]@);
        }
        if i > 0 {
            text.append(",");
        }
        text.append("{\"action\":\"tags_add\",\"tags\":\"sent-to-kindle\",\"item_id\":");
        text.append(literals[i].as_str());
        text.append("}");
        assert(text@ =~= "["@ + actions_joined(after));
        i += 1;
    }
    assert(id_views(literals@).take(i as int) =~= id_views(literals@));
    text.append("]");
    text
}

/// Writes the JSON array of the actions that tag each of `ids` as delivered.
pub fn actions_json(ids: &Vec<ItemId>) -> (text: String)
    ensures
        text@ == actions_text(id_views(ids@)),
{
    let mut literals: Vec<String> = Vec::new();
    let mut i: usize = 0;
    while i < ids.len()
        invariant
            i <= ids.len(),
            literals@.len() == i,
            id_views(literals@) == quoted_all(id_views(ids@).take(i as int)),
        decreases ids.len() - i,
    {
        let ghost before = id_views(literals@);
        literals.push(literal_of(ids[i].as_str()));
        assert(id_views(literals@) =~= before.push(json_quoted(ids@[i as int]@)));
        assert(quoted_all(id_views(ids@).take(i + 1)) =~= quoted_all(
            id_views(ids@).take(i as int),
        ).push(json_quoted(ids@[i as int]@)));
        i += 1;
    }
    assert(id_views(ids@).take(i as int) =~= id_views(ids@));
    actions_of_literals(&literals)
}

} // verus!
