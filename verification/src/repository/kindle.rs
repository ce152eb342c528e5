//! The delivery to the reader device: the articles become one e-book, and
//! the e-book becomes the attachment of a mail.
//!
//! The e-book is assembled by `epub_builder`. The mail is described here and
//! sent elsewhere.

use crate::domain::repository::kindle::SendInput;
use crate::domain::Article;
use crate::error::SessionError;
use vstd::prelude::*;
use vstd::string::*;

verus! {

/// What stands before the contents of an article in its page.
pub const PAGE_HEAD: &'static str =
    "<?xml version=\"1.0\" encoding=\"UTF-8\"?>\n<html xmlns=\"http://www.w3.org/1999/xhtml\" xmlns:epub=\"http://www.idpf.org/2007/ops\">\n<body>\n";

/// What stands after the contents of an article in its page.
pub const PAGE_TAIL: &'static str = "\n</body>\n</html>";

/// The ending of the file name of a page.
pub const PAGE_SUFFIX: &'static str = ".xhtml";

/// The title of the e-book.
pub const BOOK_TITLE: &'static str = "Pocket";

/// The author of the e-book.
pub const BOOK_AUTHOR: &'static str = "tkat0";

/// The subject of the mail.
pub const MAIL_SUBJECT: &'static str = "Send Pocket articles to Kindle";

/// The host that relays the mail.
pub const MAIL_RELAY: &'static str = "smtp.gmail.com";

/// The file name of the attachment.
pub const ATTACHMENT_NAME: &'static str = "pocket.epub";

/// The media type of the attachment.
pub const ATTACHMENT_TYPE: &'static str = "application/epub+zip";

/// An e-book under construction: an `EpubBuilder` over a `ZipLibrary`,
/// opaque to the verifier. The builder is generic over a trait that its
/// crate keeps to itself, so the type cannot be declared as it stands and
/// is held here instead.
#[verifier::external_body]
struct Book {
    inner: epub_builder::EpubBuilder<epub_builder::ZipLibrary>,
}

/// The archive that an e-book is written into, opaque to the verifier.
#[verifier::external_type_specification]
#[verifier::external_body]
pub struct ExZipLibrary(epub_builder::ZipLibrary);

/// The error that `epub_builder` reports, opaque to the verifier.
#[verifier::external_type_specification]
#[verifier::external_body]
pub struct ExEpubError(epub_builder::Error);

/// The role that a page plays in an e-book.
#[verifier::external_type_specification]
pub struct ExReferenceType(epub_builder::ReferenceType);

/// Calls `ZipLibrary::new`, which starts an archive in memory; claims nothing of it.
#[verifier::external_body]
fn new_archive() -> Result<epub_builder::ZipLibrary, epub_builder::Error> {
    epub_builder::ZipLibrary::new()
}

/// Calls `EpubBuilder::new`, which starts an e-book in the archive; claims nothing of it.
#[verifier::external_body]
fn new_book(archive: epub_builder::ZipLibrary) -> Result<Book, epub_builder::Error> {
    match epub_builder::EpubBuilder::new(archive) {
        Ok(inner) => Ok(Book { inner }),
        Err(e) => Err(e),
    }
}

/// Calls `EpubBuilder::metadata`, which sets one datum or refuses its key; claims nothing.
#[verifier::external_body]
fn set_metadata(book: Book, key: &str, value: &str) -> Result<Book, epub_builder::Error> {
    let mut book = book;
    if let Err(e) = book.inner.metadata(key, value) {
        return Err(e);
    }
    Ok(book)
}

/// Calls `EpubBuilder::inline_toc`, which asks for a table of contents; claims nothing.
#[verifier::external_body]
fn add_inline_toc(book: Book) -> Book {
    let mut book = book;
    book.inner.inline_toc();
    book
}

/// Calls `EpubBuilder::add_content` with a page made by `EpubContent::new`,
/// `title` and `reftype`. Nothing is claimed of the e-book that comes back.
#[verifier::external_body]
fn add_page(
    book: Book,
    chapter: &Chapter,
    role: epub_builder::ReferenceType,
) -> Result<Book, epub_builder::Error> {
    let mut book = book;
    let page = epub_builder::EpubContent::new(chapter.file_name.as_str(), chapter.document.as_bytes())
        .title(chapter.title.as_str())
        .reftype(role);
    if let Err(e) = book.inner.add_content(page) {
        return Err(e);
    }
    Ok(book)
}

/// Calls `EpubBuilder::generate`, which writes the e-book into a byte
/// vector. The bytes hold a date and an identifier made at the time of the
/// call, so nothing is claimed of them.
#[verifier::external_body]
fn generate(book: Book) -> Result<Vec<u8>, epub_builder::Error> {
    let mut bytes: Vec<u8> = Vec::new();
    match book.inner.generate(&mut bytes) {
        Ok(_) => Ok(bytes),
        Err(e) => Err(e),
    }
}

/// What the delivery is configured with.
#[derive(Debug, PartialEq, Eq)]
pub struct KindleRepositoryConfig {
    pub send_to: String,
    pub send_from: String,
    pub password: String,
}

impl Default for KindleRepositoryConfig {
    fn default() -> (config: Self)
        ensures
            config.send_to@ == Seq::<char>::empty(),
            config.send_from@ == Seq::<char>::empty(),
            config.password@ == Seq::<char>::empty(),
    {
        KindleRepositoryConfig {
            send_to: String::new(),
            send_from: String::new(),
            password: String::new(),
        }
    }
}

/// One page of the e-book.
#[derive(Debug, PartialEq, Eq)]
pub struct Chapter {
    pub file_name: String,
    pub title: String,
    pub document: String,
}

/// A `Chapter` as mathematical text.
pub struct ChapterView {
    pub file_name: Seq<char>,
    pub title: Seq<char>,
    pub document: Seq<char>,
}

impl View for Chapter {
    type V = ChapterView;

    open spec fn view(&self) -> ChapterView {
        ChapterView {
            file_name: self.file_name@,
            title: self.title@,
            document: self.document@,
        }
    }
}

/// The mail that carries the e-book.
#[derive(Debug, PartialEq, Eq)]
pub struct Mail {
    pub from: String,
    pub to: String,
    pub subject: String,
    pub relay: String,
    pub user: String,
    pub password: String,
    pub attachment_name: String,
    pub attachment_type: String,
    pub attachment: Vec<u8>,
}

/// The page that shows the contents `contents`.
pub open spec fn page_text(contents: Seq<char>) -> Seq<char> {
    PAGE_HEAD@ + contents + PAGE_TAIL@
}

/// The page of an article: named after its identifier, titled as the
/// article, showing its contents.
pub open spec fn chapter_spec(id: Seq<char>, title: Seq<char>, contents: Seq<char>) -> ChapterView {
    ChapterView { file_name: id + PAGE_SUFFIX@, title, document: page_text(contents) }
}

/// Makes the page of an article.
pub fn chapter_of(article: &Article) -> (chapter: Chapter)
    ensures
        chapter@ == chapter_spec(article@.id, article@.title, article@.contents),
{
    let mut file_name = article.id.clone();
    file_name.append(PAGE_SUFFIX);
    let mut document = PAGE_HEAD.to_owned();
    document.append(article.contents.as_str());
    document.append(PAGE_TAIL);
    Chapter { file_name, title: article.title.clone(), document }
}

/// What an error of the e-book builder means to the caller.
fn book_failure(_error: epub_builder::Error) -> (failure: SessionError)
    ensures
        failure == SessionError::IoError,
{
    SessionError::IoError
}

/// The delivery to the reader device.
#[derive(Debug)]
pub struct KindleRepositoryImpl {
    config: KindleRepositoryConfig,
}

impl KindleRepositoryImpl {
    /// What the delivery is configured with.
    pub closed spec fn config(&self) -> KindleRepositoryConfig {
        self.config
    }

    /// A delivery with the given configuration.
    pub fn new(config: KindleRepositoryConfig) -> (repository: Self)
        ensures
            repository.config() == config,
    {
        KindleRepositoryImpl { config }
    }

    /// Assembles the e-book: titled and signed, with a table of contents
    /// first and one page for each article, in the order of the articles.
    ///
    /// The bytes are those that the builder writes for that book. An
    /// `IoError` is returned where, and only where, the builder refused.
    pub fn create_epub(&self, articles: &Vec<Article>) -> (epub: Result<Vec<u8>, SessionError>)
        ensures
            match epub {
                Ok(bytes) => is_epub_of(articles@, bytes),
                Err(e) => e == SessionError::IoError && epub_refused(articles@),
            },
    {
        let archive = match new_archive() {
            Ok(a) => a,
            Err(e) => {
                assert(refused_at_start());
                return Err(book_failure(e));
            },
        };
        let ghost fresh = archive;
        let started = match new_book(archive) {
            Ok(b) => b,
            Err(e) => {
                assert(call_ensures(new_book, (fresh,), Err::<Book, epub_builder::Error>(e)));
                assert(refused_at_start());
                return Err(book_failure(e));
            },
        };
        let ghost opened = started;
        assert(call_ensures(new_book, (fresh,), Ok::<Book, epub_builder::Error>(opened)));
        assert(begun(opened));
        let titled = match set_metadata(started, TITLE_KEY, BOOK_TITLE) {
            Ok(b) => b,
            Err(e) => {
                assert(call_ensures(
                    set_metadata,
                    (opened, TITLE_KEY, BOOK_TITLE),
                    Err::<Book, epub_builder::Error>(e),
                ));
                assert(refused_at_start());
                return Err(book_failure(e));
            },
        };
        let ghost with_title = titled;
        assert(call_ensures(
            set_metadata,
            (opened, TITLE_KEY, BOOK_TITLE),
            Ok::<Book, epub_builder::Error>(with_title),
        ));
        assert(named(with_title));
        let signed = match set_metadata(titled, AUTHOR_KEY, BOOK_AUTHOR) {
            Ok(b) => b,
            Err(e) => {
                assert(call_ensures(
                    set_metadata,
                    (with_title, AUTHOR_KEY, BOOK_AUTHOR),
                    Err::<Book, epub_builder::Error>(e),
                ));
                assert(refused_at_start());
                return Err(book_failure(e));
            },
        };
        let ghost with_author = signed;
        assert(call_ensures(
            set_metadata,
            (with_title, AUTHOR_KEY, BOOK_AUTHOR),
            Ok::<Book, epub_builder::Error>(with_author),
        ));
        assert(authored(with_author));
        let mut book = add_inline_toc(signed);
        let ghost first = book;
        proof {
            assert(call_ensures(add_inline_toc, (with_author,), first));
            assert(set_up(first));
            assert(chapters_of(articles@.take(0)) =~= Seq::<ChapterView>::empty());
        }
        let mut i: usize = 0;
        while i < articles.len()
            invariant
                i <= articles.len(),
                set_up(first),
                paged(first, chapters_of(articles@.take(i as int)), book),
            decreases articles.len() - i,
        {
            let chapter = chapter_of(&articles[i]);
            let ghost before = book;
            book = match add_page(book, &chapter, epub_builder::ReferenceType::Text) {
                Ok(next) => next,
                Err(e) => {
                    proof {
                        assert(chapter@ == chapters_of(articles@)[i as int]);
                        assert(call_ensures(
                            add_page,
                            (before, &chapter, epub_builder::ReferenceType::Text),
                            Err::<Book, epub_builder::Error>(e),
                        ));
                        assert(refused_page(articles@));
                    }
                    return Err(book_failure(e));
                },
            };
            proof {
                let pages = chapters_of(articles@.take(i + 1));
                assert(pages.drop_last() =~= chapters_of(articles@.take(i as int)));
                assert(pages.last() == chapter@);
                assert(call_ensures(
                    add_page,
                    (before, &chapter, epub_builder::ReferenceType::Text),
                    Ok::<Book, epub_builder::Error>(book),
                ));
                assert(paged(first, pages, book));
            }
            i += 1;
        }
        let ghost last = book;
        assert(articles@.take(i as int) =~= articles@);
        match generate(book) {
            Ok(bytes) => {
                assert(call_ensures(generate, (last,), Ok::<Vec<u8>, epub_builder::Error>(bytes)));
                assert(is_epub_of(articles@, bytes));
                Ok(bytes)
            },
            Err(e) => {
                assert(call_ensures(generate, (last,), Err::<Vec<u8>, epub_builder::Error>(e)));
                assert(refused_writing(articles@));
                Err(book_failure(e))
            },
        }
    }

    /// Makes the mail that delivers the articles: from the configured
    /// sender to the configured device, with the e-book of the articles as
    /// its one attachment.
    pub fn send(&self, input: SendInput) -> (mail: Result<Mail, SessionError>)
        ensures
            match mail {
                Ok(m) => {
                    &&& m.from@ == self.config().send_from@
                    &&& m.to@ == self.config().send_to@
                    &&& m.user@ == self.config().send_from@
                    &&& m.password@ == self.config().password@
                    &&& m.subject@ == MAIL_SUBJECT@
                    &&& m.relay@ == MAIL_RELAY@
                    &&& m.attachment_name@ == ATTACHMENT_NAME@
                    &&& m.attachment_type@ == ATTACHMENT_TYPE@
                    &&& is_epub_of(input.articles@, m.attachment)
                },
                Err(e) => e == SessionError::IoError && epub_refused(input.articles@),
            },
    {
        match self.create_epub(&input.articles) {
            Ok(attachment) => Ok(
                Mail {
                    from: self.config.send_from.clone(),
                    to: self.config.send_to.clone(),
                    subject: MAIL_SUBJECT.to_owned(),
                    relay: MAIL_RELAY.to_owned(),
                    user: self.config.send_from.clone(),
                    password: self.config.password.clone(),
                    attachment_name: ATTACHMENT_NAME.to_owned(),
                    attachment_type: ATTACHMENT_TYPE.to_owned(),
                    attachment,
                },
            ),
            Err(e) => Err(e),
        }
    }
}

/// The metadata key of the title of an e-book.
pub const TITLE_KEY: &'static str = "title";

/// The metadata key of the author of an e-book.
pub const AUTHOR_KEY: &'static str = "author";

/// The pages of `articles`, in order.
pub open spec fn chapters_of(articles: Seq<Article>) -> Seq<ChapterView> {
    articles.map_values(|a: Article| chapter_spec(a@.id, a@.title, a@.contents))
}

/// Whether `book` is an e-book that the builder started in a new archive.
spec fn begun(book: Book) -> bool {
    exists|archive: epub_builder::ZipLibrary|
        {
            &&& call_ensures(
                new_archive,
                (),
                Ok::<epub_builder::ZipLibrary, epub_builder::Error>(archive),
            )
            &&& #[trigger] call_ensures(new_book, (archive,), Ok::<Book, epub_builder::Error>(book))
        }
}

/// Whether `book` is a new e-book that took `BOOK_TITLE` as its title.
spec fn named(book: Book) -> bool {
    exists|before: Book|
        {
            &&& begun(before)
            &&& #[trigger] call_ensures(
                set_metadata,
                (before, TITLE_KEY, BOOK_TITLE),
                Ok::<Book, epub_builder::Error>(book),
            )
        }
}

/// Whether `book` is a new, titled e-book that took `BOOK_AUTHOR` as its
/// author.
spec fn authored(book: Book) -> bool {
    exists|before: Book|
        {
            &&& named(before)
            &&& #[trigger] call_ensures(
                set_metadata,
                (before, AUTHOR_KEY, BOOK_AUTHOR),
                Ok::<Book, epub_builder::Error>(book),
            )
        }
}

/// Whether `book` is an e-book as `create_epub` sets it up: the builder
/// started it in a new archive, took `BOOK_TITLE` as its title and
/// `BOOK_AUTHOR` as its author, and was asked for a table of contents.
spec fn set_up(book: Book) -> bool {
    exists|before: Book|
        {
            &&& authored(before)
            &&& #[trigger] call_ensures(add_inline_toc, (before,), book)
        }
}

/// Whether the builder refused before the first page: the archive, the
/// e-book, the title or the author.
spec fn refused_at_start() -> bool {
    ||| exists|e: epub_builder::Error| #[trigger]
        call_ensures(new_archive, (), Err::<epub_builder::ZipLibrary, epub_builder::Error>(e))
    ||| exists|archive: epub_builder::ZipLibrary, e: epub_builder::Error|
        {
            &&& call_ensures(
                new_archive,
                (),
                Ok::<epub_builder::ZipLibrary, epub_builder::Error>(archive),
            )
            &&& #[trigger] call_ensures(new_book, (archive,), Err::<Book, epub_builder::Error>(e))
        }
    ||| exists|before: Book, e: epub_builder::Error|
        {
            &&& begun(before)
            &&& #[trigger] call_ensures(
                set_metadata,
                (before, TITLE_KEY, BOOK_TITLE),
                Err::<Book, epub_builder::Error>(e),
            )
        }
    ||| exists|before: Book, e: epub_builder::Error|
        {
            &&& named(before)
            &&& #[trigger] call_ensures(
                set_metadata,
                (before, AUTHOR_KEY, BOOK_AUTHOR),
                Err::<Book, epub_builder::Error>(e),
            )
        }
}

/// Whether the builder refused the page of one of `articles`, after it had
/// taken the pages of all the articles before that one.
spec fn refused_page(articles: Seq<Article>) -> bool {
    exists|first: Book, before: Book, chapter: Chapter, at: int, e: epub_builder::Error|
        #![trigger
            paged(first, chapters_of(articles.take(at)), before),
            call_ensures(
                add_page,
                (before, &chapter, epub_builder::ReferenceType::Text),
                Err::<Book, epub_builder::Error>(e),
            )]
        {
            &&& set_up(first)
            &&& 0 <= at < articles.len()
            &&& paged(first, chapters_of(articles.take(at)), before)
            &&& chapter@ == chapters_of(articles)[at]
            &&& call_ensures(
                add_page,
                (before, &chapter, epub_builder::ReferenceType::Text),
                Err::<Book, epub_builder::Error>(e),
            )
        }
}

/// Whether the builder refused to write the e-book that holds the pages of
/// all of `articles`.
spec fn refused_writing(articles: Seq<Article>) -> bool {
    exists|first: Book, last: Book, e: epub_builder::Error|
        #![trigger
            paged(first, chapters_of(articles), last),
            call_ensures(generate, (last,), Err::<Vec<u8>, epub_builder::Error>(e))]
        {
            &&& set_up(first)
            &&& paged(first, chapters_of(articles), last)
            &&& call_ensures(generate, (last,), Err::<Vec<u8>, epub_builder::Error>(e))
        }
}

/// Whether the builder refused on the way to the e-book of `articles`: one
/// of the calls that `create_epub` makes, each on what the calls before it
/// gave, answered with an error.
pub closed spec fn epub_refused(articles: Seq<Article>) -> bool {
    refused_at_start() || refused_page(articles) || refused_writing(articles)
}

/// Whether the builder made `last` out of `first` by taking the pages
/// `chapters`, one after the other, each as a text page.
spec fn paged(first: Book, chapters: Seq<ChapterView>, last: Book) -> bool
    decreases chapters.len(),
{
    if chapters.len() == 0 {
        last == first
    } else {
        exists|before: Book, chapter: Chapter|
            #![trigger
                call_ensures(
                    add_page,
                    (before, &chapter, epub_builder::ReferenceType::Text),
                    Ok::<Book, epub_builder::Error>(last),
                )]
            {
                &&& paged(first, chapters.drop_last(), before)
                &&& chapter@ == chapters.last()
                &&& call_ensures(
                    add_page,
                    (before, &chapter, epub_builder::ReferenceType::Text),
                    Ok::<Book, epub_builder::Error>(last),
                )
            }
    }
}

/// Whether `bytes` is the e-book of `articles`: what the builder wrote for a
/// book that was set up as `create_epub` sets one up and then took the page
/// of each article, in the order of the articles, and nothing else.
pub closed spec fn is_epub_of(articles: Seq<Article>, bytes: Vec<u8>) -> bool {
    exists|first: Book, last: Book|
        #![trigger paged(first, chapters_of(articles), last)]
        {
            &&& set_up(first)
            &&& paged(first, chapters_of(articles), last)
            &&& call_ensures(generate, (last,), Ok::<Vec<u8>, epub_builder::Error>(bytes))
        }
}

} // verus!
