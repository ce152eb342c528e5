use send_pocket_to_kindle::domain::repository::kindle::SendInput;
use send_pocket_to_kindle::domain::Article;
use send_pocket_to_kindle::repository::kindle::{
    chapter_of, Chapter, KindleRepositoryConfig, KindleRepositoryImpl, ATTACHMENT_NAME,
    ATTACHMENT_TYPE, BOOK_AUTHOR, BOOK_TITLE, MAIL_RELAY, MAIL_SUBJECT,
};

fn article(id: &str, title: &str, contents: &str) -> Article {
    Article {
        id: id.to_string(),
        title: title.to_string(),
        url: format!("http://example.com/{}", id),
        cover: None,
        contents: contents.to_string(),
    }
}

fn repository() -> KindleRepositoryImpl {
    KindleRepositoryImpl::new(KindleRepositoryConfig {
        send_to: "device@kindle.com".to_string(),
        send_from: "me@example.com".to_string(),
        password: "secret".to_string(),
    })
}

fn contains(haystack: &[u8], needle: &[u8]) -> bool {
    haystack.windows(needle.len()).any(|w| w == needle)
}

#[test]
fn the_constants_of_the_delivery() {
    assert_eq!(BOOK_TITLE, "Pocket");
    assert_eq!(BOOK_AUTHOR, "tkat0");
    assert_eq!(MAIL_SUBJECT, "Send Pocket articles to Kindle");
    assert_eq!(MAIL_RELAY, "smtp.gmail.com");
    assert_eq!(ATTACHMENT_NAME, "pocket.epub");
    assert_eq!(ATTACHMENT_TYPE, "application/epub+zip");
    let config = KindleRepositoryConfig::default();
    assert_eq!((config.send_to.as_str(), config.send_from.as_str(), config.password.as_str()), ("", "", ""));
}

#[test]
fn the_page_of_an_article() {
    assert_eq!(
        chapter_of(&article("42", "A title", "<p>hi</p>")),
        Chapter {
            file_name: "42.xhtml".to_string(),
            title: "A title".to_string(),
            document: "<?xml version=\"1.0\" encoding=\"UTF-8\"?>\n<html xmlns=\"http://www.w3.org/1999/xhtml\" xmlns:epub=\"http://www.idpf.org/2007/ops\">\n<body>\n<p>hi</p>\n</body>\n</html>"
                .to_string(),
        }
    );
}

#[test]
fn the_ebook_is_a_zip_archive_with_one_page_for_each_article() {
    let articles = vec![
        article("first", "One", "<p>one</p>"),
        article("second", "Two", "<p>two</p>"),
    ];
    let epub = repository().create_epub(&articles).unwrap();
    assert_eq!(&epub[0..2], b"PK");
    assert!(contains(&epub, b"mimetype"));
    assert!(contains(&epub, b"application/epub+zip"));
    assert!(contains(&epub, b"OEBPS/first.xhtml"));
    assert!(contains(&epub, b"OEBPS/second.xhtml"));
    assert!(contains(&epub, b"OEBPS/toc.xhtml"));
    assert!(!contains(&epub, b"OEBPS/third.xhtml"));
}

#[test]
fn an_ebook_without_articles() {
    let epub = repository().create_epub(&vec![]).unwrap();
    assert_eq!(&epub[0..2], b"PK");
    assert!(contains(&epub, b"OEBPS/content.opf"));
}

#[test]
fn the_mail_carries_the_ebook() {
    let mail = repository()
        .send(SendInput { articles: vec![article("a", "A", "<p>a</p>")] })
        .unwrap();
    assert_eq!(mail.from, "me@example.com");
    assert_eq!(mail.to, "device@kindle.com");
    assert_eq!(mail.user, "me@example.com");
    assert_eq!(mail.password, "secret");
    assert_eq!(mail.subject, "Send Pocket articles to Kindle");
    assert_eq!(mail.relay, "smtp.gmail.com");
    assert_eq!(mail.attachment_name, "pocket.epub");
    assert_eq!(mail.attachment_type, "application/epub+zip");
    assert_eq!(&mail.attachment[0..2], b"PK");
    assert!(contains(&mail.attachment, b"OEBPS/a.xhtml"));
}

#[test]
fn the_ebook_holds_the_pages_in_the_order_of_the_articles() {
    let articles = vec![
        article("zz", "Last in the alphabet", "<p>1</p>"),
        article("aa", "First in the alphabet", "<p>2</p>"),
        article("mm", "Middle", "<p>3</p>"),
    ];
    let epub = repository().create_epub(&articles).unwrap();
    let position = |needle: &[u8]| epub.windows(needle.len()).position(|w| w == needle).unwrap();
    let first = position(b"OEBPS/zz.xhtml");
    let second = position(b"OEBPS/aa.xhtml");
    let third = position(b"OEBPS/mm.xhtml");
    assert!(first < second && second < third);
}
