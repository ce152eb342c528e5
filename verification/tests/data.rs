use send_pocket_to_kindle::domain::repository::pocket::MarkAsSentInput;
use send_pocket_to_kindle::domain::Article;
use send_pocket_to_kindle::error::SessionError;
use send_pocket_to_kindle::repository::pocket::data::{
    actions_json, actions_of_literals, GetResponse, Image, Item, COVER_IMAGE_KEY, SENT_TAG,
};
use send_pocket_to_kindle::repository::pocket::remote::RemoteCall;
use send_pocket_to_kindle::repository::pocket::{PocketRepositoryConfig, PocketRepositoryImpl};

fn image(key: &str, src: &str) -> (String, Image) {
    (
        key.to_string(),
        Image { item_id: "i".to_string(), image_id: key.to_string(), src: src.to_string() },
    )
}

fn item(id: &str, images: Option<Vec<(String, Image)>>) -> Item {
    Item {
        item_id: id.to_string(),
        given_url: format!("http://example.com/{}", id),
        given_title: format!("title {}", id),
        excerpt: format!("excerpt {}", id),
        images,
    }
}

fn article(id: &str, cover: Option<&str>) -> Article {
    Article {
        id: id.to_string(),
        title: format!("title {}", id),
        url: format!("http://example.com/{}", id),
        cover: cover.map(str::to_string),
        contents: format!("excerpt {}", id),
    }
}

fn logged_in(token: &str) -> PocketRepositoryImpl {
    let mut s = PocketRepositoryImpl::new(PocketRepositoryConfig {
        consumer_key: "key-1".to_string(),
        state_file_path: String::new(),
    });
    s.start_login(Ok("{\"code\":\"c\"}".to_string())).unwrap();
    s.finish_login("c", Ok(token.to_string())).unwrap();
    s
}

#[test]
fn the_constants_of_the_listing() {
    assert_eq!(COVER_IMAGE_KEY, "1");
    assert_eq!(SENT_TAG, "sent-to-kindle");
}

#[test]
fn an_item_becomes_an_article() {
    assert_eq!(item("7", None).to_article(), article("7", None));
    assert_eq!(item("7", Some(vec![])).to_article(), article("7", None));
}

#[test]
fn the_cover_is_the_image_under_key_one() {
    let images = vec![image("2", "two.png"), image("1", "one.png"), image("3", "three.png")];
    assert_eq!(item("7", Some(images)).to_article(), article("7", Some("one.png")));
    let images = vec![image("2", "two.png"), image("11", "eleven.png")];
    assert_eq!(item("7", Some(images)).to_article(), article("7", None));
    let images = vec![image("1", "first.png"), image("1", "second.png")];
    assert_eq!(item("7", Some(images)).to_article(), article("7", Some("first.png")));
}

#[test]
fn a_listing_becomes_articles_in_order() {
    let response = GetResponse {
        list: vec![
            item("a", Some(vec![image("1", "a.png")])),
            item("b", None),
            item("c", Some(vec![image("2", "c.png")])),
        ],
    };
    assert_eq!(
        response.into(),
        vec![article("a", Some("a.png")), article("b", None), article("c", None)]
    );
    assert_eq!(GetResponse { list: vec![] }.into(), Vec::<Article>::new());
}

#[test]
fn the_session_lists_what_the_service_returned() {
    let s = logged_in("tok");
    let output = s.list(GetResponse { list: vec![item("a", None), item("b", None)] });
    assert_eq!(output.articles, vec![article("a", None), article("b", None)]);
}

#[test]
fn the_list_call_needs_a_token() {
    let s = PocketRepositoryImpl::new(PocketRepositoryConfig::default());
    assert_eq!(s.list_call(), Err(SessionError::NotLoggedIn));
    let s = logged_in("tok");
    assert_eq!(
        s.list_call(),
        Ok(RemoteCall {
            url: "https://getpocket.com/v3/get".to_string(),
            params: vec![
                ("consumer_key".to_string(), "key-1".to_string()),
                ("access_token".to_string(), "tok".to_string()),
                ("detailType".to_string(), "complete".to_string()),
                ("sort".to_string(), "newest".to_string()),
            ],
        })
    );
}

#[test]
fn the_actions_tag_each_article() {
    assert_eq!(actions_json(&vec![]), "[]");
    assert_eq!(
        actions_json(&vec!["12".to_string()]),
        "[{\"action\":\"tags_add\",\"tags\":\"sent-to-kindle\",\"item_id\":\"12\"}]"
    );
    assert_eq!(
        actions_json(&vec!["12".to_string(), "a\"b".to_string(), "".to_string()]),
        "[{\"action\":\"tags_add\",\"tags\":\"sent-to-kindle\",\"item_id\":\"12\"},\
         {\"action\":\"tags_add\",\"tags\":\"sent-to-kindle\",\"item_id\":\"a\\\"b\"},\
         {\"action\":\"tags_add\",\"tags\":\"sent-to-kindle\",\"item_id\":\"\"}]"
    );
}

#[test]
fn the_actions_are_json_that_serde_json_reads() {
    let ids = vec!["1".to_string(), "x\\y".to_string(), "\u{e9}\n".to_string()];
    let value: serde_json::Value = serde_json::from_str(&actions_json(&ids)).unwrap();
    let actions = value.as_array().unwrap();
    assert_eq!(actions.len(), 3);
    for (action, id) in actions.iter().zip(ids.iter()) {
        let members = action.as_object().unwrap();
        assert_eq!(members.len(), 3);
        assert_eq!(members["action"].as_str(), Some("tags_add"));
        assert_eq!(members["tags"].as_str(), Some("sent-to-kindle"));
        assert_eq!(members["item_id"].as_str(), Some(id.as_str()));
    }
}

#[test]
fn mark_as_sent_needs_a_token() {
    let s = PocketRepositoryImpl::new(PocketRepositoryConfig::default());
    assert_eq!(
        s.mark_as_sent(MarkAsSentInput { ids: vec!["1".to_string()] }),
        Err(SessionError::NotLoggedIn)
    );
}

#[test]
fn mark_as_sent_describes_the_call() {
    let s = logged_in("tok");
    assert_eq!(
        s.mark_as_sent(MarkAsSentInput { ids: vec!["1".to_string(), "2".to_string()] }),
        Ok(RemoteCall {
            url: "https://getpocket.com/v3/send".to_string(),
            params: vec![
                ("consumer_key".to_string(), "key-1".to_string()),
                ("access_token".to_string(), "tok".to_string()),
                (
                    "actions".to_string(),
                    "[{\"action\":\"tags_add\",\"tags\":\"sent-to-kindle\",\"item_id\":\"1\"},\
                     {\"action\":\"tags_add\",\"tags\":\"sent-to-kindle\",\"item_id\":\"2\"}]"
                        .to_string()
                ),
            ],
        })
    );
}

#[test]
fn the_actions_are_framed_around_the_literals() {
    assert_eq!(actions_of_literals(&vec![]), "[]");
    assert_eq!(
        actions_of_literals(&vec!["\"12\"".to_string()]),
        "[{\"action\":\"tags_add\",\"tags\":\"sent-to-kindle\",\"item_id\":\"12\"}]"
    );
    assert_eq!(
        actions_of_literals(&vec!["A".to_string(), "B".to_string(), "C".to_string()]),
        "[{\"action\":\"tags_add\",\"tags\":\"sent-to-kindle\",\"item_id\":A},\
         {\"action\":\"tags_add\",\"tags\":\"sent-to-kindle\",\"item_id\":B},\
         {\"action\":\"tags_add\",\"tags\":\"sent-to-kindle\",\"item_id\":C}]"
    );
}

#[test]
fn with_each_key_once_the_cover_does_not_depend_on_the_order() {
    let orders = [
        vec![image("1", "one.png"), image("2", "two.png"), image("3", "three.png")],
        vec![image("3", "three.png"), image("1", "one.png"), image("2", "two.png")],
        vec![image("2", "two.png"), image("3", "three.png"), image("1", "one.png")],
    ];
    for images in orders {
        assert_eq!(item("7", Some(images)).to_article(), article("7", Some("one.png")));
    }
}
