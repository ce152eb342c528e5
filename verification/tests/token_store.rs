use send_pocket_to_kindle::error::SessionError;
use send_pocket_to_kindle::repository::pocket::token_store::{
    round_trips, FileRemoval, TokenStore,
};
use send_pocket_to_kindle::repository::pocket::{state_json, PocketRepositoryState};

#[test]
fn new_store_holds_nothing() {
    let store = TokenStore::new();
    assert_eq!(store.get(), None);
    assert!(!store.is_set());
}

#[test]
fn get_after_set_returns_the_token() {
    let mut store = TokenStore::new();
    store.set("abc".to_string());
    assert!(store.is_set());
    assert_eq!(store.get(), Some("abc".to_string()));
    assert_eq!(store.get(), Some("abc".to_string()));
    store.set("def".to_string());
    assert_eq!(store.get(), Some("def".to_string()));
}

#[test]
fn token_stays_through_reads_saves_and_empty_loads() {
    let mut store = TokenStore::new();
    store.set("t-1".to_string());
    for _ in 0..3 {
        assert_eq!(store.get(), Some("t-1".to_string()));
        assert!(store.save_to_disk().is_ok());
        assert_eq!(store.load_from_disk(None), Ok(()));
        assert_eq!(
            store.load_from_disk(Some("not json")),
            Err(SessionError::DeserializationError)
        );
    }
    assert_eq!(store.get(), Some("t-1".to_string()));
}

#[test]
fn load_from_missing_file_changes_nothing() {
    let mut store = TokenStore::new();
    assert_eq!(store.load_from_disk(None), Ok(()));
    assert_eq!(store.get(), None);
    store.set("kept".to_string());
    assert_eq!(store.load_from_disk(None), Ok(()));
    assert_eq!(store.get(), Some("kept".to_string()));
}

#[test]
fn load_from_file_with_token() {
    let mut store = TokenStore::new();
    assert_eq!(store.load_from_disk(Some("{\"accessToken\":\"abc\"}")), Ok(()));
    assert_eq!(store.get(), Some("abc".to_string()));
}

#[test]
fn load_replaces_a_token_that_was_held() {
    let mut store = TokenStore::new();
    store.set("old".to_string());
    assert_eq!(
        store.load_from_disk(Some(" { \"other\": 1, \"accessToken\" : \"new\" } ")),
        Ok(())
    );
    assert_eq!(store.get(), Some("new".to_string()));
}

#[test]
fn load_from_malformed_file_is_an_error_and_changes_nothing() {
    let malformed = [
        "",
        "{",
        "{\"accessToken\":\"abc\"",
        "[\"accessToken\"]",
        "\"abc\"",
        "{}",
        "{\"access_token\":\"abc\"}",
        "{\"accessToken\":7}",
        "{\"accessToken\":null}",
        "{\"accessToken\":\"abc\"} trailing",
    ];
    for text in malformed {
        let mut store = TokenStore::new();
        store.set("kept".to_string());
        assert_eq!(
            store.load_from_disk(Some(text)),
            Err(SessionError::DeserializationError),
            "{}",
            text
        );
        assert_eq!(store.get(), Some("kept".to_string()));
    }
}

#[test]
fn save_without_token_is_not_logged_in() {
    let store = TokenStore::new();
    assert_eq!(store.save_to_disk(), Err(SessionError::NotLoggedIn));
    assert_eq!(store.snapshot(), Err(SessionError::NotLoggedIn));
}

#[test]
fn save_writes_the_token_as_json() {
    let mut store = TokenStore::new();
    store.set("abc".to_string());
    assert_eq!(store.save_to_disk(), Ok("{\"accessToken\":\"abc\"}".to_string()));
}

#[test]
fn save_escapes_what_json_requires() {
    let mut store = TokenStore::new();
    store.set("a\"b\\c\nd".to_string());
    assert_eq!(
        store.save_to_disk(),
        Ok("{\"accessToken\":\"a\\\"b\\\\c\\nd\"}".to_string())
    );
}

#[test]
fn save_then_load_round_trip() {
    let tokens = [
        "abc",
        "",
        "with space",
        "quote\" backslash\\ slash/",
        "line\nbreak\ttab\r",
        "\u{0}\u{1f}",
        "h\u{e9}llo \u{4e16}\u{754c} \u{1f600}",
        "{\"accessToken\":\"nested\"}",
    ];
    for token in tokens {
        let mut store = TokenStore::new();
        store.set(token.to_string());
        let text = store.save_to_disk().unwrap();
        let mut fresh = TokenStore::new();
        assert_eq!(fresh.load_from_disk(Some(text.as_str())), Ok(()));
        assert_eq!(fresh.get(), Some(token.to_string()));
    }
}

#[test]
fn saved_text_is_what_serde_json_reads() {
    let mut store = TokenStore::new();
    store.set("tok\"en".to_string());
    let text = store.save_to_disk().unwrap();
    let value: serde_json::Value = serde_json::from_str(&text).unwrap();
    assert_eq!(value.get("accessToken").and_then(serde_json::Value::as_str), Some("tok\"en"));
    assert_eq!(value.as_object().unwrap().len(), 1);
}

#[test]
fn snapshot_then_restore_round_trip() {
    let mut store = TokenStore::new();
    store.set("abc".to_string());
    let state = store.snapshot().unwrap();
    assert_eq!(state, PocketRepositoryState { access_token: "abc".to_string() });
    let mut fresh = TokenStore::new();
    fresh.restore(state);
    assert_eq!(fresh.get(), Some("abc".to_string()));
}

#[test]
fn state_from_json_and_to_json() {
    assert_eq!(
        PocketRepositoryState::from_json("{\"accessToken\":\"abc\"}"),
        Ok(PocketRepositoryState { access_token: "abc".to_string() })
    );
    assert_eq!(
        PocketRepositoryState::from_json("{\"accessToken\":\"a\\u0062c\"}"),
        Ok(PocketRepositoryState { access_token: "abc".to_string() })
    );
    assert_eq!(
        PocketRepositoryState::from_json("nonsense"),
        Err(SessionError::DeserializationError)
    );
    let state = PocketRepositoryState { access_token: "x y".to_string() };
    assert_eq!(state.to_json(), "{\"accessToken\":\"x y\"}");
}

#[test]
fn clear_drops_the_token() {
    let mut store = TokenStore::new();
    store.set("abc".to_string());
    assert_eq!(store.clear(FileRemoval::Removed), Ok(()));
    assert_eq!(store.get(), None);
}

#[test]
fn clear_without_file_is_not_logged_in() {
    let mut store = TokenStore::new();
    assert_eq!(store.clear(FileRemoval::Missing), Err(SessionError::NotLoggedIn));
    assert_eq!(store.get(), None);
    assert_eq!(store.clear(FileRemoval::Missing), Err(SessionError::NotLoggedIn));
}

#[test]
fn clear_with_failing_file_system_is_an_io_error() {
    let mut store = TokenStore::new();
    store.set("abc".to_string());
    assert_eq!(store.clear(FileRemoval::Failed), Err(SessionError::IoError));
    assert_eq!(store.get(), None);
}

#[test]
fn every_token_tried_round_trips() {
    assert!(round_trips(""));
    assert!(round_trips("abc"));
    assert!(round_trips("a\"b\\c/d"));
    assert!(round_trips("\u{0}\u{7}\u{8}\u{c}\n\r\t\u{1f}\u{7f}"));
    assert!(round_trips("\u{80}\u{7ff}\u{800}\u{ffff}\u{10000}\u{10ffff}"));
    assert!(round_trips("\u{2028}\u{2029}\u{feff}"));
    let mut long = String::new();
    for i in 0..2000u32 {
        long.push(char::from_u32(32 + (i % 90)).unwrap());
    }
    assert!(round_trips(&long));
    for code in 0..0x3000u32 {
        if let Some(c) = char::from_u32(code) {
            assert!(round_trips(&format!("<{}>", c)), "{}", code);
        }
    }
}

#[test]
fn the_state_is_framed_around_the_literal() {
    assert_eq!(state_json("\"abc\""), "{\"accessToken\":\"abc\"}");
    assert_eq!(state_json("\"a\\\"b\""), "{\"accessToken\":\"a\\\"b\"}");
    assert_eq!(state_json(""), "{\"accessToken\":}");
}

#[test]
fn the_state_of_a_member_that_was_read() {
    assert_eq!(
        PocketRepositoryState::of_member(Ok("abc".to_string())),
        Ok(PocketRepositoryState { access_token: "abc".to_string() })
    );
    for e in [SessionError::DeserializationError, SessionError::UpstreamError, SessionError::IoError] {
        assert_eq!(
            PocketRepositoryState::of_member(Err(e)),
            Err(SessionError::DeserializationError)
        );
    }
}
