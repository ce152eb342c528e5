use send_pocket_to_kindle::error::SessionError;
use send_pocket_to_kindle::repository::pocket::remote::{
    consent_url, exchange_call, list_call, member_of_reply, modify_call, request_code_call,
    string_of_reply,
    RemoteCall, ACCESS_TOKEN_KEY, CALLBACK_ADDRESS, POCKET_API_AUTHORIZE, POCKET_API_GET,
    POCKET_API_MODIFY, POCKET_API_OAUTH_AUTHORIZE, POCKET_API_OAUTH_REQUEST, REDIRECT_URI,
    REQUEST_CODE_KEY,
};

fn pair(name: &str, value: &str) -> (String, String) {
    (name.to_string(), value.to_string())
}

#[test]
fn the_addresses_of_the_service() {
    assert_eq!(POCKET_API_AUTHORIZE, "https://getpocket.com/auth/authorize");
    assert_eq!(POCKET_API_OAUTH_REQUEST, "https://getpocket.com/v3/oauth/request");
    assert_eq!(POCKET_API_OAUTH_AUTHORIZE, "https://getpocket.com/v3/oauth/authorize");
    assert_eq!(POCKET_API_GET, "https://getpocket.com/v3/get");
    assert_eq!(POCKET_API_MODIFY, "https://getpocket.com/v3/send");
    assert_eq!(REDIRECT_URI, "http://127.0.0.1:8080");
    assert_eq!(CALLBACK_ADDRESS, "127.0.0.1:8080");
    assert_eq!(REQUEST_CODE_KEY, "code");
    assert_eq!(ACCESS_TOKEN_KEY, "accessToken");
}

#[test]
fn the_call_that_obtains_a_request_code() {
    assert_eq!(
        request_code_call("key-1"),
        RemoteCall {
            url: "https://getpocket.com/v3/oauth/request".to_string(),
            params: vec![pair("consumer_key", "key-1"), pair("redirect_uri", "http://127.0.0.1:8080")],
        }
    );
}

#[test]
fn the_call_that_exchanges_the_code() {
    assert_eq!(
        exchange_call("key-1", "code-9"),
        RemoteCall {
            url: "https://getpocket.com/v3/oauth/authorize".to_string(),
            params: vec![pair("consumer_key", "key-1"), pair("code", "code-9")],
        }
    );
}

#[test]
fn the_call_that_lists_the_articles() {
    assert_eq!(
        list_call("key-1", "tok"),
        RemoteCall {
            url: "https://getpocket.com/v3/get".to_string(),
            params: vec![
                pair("consumer_key", "key-1"),
                pair("access_token", "tok"),
                pair("detailType", "complete"),
                pair("sort", "newest"),
            ],
        }
    );
}

#[test]
fn the_call_that_modifies_articles() {
    assert_eq!(
        modify_call("key-1", "tok", "[]"),
        RemoteCall {
            url: "https://getpocket.com/v3/send".to_string(),
            params: vec![
                pair("consumer_key", "key-1"),
                pair("access_token", "tok"),
                pair("actions", "[]"),
            ],
        }
    );
}

#[test]
fn the_consent_url_holds_the_code() {
    assert_eq!(
        consent_url("abc"),
        "https://getpocket.com/auth/authorize?request_token=abc&redirect_uri=http://127.0.0.1:8080"
    );
    assert_eq!(
        consent_url(""),
        "https://getpocket.com/auth/authorize?request_token=&redirect_uri=http://127.0.0.1:8080"
    );
}

#[test]
fn a_reply_yields_its_member() {
    assert_eq!(
        string_of_reply(Ok("{\"code\":\"abc\",\"state\":null}".to_string()), "code"),
        Ok("abc".to_string())
    );
}

#[test]
fn a_transport_failure_is_handed_on_unchanged() {
    for e in [
        SessionError::UpstreamError,
        SessionError::IoError,
        SessionError::ResourceBusy,
        SessionError::BridgeClosed,
    ] {
        assert_eq!(string_of_reply(Err(e), "code"), Err(e));
    }
}

#[test]
fn a_reply_without_the_member_is_an_upstream_error() {
    for body in ["{}", "{\"code\":5}", "<html>", "", "{\"Code\":\"abc\"}", "[]"] {
        assert_eq!(
            string_of_reply(Ok(body.to_string()), "code"),
            Err(SessionError::UpstreamError),
            "{}",
            body
        );
    }
}

#[test]
fn what_is_made_of_a_member_looked_for_in_a_reply() {
    assert_eq!(member_of_reply(Ok(Some("abc".to_string()))), Ok("abc".to_string()));
    assert_eq!(member_of_reply(Ok(None)), Err(SessionError::UpstreamError));
    assert_eq!(member_of_reply(Err(SessionError::IoError)), Err(SessionError::IoError));
    assert_eq!(member_of_reply(Err(SessionError::UpstreamError)), Err(SessionError::UpstreamError));
}
