//! What is said to the article service, and what is made of its replies.
//!
//! The calls themselves are made elsewhere: a call is described here by its
//! address and its parameters, and a reply arrives as the body that came
//! back, or as the failure of the transport.

use crate::error::SessionError;
use crate::json::{document_string, read_string_member};
use vstd::prelude::*;
use vstd::string::*;

verus! {

/// Where the user gives consent.
pub const POCKET_API_AUTHORIZE: &'static str = "https://getpocket.com/auth/authorize";

/// Where a request code is obtained.
pub const POCKET_API_OAUTH_REQUEST: &'static str = "https://getpocket.com/v3/oauth/request";

/// Where a request code is exchanged for an access token.
pub const POCKET_API_OAUTH_AUTHORIZE: &'static str = "https://getpocket.com/v3/oauth/authorize";

/// Where the saved articles are listed.
pub const POCKET_API_GET: &'static str = "https://getpocket.com/v3/get";

/// Where articles are modified.
pub const POCKET_API_MODIFY: &'static str = "https://getpocket.com/v3/send";

/// Where the browser is sent after consent.
pub const REDIRECT_URI: &'static str = "http://127.0.0.1:8080";

/// The local address on which the redirect is awaited.
pub const CALLBACK_ADDRESS: &'static str = "127.0.0.1:8080";

/// The member of a reply that holds the request code.
pub const REQUEST_CODE_KEY: &'static str = "code";

/// The member of a reply that holds the access token.
pub const ACCESS_TOKEN_KEY: &'static str = "accessToken";

/// One call to the article service: a JSON object of `params` posted to `url`.
#[derive(Debug, PartialEq, Eq)]
pub struct RemoteCall {
    pub url: String,
    pub params: Vec<(String, String)>,
}

/// A `RemoteCall` as mathematical text.
pub struct RemoteCallView {
    pub url: Seq<char>,
    pub params: Seq<(Seq<char>, Seq<char>)>,
}

/// The text of a list of parameters.
pub open spec fn param_views(params: Seq<(String, String)>) -> Seq<(Seq<char>, Seq<char>)> {
    params.map_values(|p: (String, String)| (p.0@, p.1@))
}

impl View for RemoteCall {
    type V = RemoteCallView;

    open spec fn view(&self) -> RemoteCallView {
        RemoteCallView { url: self.url@, params: param_views(self.params@) }
    }
}

/// The call that obtains a request code.
pub open spec fn request_code_call_spec(consumer_key: Seq<char>) -> RemoteCallView {
    RemoteCallView {
        url: POCKET_API_OAUTH_REQUEST@,
        params: seq![("consumer_key"@, consumer_key), ("redirect_uri"@, REDIRECT_URI@)],
    }
}

/// The call that exchanges a request code for an access token.
pub open spec fn exchange_call_spec(consumer_key: Seq<char>, code: Seq<char>) -> RemoteCallView {
    RemoteCallView {
        url: POCKET_API_OAUTH_AUTHORIZE@,
        params: seq![("consumer_key"@, consumer_key), ("code"@, code)],
    }
}

/// The call that lists the saved articles, newest first and in full.
pub open spec fn list_call_spec(consumer_key: Seq<char>, access_token: Seq<char>) -> RemoteCallView {
    RemoteCallView {
        url: POCKET_API_GET@,
        params: seq![
            ("consumer_key"@, consumer_key),
            ("access_token"@, access_token),
            ("detailType"@, "complete"@),
            ("sort"@, "newest"@),
        ],
    }
}

/// The call that applies `actions` to saved articles.
pub open spec fn modify_call_spec(
    consumer_key: Seq<char>,
    access_token: Seq<char>,
    actions: Seq<char>,
) -> RemoteCallView {
    RemoteCallView {
        url: POCKET_API_MODIFY@,
        params: seq![
            ("consumer_key"@, consumer_key),
            ("access_token"@, access_token),
            ("actions"@, actions),
        ],
    }
}

/// The page on which the user approves the request `code`.
pub open spec fn consent_url_spec(code: Seq<char>) -> Seq<char> {
    POCKET_API_AUTHORIZE@ + "?request_token="@ + code + "&redirect_uri="@ + REDIRECT_URI@
}

/// What a reply yields under `key`: the failure of the transport as it is, an
/// `UpstreamError` when the body is no JSON object with a string under `key`,
/// and that string otherwise.
pub open spec fn reply_member(reply: Result<Seq<char>, SessionError>, key: Seq<char>) -> Result<
    Seq<char>,
    SessionError,
> {
    match reply {
        Err(e) => Err(e),
        Ok(body) => match document_string(body, key) {
            Some(found) => Ok(found),
            None => Err(SessionError::UpstreamError),
        },
    }
}

/// The text of a reply.
pub open spec fn reply_view(reply: Result<String, SessionError>) -> Result<Seq<char>, SessionError> {
    match reply {
        Ok(body) => Ok(body@),
        Err(e) => Err(e),
    }
}

/// One parameter of a call.
fn param(name: &str, value: &str) -> (pair: (String, String))
    ensures
        pair.0@ == name@,
        pair.1@ == value@,
{
    (name.to_owned(), value.to_owned())
}

/// Describes the call that obtains a request code.
pub fn request_code_call(consumer_key: &str) -> (call: RemoteCall)
    ensures
        call@ == request_code_call_spec(consumer_key@),
{
    let mut params: Vec<(String, String)> = Vec::new();
    params.push(param("consumer_key", consumer_key));
    params.push(param("redirect_uri", REDIRECT_URI));
    let call = RemoteCall { url: POCKET_API_OAUTH_REQUEST.to_owned(), params };
    assert(call@.params =~= request_code_call_spec(consumer_key@).params);
    call
}

/// Describes the call that exchanges the request code for an access token.
pub fn exchange_call(consumer_key: &str, code: &str) -> (call: RemoteCall)
    ensures
        call@ == exchange_call_spec(consumer_key@, code@),
{
    let mut params: Vec<(String, String)> = Vec::new();
    params.push(param("consumer_key", consumer_key));
    params.push(param("code", code));
    let call = RemoteCall { url: POCKET_API_OAUTH_AUTHORIZE.to_owned(), params };
    assert(call@.params =~= exchange_call_spec(consumer_key@, code@).params);
    call
}

/// Describes the call that lists the saved articles.
pub fn list_call(consumer_key: &str, access_token: &str) -> (call: RemoteCall)
    ensures
        call@ == list_call_spec(consumer_key@, access_token@),
{
    let mut params: Vec<(String, String)> = Vec::new();
    params.push(param("consumer_key", consumer_key));
    params.push(param("access_token", access_token));
    params.push(param("detailType", "complete"));
    params.push(param("sort", "newest"));
    let call = RemoteCall { url: POCKET_API_GET.to_owned(), params };
    assert(call@.params =~= list_call_spec(consumer_key@, access_token@).params);
    call
}

/// Describes the call that applies `actions` to saved articles.
pub fn modify_call(consumer_key: &str, access_token: &str, actions: &str) -> (call: RemoteCall)
    ensures
        call@ == modify_call_spec(consumer_key@, access_token@, actions@),
{
    let mut params: Vec<(String, String)> = Vec::new();
    params.push(param("consumer_key", consumer_key));
    params.push(param("access_token", access_token));
    params.push(param("actions", actions));
    let call = RemoteCall { url: POCKET_API_MODIFY.to_owned(), params };
    assert(call@.params =~= modify_call_spec(consumer_key@, access_token@, actions@).params);
    call
}

/// Builds the address of the consent page for the request `code`.
pub fn consent_url(code: &str) -> (url: String)
    ensures
        url@ == consent_url_spec(code@),
{
    let mut url = POCKET_API_AUTHORIZE.to_owned();
    url.append("?request_token=");
    url.append(code);
    url.append("&redirect_uri=");
    url.append(REDIRECT_URI);
    url
}

/// What is made of a reply in which a member was looked for: a transport
/// failure is handed on unchanged, a body in which the member was not
/// found is an `UpstreamError`, and otherwise the member is the answer.
pub fn member_of_reply(
    found: Result<Option<String>, SessionError>,
) -> (member: Result<String, SessionError>)
    ensures
        match found {
            Ok(Some(text)) => member matches Ok(s) && s == text,
            Ok(None) => member matches Err(f) && f == SessionError::UpstreamError,
            Err(e) => member matches Err(f) && f == e,
        },
{
    match found {
        Ok(Some(text)) => Ok(text),
        Ok(None) => Err(SessionError::UpstreamError),
        Err(e) => Err(e),
    }
}

/// Takes the string under `key` out of a reply.
///
/// A transport failure is handed on unchanged. A body that is no JSON
/// object, or has no string under `key`, is an `UpstreamError`.
pub fn string_of_reply(
    reply: Result<String, SessionError>,
    key: &str,
) -> (member: Result<String, SessionError>)
    ensures
        match reply_member(reply_view(reply), key@) {
            Ok(found) => member matches Ok(s) && s@ == found,
            Err(e) => member matches Err(f) && f == e,
        },
{
    match reply {
        Err(e) => member_of_reply(Err(e)),
        Ok(body) => match read_string_member(body.as_str(), key) {
            Ok(found) => member_of_reply(Ok(Some(found))),
            Err(_) => member_of_reply(Ok(None)),
        },
    }
}

} // verus!
