//! The failures that the session layer reports.

use vstd::prelude::*;

verus! {

/// Why an operation of the session layer did not succeed.
#[derive(Clone, Copy, Debug, PartialEq, Eq, Structural)]
pub enum SessionError {
    /// The remote service could not be reached, or its reply had an unexpected shape.
    UpstreamError,
    /// A login was awaited although none had been started.
    NoLoginInProgress,
    /// An access token was needed and none is held.
    NotLoggedIn,
    /// The local callback address is already bound.
    ResourceBusy,
    /// Persisted state or a bridge payload could not be decoded.
    DeserializationError,
    /// The file system failed for a reason other than an absent file.
    IoError,
    /// The response side of a bridge went away before a reply arrived.
    BridgeClosed,
}

impl SessionError {
    /// The text shown to a user for each kind of failure.
    pub open spec fn message_spec(self) -> Seq<char> {
        match self {
            SessionError::UpstreamError => "the remote service failed or sent an unexpected reply"@,
            SessionError::NoLoginInProgress => "call start_login first"@,
            SessionError::NotLoggedIn => "access_token not found"@,
            SessionError::ResourceBusy => "the callback address is already in use"@,
            SessionError::DeserializationError => "the data could not be decoded"@,
            SessionError::IoError => "the file system failed"@,
            SessionError::BridgeClosed => "the response channel is closed"@,
        }
    }

    /// Renders the failure as the message that the presentation layer receives.
    pub fn message(&self) -> (text: String)
        ensures
            text@ == self.message_spec(),
    {
        match self {
            SessionError::UpstreamError => "the remote service failed or sent an unexpected reply".to_owned(),
            SessionError::NoLoginInProgress => "call start_login first".to_owned(),
            SessionError::NotLoggedIn => "access_token not found".to_owned(),
            SessionError::ResourceBusy => "the callback address is already in use".to_owned(),
            SessionError::DeserializationError => "the data could not be decoded".to_owned(),
            SessionError::IoError => "the file system failed".to_owned(),
            SessionError::BridgeClosed => "the response channel is closed".to_owned(),
        }
    }
}

} // verus!
