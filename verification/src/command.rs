//! The commands of the presentation layer: each asks a service, and turns a
//! failure into the message that is shown.

use crate::domain::service::pocket::{IsLoginOutput, ListOutput, PocketService, StartLoginOutput};
use crate::domain::service::send_to_kindle::{SendInput, SendOutput, SendToKindleService};
use crate::error::SessionError;
use vstd::prelude::*;

verus! {

/// Whether `text` is the message of a failure.
pub open spec fn is_message(text: Seq<char>) -> bool {
    exists|e: SessionError| text == #[trigger] e.message_spec()
}

/// Hands a success on and turns a failure into its message.
pub fn to_message<T>(result: Result<T, SessionError>) -> (shown: Result<T, String>)
    ensures
        match result {
            Ok(value) => shown matches Ok(v) && v == value,
            Err(e) => shown matches Err(text) && text@ == e.message_spec(),
        },
{
    match result {
        Ok(value) => Ok(value),
        Err(e) => Err(e.message()),
    }
}

/// Reports whether a session exists: shows the answer of the service's `is_login`.
pub fn is_login<S: PocketService>(service: &mut S) -> (shown: Result<IsLoginOutput, String>)
    ensures
        exists|receiver: &mut S, answer: Result<IsLoginOutput, SessionError>|
            {
                &&& #[trigger] call_ensures(S::is_login, (receiver,), answer)
                &&& *receiver == *old(service)
                &&& *final(receiver) == *final(service)
                &&& shows(answer, shown)
            },
        shown matches Err(text) ==> is_message(text@),
{
    to_message(service.is_login())
}

/// Ends the session: what is shown is the answer of the service's `logout`.
pub fn logout<S: PocketService>(service: &mut S) -> (shown: Result<(), String>)
    ensures
        exists|receiver: &mut S, answer: Result<(), SessionError>|
            {
                &&& #[trigger] call_ensures(S::logout, (receiver,), answer)
                &&& *receiver == *old(service)
                &&& *final(receiver) == *final(service)
                &&& shows(answer, shown)
            },
        shown matches Err(text) ==> is_message(text@),
{
    to_message(service.logout())
}

/// Starts a login and says where the user gives consent: what is shown is
/// the answer of the service's `start_login`.
pub fn login<S: PocketService>(service: &mut S) -> (shown: Result<StartLoginOutput, String>)
    ensures
        exists|receiver: &mut S, answer: Result<StartLoginOutput, SessionError>|
            {
                &&& #[trigger] call_ensures(S::start_login, (receiver,), answer)
                &&& *receiver == *old(service)
                &&& *final(receiver) == *final(service)
                &&& shows(answer, shown)
            },
        shown matches Err(text) ==> is_message(text@),
{
    to_message(service.start_login())
}

/// Lists the saved articles: what is shown is the answer of the service's
/// `list`.
pub fn list<S: PocketService>(service: &mut S) -> (shown: Result<ListOutput, String>)
    ensures
        exists|receiver: &mut S, answer: Result<ListOutput, SessionError>|
            {
                &&& #[trigger] call_ensures(S::list, (receiver,), answer)
                &&& *receiver == *old(service)
                &&& *final(receiver) == *final(service)
                &&& shows(answer, shown)
            },
        shown matches Err(text) ==> is_message(text@),
{
    to_message(service.list())
}

/// Delivers the given articles: what is shown is the answer of the
/// service's `send` for `input`.
pub fn send<S: SendToKindleService>(
    input: SendInput,
    service: &mut S,
) -> (shown: Result<SendOutput, String>)
    ensures
        exists|receiver: &mut S, answer: Result<SendOutput, SessionError>|
            {
                &&& #[trigger] call_ensures(S::send, (receiver, input), answer)
                &&& *receiver == *old(service)
                &&& *final(receiver) == *final(service)
                &&& shows(answer, shown)
            },
        shown matches Err(text) ==> is_message(text@),
{
    to_message(service.send(input))
}

/// What a command shows of the answer `answer` of its service: a success as
/// it is, a failure as its message.
///
/// A command decides nothing else. Its contract says that the service was
/// asked once, as it was handed in, that the service is left as that call
/// left it, and that what is shown is the answer of that call.
pub open spec fn shows<T>(answer: Result<T, SessionError>, shown: Result<T, String>) -> bool {
    match answer {
        Ok(value) => shown matches Ok(v) && v == value,
        Err(e) => shown matches Err(text) && text@ == e.message_spec(),
    }
}

} // verus!
