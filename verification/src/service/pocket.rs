//! The session service.
//!
//! The service decides nothing about the session itself: that is the
//! repository's part. Each contract below says which calls the service
//! makes on its repository, in which order, each on the repository as the
//! call before left it, and how the service's own result follows from
//! theirs.

use crate::domain::article::article_views;
use crate::domain::repository::pocket as repository;
use crate::domain::repository::pocket::PocketRepository;
use crate::domain::service::pocket::{IsLoginOutput, ListOutput, PocketService, StartLoginOutput};
use crate::error::SessionError;
use vstd::prelude::*;

verus! {

/// The session service over one repository.
pub struct PocketServiceImpl<R: PocketRepository> {
    repository: R,
}

/// What `is_login` returns where loading the persisted state gave `loaded`
/// and left the repository as `loaded_into`: a failure to load is handed
/// on, and otherwise the answer is what that repository says of the
/// session.
pub open spec fn is_login_follows<R: PocketRepository>(
    loaded_into: R,
    loaded: Result<(), SessionError>,
    output: Result<IsLoginOutput, SessionError>,
) -> bool {
    match loaded {
        Err(e) => output == Err::<IsLoginOutput, SessionError>(e),
        Ok(_) => output matches Ok(out) && call_ensures(R::is_login, (&loaded_into,), out.is_login),
    }
}

/// What `start_login` returns where the repository gave `started`.
pub open spec fn start_login_follows(
    started: Result<repository::StartLoginOutput, SessionError>,
    output: Result<StartLoginOutput, SessionError>,
) -> bool {
    match started {
        Err(e) => output == Err::<StartLoginOutput, SessionError>(e),
        Ok(s) => output matches Ok(out) && out.auth_url@ == s.auth_url@,
    }
}

/// What `list` returns where the listing gave `listed` and persisting the
/// session then gave `saved`: the articles that were listed, in their
/// order, unless the session could not be persisted.
pub open spec fn list_follows(
    listed: repository::ListOutput,
    saved: Result<(), SessionError>,
    output: Result<ListOutput, SessionError>,
) -> bool {
    match saved {
        Err(e) => output matches Err(f) && f == e,
        Ok(_) => output matches Ok(out) && article_views(out.articles@) == article_views(
            listed.articles@,
        ),
    }
}

/// What is reported of the session once the persisted state was taken over.
pub fn is_login_output(is_login: bool) -> (output: IsLoginOutput)
    ensures
        output.is_login == is_login,
{
    IsLoginOutput { is_login }
}

/// What the presentation layer is told of a login that was started.
pub fn start_login_output(started: repository::StartLoginOutput) -> (output: StartLoginOutput)
    ensures
        output.auth_url@ == started.auth_url@,
{
    StartLoginOutput { auth_url: started.auth_url }
}

/// What the presentation layer is told of a listing: a listing whose
/// session could not be persisted is a failure.
pub fn list_output(
    listed: repository::ListOutput,
    saved: Result<(), SessionError>,
) -> (output: Result<ListOutput, SessionError>)
    ensures
        list_follows(listed, saved, output),
{
    match saved {
        Ok(_) => Ok(ListOutput { articles: listed.articles }),
        Err(e) => Err(e),
    }
}

impl<R: PocketRepository> PocketServiceImpl<R> {
    /// The repository that the service works on.
    pub closed spec fn repository(&self) -> R {
        self.repository
    }

    /// A service over `repository`.
    pub fn new(repository: R) -> (service: Self)
        ensures
            service.repository() == repository,
    {
        PocketServiceImpl { repository }
    }
}

impl<R: PocketRepository> PocketService for PocketServiceImpl<R> {
    /// Takes over the persisted session, then reports whether a session
    /// exists: the status is read from the repository as the load left
    /// it, and not read at all where the load failed. A failure to load is
    /// handed on.
    fn is_login(&mut self) -> (output: Result<IsLoginOutput, SessionError>)
        ensures
            exists|loading: &mut R, loaded: Result<(), SessionError>|
                {
                    &&& #[trigger] call_ensures(R::load_state, (loading,), loaded)
                    &&& *loading == old(self).repository()
                    &&& *final(loading) == final(self).repository()
                    &&& is_login_follows(final(self).repository(), loaded, output)
                },
    {
        let loaded = self.repository.load_state();
        match loaded {
            Ok(_) => Ok(is_login_output(self.repository.is_login())),
            Err(e) => Err(e),
        }
    }

    /// Ends the session: the one call is the repository's `logout`, and the
    /// answer is its answer.
    fn logout(&mut self) -> (done: Result<(), SessionError>)
        ensures
            exists|leaving: &mut R|
                {
                    &&& #[trigger] call_ensures(R::logout, (leaving,), done)
                    &&& *leaving == old(self).repository()
                    &&& *final(leaving) == final(self).repository()
                },
    {
        self.repository.logout()
    }

    /// Starts a login and says where the user gives consent: the one call
    /// is the repository's `start_login`.
    fn start_login(&mut self) -> (output: Result<StartLoginOutput, SessionError>)
        ensures
            exists|starting: &mut R, started: Result<repository::StartLoginOutput, SessionError>|
                {
                    &&& #[trigger] call_ensures(R::start_login, (starting,), started)
                    &&& *starting == old(self).repository()
                    &&& *final(starting) == final(self).repository()
                    &&& start_login_follows(started, output)
                },
    {
        let started = self.repository.start_login();
        match started {
            Ok(s) => Ok(start_login_output(s)),
            Err(e) => Err(e),
        }
    }

    /// Fetches the saved articles and, once they are there, persists the
    /// session that served them.
    ///
    /// The listing is asked for first. Where it fails, its failure is
    /// handed on and nothing else is asked of the repository: a token that
    /// was not used is not persisted. Where it succeeds, the session is
    /// persisted once, on the repository as the listing left it.
    fn list(&mut self) -> (output: Result<ListOutput, SessionError>)
        ensures
            exists|listing: &mut R, listed: Result<repository::ListOutput, SessionError>|
                {
                    &&& #[trigger] call_ensures(R::list, (listing,), listed)
                    &&& *listing == old(self).repository()
                    &&& match listed {
                        Err(e) => {
                            &&& *final(listing) == final(self).repository()
                            &&& output matches Err(f) && f == e
                        },
                        Ok(l) => exists|saving: &mut R, saved: Result<(), SessionError>|
                            {
                                &&& #[trigger] call_ensures(R::save_state, (saving,), saved)
                                &&& *saving == *final(listing)
                                &&& *final(saving) == final(self).repository()
                                &&& list_follows(l, saved, output)
                            },
                    }
                },
    {
        let listed = self.repository.list();
        match listed {
            Ok(l) => {
                let saved = self.repository.save_state();
                list_output(l, saved)
            },
            Err(e) => Err(e),
        }
    }
}

} // verus!
