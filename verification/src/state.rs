//! The state that the program keeps for as long as it runs.

use crate::env::Env;
use crate::error::SessionError;
use crate::repository::kindle::{KindleRepositoryConfig, KindleRepositoryImpl};
use crate::repository::pocket::login::LoginStateView;
use crate::repository::pocket::{PocketRepositoryConfig, PocketRepositoryImpl, SessionView};
use crate::repository::readability::{BridgeView, ReadabilityRepositoryImpl};
use vstd::prelude::*;

verus! {

/// The name of the file that persists the session, within the directory of
/// the program.
pub const STATE_FILE_NAME: &'static str = ".pocket-repository-state";

/// The repositories of the running program.
#[derive(Debug)]
pub struct AppState {
    pub pocket: PocketRepositoryImpl,
    pub readability: ReadabilityRepositoryImpl,
    pub kindle: KindleRepositoryImpl,
}

impl AppState {
    /// Sets the repositories up from the settings of the environment and
    /// the path of the file that persists the session: logged out, with no
    /// login under way, an open bridge with an empty slot, and the mail
    /// account of the settings.
    pub fn new(env: Env, state_file_path: String) -> (state: Result<Self, SessionError>)
        ensures
            state matches Ok(s) && s.pocket@ == (SessionView {
                consumer_key: env.pocket_platform_consumer_key@,
                state_file_path: state_file_path@,
                token: None,
                login: LoginStateView::Idle,
            }) && s.readability@ == (BridgeView { slot: None, open: true }) && s.kindle.config()
                == (KindleRepositoryConfig {
                send_to: env.send_to_kindle_email,
                send_from: env.email_user,
                password: env.email_password,
            }),
    {
        let pocket = PocketRepositoryImpl::new(
            PocketRepositoryConfig { consumer_key: env.pocket_platform_consumer_key, state_file_path },
        );
        let readability = match ReadabilityRepositoryImpl::new() {
            Ok(bridge) => bridge,
            Err(e) => {
                return Err(e);
            },
        };
        let kindle = KindleRepositoryImpl::new(
            KindleRepositoryConfig {
                send_to: env.send_to_kindle_email,
                send_from: env.email_user,
                password: env.email_password,
            },
        );
        Ok(AppState { pocket, readability, kindle })
    }
}

} // verus!
