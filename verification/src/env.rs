//! The settings that the program reads from its environment.

use vstd::prelude::*;

verus! {

/// The keys and addresses that the program is configured with.
#[derive(Debug)]
pub struct Env {
    pub pocket_platform_consumer_key: String,
    pub send_to_kindle_email: String,
    pub email_user: String,
    pub email_password: String,
}

} // verus!
