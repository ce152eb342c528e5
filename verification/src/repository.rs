//! The state machines behind the repository interfaces.

pub mod kindle;
pub mod pocket;
pub mod readability;
