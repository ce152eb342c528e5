//! The interfaces through which the services reach the outside world.

pub mod kindle;
pub mod pocket;
pub mod readability;
