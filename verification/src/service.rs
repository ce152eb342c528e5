//! The services: what the presentation layer asks for, carried out through
//! the repository interfaces.

pub mod pocket;
pub mod send_to_kindle;
