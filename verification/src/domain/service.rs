//! The operations offered to the presentation layer.

pub mod pocket;
pub mod send_to_kindle;
