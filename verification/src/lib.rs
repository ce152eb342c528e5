//! Session and synchronisation core of a reader that sends saved articles to
//! an e-book device: the login state machine, the one-shot callback listener,
//! the single-slot request/response bridge and the token store, each as a
//! verified transition system that the surrounding program drives.

pub mod error;
pub mod json;
pub mod command;
pub mod domain;
pub mod env;
pub mod repository;
pub mod service;
pub mod state;
