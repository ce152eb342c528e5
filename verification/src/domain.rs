//! The vocabulary shared by the repositories and the services.

pub mod article;
pub mod repository;
pub mod service;

pub use article::{Article, ArticleId, ArticleView};
