//! Actors, posts and the error taxonomy.

pub mod auth;
pub mod error;
pub mod post;
