//! The repository capabilities and their stores in memory.

pub mod post_repository;
pub mod user_repository;
