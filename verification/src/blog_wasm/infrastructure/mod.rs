//! The requests of the front end and its stored session.

pub mod api;
pub mod local_storage;

pub use local_storage::SaveData;
