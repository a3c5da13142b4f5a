//! The operations of the HTTP surface.

pub mod protect;
pub mod public;
