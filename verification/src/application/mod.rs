//! The services that the front ends call.

pub mod auth_service;
pub mod blog_service;

pub use auth_service::AuthService;
pub use blog_service::BlogService;
