//! Tokens, password hashing and configuration.

pub mod config;
pub mod security;

pub use config::AppConfig;
pub use security::JwtService;
