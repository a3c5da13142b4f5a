//! The client: one set of commands over two interchangeable transports.

pub mod client;
pub mod error;
pub mod grpc_client;
pub mod http_client;

pub use client::{BlogClient, Transport};
pub use error::AppError;
