//! Protocol-agnostic core of a blog platform: authentication, ownership
//! enforcement, content operations and the mapping of one error taxonomy
//! onto HTTP and gRPC.

pub mod application;
pub mod blog_cli;
pub mod blog_client;
pub mod blog_grpc;
pub mod blog_wasm;
pub mod clock;
pub mod data;
pub mod domain;
pub mod ids;
pub mod infrastructure;
pub mod presentation;
pub mod text;
