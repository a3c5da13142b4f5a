//! The two protocol front ends, on plain values: what each operation
//! answers, before it is written to the wire.

pub mod auth;
pub mod dto;
pub mod grpc_service;
pub mod handlers;
