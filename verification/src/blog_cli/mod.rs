//! The command line client: which transport the flags choose, which request
//! a command sends, and what is printed and stored for its answer.

pub mod command;
pub mod run;
pub mod security;
