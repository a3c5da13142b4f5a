//! The command line: global flags and one command with its arguments.

use vstd::prelude::*;

verus! {

/// The parsed command line.
#[derive(Debug)]
pub struct Cli {
    /// Speak gRPC instead of HTTP.
    pub grpc: bool,
    /// The address of the server.
    pub server: String,
    /// The port of the server.
    pub port: String,
    /// The command to run.
    pub command: Commands,
}

/// The commands.
#[derive(Debug)]
pub enum Commands {
    Register(RegisterArgs),
    Login(LoginArgs),
    Create(CreateArgs),
    Get(GetArgs),
    Update(UpdateArgs),
    Delete(DeleteArgs),
    List(ListArgs),
}

#[derive(Debug)]
pub struct RegisterArgs {
    pub username: String,
    pub email: String,
    pub password: String,
}

#[derive(Debug)]
pub struct LoginArgs {
    pub username: String,
    pub password: String,
}

#[derive(Debug)]
pub struct CreateArgs {
    pub title: String,
    pub content: String,
}

#[derive(Clone, Copy, Debug, PartialEq, Eq, Structural)]
pub struct GetArgs {
    pub id: i64,
}

#[derive(Debug)]
pub struct UpdateArgs {
    pub id: i64,
    pub title: Option<String>,
    pub content: Option<String>,
}

#[derive(Clone, Copy, Debug, PartialEq, Eq, Structural)]
pub struct DeleteArgs {
    pub id: i64,
}

/// The page to list: `limit` posts (10 unless given) after `offset` (0
/// unless given).
#[derive(Clone, Copy, Debug, PartialEq, Eq, Structural)]
pub struct ListArgs {
    pub limit: i32,
    pub offset: i32,
}

} // verus!
