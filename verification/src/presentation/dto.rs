//! The bodies of the HTTP surface.

use vstd::prelude::*;

use crate::domain::post::Post;
use crate::ids::UserId;

verus! {

/// The answer of the health check.
#[derive(Debug)]
pub struct HealthResponse {
    pub status: String,
    /// Seconds since the Unix epoch.
    pub timestamp: i64,
}

/// The page that a listing asks for.
#[derive(Clone, Copy, Debug, PartialEq, Eq, Structural)]
pub struct PaginationParams {
    pub limit: i32,
    pub offset: i32,
}

/// The size of a page where the request names none.
pub fn default_limit() -> (r: i32)
    ensures
        r == 10,
{
    10
}

/// The offset of a page where the request names none.
pub fn default_offset() -> (r: i32)
    ensures
        r == 0,
{
    0
}

impl PaginationParams {
    /// The page for the values that a request names, with the defaults for
    /// those it leaves out.
    pub fn from_query(limit: Option<i32>, offset: Option<i32>) -> (r: PaginationParams)
        ensures
            r.limit == (match limit {
                Some(l) => l,
                None => 10,
            }),
            r.offset == (match offset {
                Some(o) => o,
                None => 0,
            }),
    {
        PaginationParams {
            limit: match limit {
                Some(l) => l,
                None => default_limit(),
            },
            offset: match offset {
                Some(o) => o,
                None => default_offset(),
            },
        }
    }
}

/// A page of posts.
#[derive(Debug)]
pub struct ListPostsResponse {
    pub post: Vec<Post>,
    pub total: i32,
    pub limit: i32,
    pub offset: i32,
}

/// The answer to a registration or a login.
#[derive(Debug)]
pub struct AuthResponse {
    pub token: String,
    pub uuid: UserId,
}

/// The answer to a request for one post.
#[derive(Debug)]
pub struct PostResponse {
    pub post: Post,
}

/// The answer to a deletion.
#[derive(Clone, Copy, Debug, PartialEq, Eq, Structural)]
pub struct DeleteResponse {
    pub post: i64,
    pub delete: bool,
}

/// A successful answer: its HTTP status and its body.
#[derive(Debug)]
pub struct Reply<T> {
    pub status: u16,
    pub body: T,
}

} // verus!
