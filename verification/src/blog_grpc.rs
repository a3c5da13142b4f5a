//! The messages of the gRPC surface, as plain values.

use vstd::prelude::*;

verus! {

/// A post on the wire: the author as text, times as seconds.
#[derive(Debug)]
pub struct Post {
    pub id: i64,
    pub title: String,
    pub content: String,
    pub author_id: String,
    pub created_at: i64,
    pub updated_at: Option<i64>,
}

/// A wire `Post` as plain values.
pub struct PostView {
    pub id: i64,
    pub title: Seq<char>,
    pub content: Seq<char>,
    pub author_id: Seq<char>,
    pub created_at: i64,
    pub updated_at: Option<i64>,
}

impl View for Post {
    type V = PostView;

    open spec fn view(&self) -> PostView {
        PostView {
            id: self.id,
            title: self.title@,
            content: self.content@,
            author_id: self.author_id@,
            created_at: self.created_at,
            updated_at: self.updated_at,
        }
    }
}

#[derive(Debug)]
pub struct RegisterRequest {
    pub username: String,
    pub email: String,
    pub password: String,
}

#[derive(Debug)]
pub struct LoginRequest {
    pub username: String,
    pub password: String,
}

#[derive(Debug)]
pub struct AuthResponse {
    pub token: String,
}

#[derive(Debug)]
pub struct CreatePostRequest {
    pub title: String,
    pub content: String,
}

#[derive(Debug)]
pub struct GetPostRequest {
    pub id: i64,
}

/// An update of a post; a field left out keeps its stored value.
#[derive(Debug)]
pub struct UpdatePostRequest {
    pub id: i64,
    pub title: Option<String>,
    pub content: Option<String>,
}

#[derive(Debug)]
pub struct DeletePostRequest {
    pub post_id: i64,
}

#[derive(Debug)]
pub struct DeletePostResponse {
    pub success: bool,
}

#[derive(Debug)]
pub struct ListPostsRequest {
    pub offset: i32,
    pub limit: i32,
}

#[derive(Debug)]
pub struct PostResponse {
    pub post: Option<Post>,
}

#[derive(Debug)]
pub struct ListPostsResponse {
    pub post: Vec<Post>,
    pub total: i32,
    pub limit: i32,
    pub offset: i32,
}

} // verus!
