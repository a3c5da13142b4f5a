//! The gRPC backend: which call each command makes, and what its outcome
//! means.

use vstd::prelude::*;

use crate::blog_client::error::{decoded_grpc, AppError};
use crate::blog_client::http_client::get_auth_header;
use crate::blog_grpc::{
    CreatePostRequest, DeletePostRequest, GetPostRequest, ListPostsRequest, LoginRequest,
    RegisterRequest, UpdatePostRequest,
};
use crate::domain::error::GrpcStatus;

verus! {

/// The request message of a gRPC call; the variant names the method.
#[derive(Debug)]
pub enum GrpcMessage {
    Register(RegisterRequest),
    Login(LoginRequest),
    CreatePost(CreatePostRequest),
    UpdatePost(UpdatePostRequest),
    DeletePost(DeletePostRequest),
    GetPost(GetPostRequest),
    ListPost(ListPostsRequest),
}

/// A gRPC call to make.
#[derive(Debug)]
pub struct GrpcCall {
    /// The value of the `authorization` metadata, if the call has one.
    pub authorization: Option<String>,
    pub message: GrpcMessage,
}

/// The gRPC backend of the client.
#[derive(Debug)]
pub struct GrpcClient {
    pub url: String,
}

impl GrpcClient {
    /// A backend for the server at `url`.
    pub fn new(url: &str) -> (r: Self)
        ensures
            r.url@ == url@,
    {
        Self { url: url.to_owned() }
    }

    /// The call that registers an actor.
    pub fn register(&self, username: &str, email: &str, password: &str) -> (r: GrpcCall)
        ensures
            r.authorization is None,
            r.message matches GrpcMessage::Register(m) && m.username@ == username@ && m.email@
                == email@ && m.password@ == password@,
    {
        GrpcCall {
            authorization: None,
            message: GrpcMessage::Register(
                RegisterRequest {
                    username: username.to_owned(),
                    email: email.to_owned(),
                    password: password.to_owned(),
                },
            ),
        }
    }

    /// The call that logs an actor in.
    pub fn login(&self, username: &str, password: &str) -> (r: GrpcCall)
        ensures
            r.authorization is None,
            r.message matches GrpcMessage::Login(m) && m.username@ == username@ && m.password@
                == password@,
    {
        GrpcCall {
            authorization: None,
            message: GrpcMessage::Login(
                LoginRequest { username: username.to_owned(), password: password.to_owned() },
            ),
        }
    }

    /// The call that creates a post.
    pub fn create_post(&self, token: &str, title: &str, content: &str) -> (r: GrpcCall)
        ensures
            r.authorization matches Some(h) && h@ == "Bearer "@ + token@,
            r.message matches GrpcMessage::CreatePost(m) && m.title@ == title@ && m.content@
                == content@,
    {
        GrpcCall {
            authorization: Some(get_auth_header(token)),
            message: GrpcMessage::CreatePost(
                CreatePostRequest { title: title.to_owned(), content: content.to_owned() },
            ),
        }
    }

    /// The call that updates the post `post_id`.
    pub fn update_post(
        &self,
        token: &str,
        post_id: i64,
        title: Option<String>,
        content: Option<String>,
    ) -> (r: GrpcCall)
        ensures
            r.authorization matches Some(h) && h@ == "Bearer "@ + token@,
            r.message matches GrpcMessage::UpdatePost(m) && m.id == post_id && m.title == title
                && m.content == content,
    {
        GrpcCall {
            authorization: Some(get_auth_header(token)),
            message: GrpcMessage::UpdatePost(UpdatePostRequest { id: post_id, title, content }),
        }
    }

    /// The call that deletes the post `post_id`.
    pub fn delete_post(&self, token: &str, post_id: i64) -> (r: GrpcCall)
        ensures
            r.authorization matches Some(h) && h@ == "Bearer "@ + token@,
            r.message matches GrpcMessage::DeletePost(m) && m.post_id == post_id,
    {
        GrpcCall {
            authorization: Some(get_auth_header(token)),
            message: GrpcMessage::DeletePost(DeletePostRequest { post_id }),
        }
    }

    /// The call that reads the post `post_id`.
    pub fn get_post(&self, post_id: i64) -> (r: GrpcCall)
        ensures
            r.authorization is None,
            r.message matches GrpcMessage::GetPost(m) && m.id == post_id,
    {
        GrpcCall { authorization: None, message: GrpcMessage::GetPost(GetPostRequest { id: post_id }) }
    }

    /// The call that lists a page of posts.
    pub fn list_posts(&self, limit: i32, offset: i32) -> (r: GrpcCall)
        ensures
            r.authorization is None,
            r.message matches GrpcMessage::ListPost(m) && m.limit == limit && m.offset == offset,
    {
        GrpcCall {
            authorization: None,
            message: GrpcMessage::ListPost(ListPostsRequest { offset, limit }),
        }
    }
}

/// What the outcome of a call means: the response, or the decoded status.
pub fn call_reply<T>(outcome: Result<T, GrpcStatus>) -> (r: Result<T, AppError>)
    ensures
        match r {
            Ok(answer) => outcome == Ok::<T, GrpcStatus>(answer),
            Err(e) => outcome matches Err(status) && e@ == decoded_grpc(
                status.code,
                status.message@,
            ),
        },
{
    match outcome {
        Ok(answer) => Ok(answer),
        Err(status) => Err(AppError::from_grpc(status)),
    }
}

} // verus!
