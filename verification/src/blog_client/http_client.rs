//! The HTTP backend: which request each command sends, and what its
//! response means.

use vstd::prelude::*;

use crate::blog_client::error::{decoded_http, status_text, AppError, AppErrorView};
use crate::blog_grpc::{
    AuthResponse, CreatePostRequest, DeletePostResponse, ListPostsResponse, LoginRequest, Post,
    PostResponse, RegisterRequest, UpdatePostRequest,
};
use crate::domain::error::{ErrorResponse, ErrorResponseView};
use crate::text::{decimal_int, format_i64, join2};

verus! {

/// The method of an HTTP request.
#[derive(Clone, Copy, Debug, PartialEq, Eq, Structural)]
pub enum Method {
    Get,
    Post,
    Put,
    Delete,
}

/// The JSON body of an HTTP request.
#[derive(Debug)]
pub enum Body {
    Empty,
    Register(RegisterRequest),
    Login(LoginRequest),
    CreatePost(CreatePostRequest),
    UpdatePost(UpdatePostRequest),
}

/// An HTTP request to send.
#[derive(Debug)]
pub struct HttpRequest {
    pub method: Method,
    pub url: String,
    /// The value of the `Authorization` header, if the request has one.
    pub authorization: Option<String>,
    pub body: Body,
}

/// An HTTP response as it came back: the status, the body where it parsed
/// as the expected message, and the error body where it parsed as one.
#[derive(Debug)]
pub struct HttpReply<T> {
    pub status: u16,
    pub body: Option<T>,
    pub error: Option<ErrorResponse>,
}

impl<T> HttpReply<T> {
    /// The error body as plain values.
    pub open spec fn error_view(self) -> Option<ErrorResponseView> {
        match self.error {
            Some(b) => Some(b@),
            None => None,
        }
    }
}

/// Whether `status` is a success: 200 to 299.
pub open spec fn is_success(status: u16) -> bool {
    200 <= status <= 299
}

/// Whether `status` is a success.
pub fn status_is_success(status: u16) -> (r: bool)
    ensures
        r == is_success(status),
{
    200 <= status && status <= 299
}

/// The value of the `Authorization` header for `token`.
pub fn get_auth_header(token: &str) -> (r: String)
    ensures
        r@ == "Bearer "@ + token@,
{
    join2("Bearer ", token)
}

/// `addr` followed by `path`.
fn endpoint(addr: &str, path: &str) -> (r: String)
    ensures
        r@ == addr@ + path@,
{
    join2(addr, path)
}

/// The HTTP backend of the client.
#[derive(Debug)]
pub struct HttpClient {
    pub addr: String,
}

impl HttpClient {
    /// A backend for the server at `addr`.
    pub fn new(addr: &str) -> (r: Self)
        ensures
            r.addr@ == addr@,
    {
        Self { addr: addr.to_owned() }
    }

    /// The request that registers an actor.
    pub fn register(&self, username: &str, email: &str, password: &str) -> (r: HttpRequest)
        ensures
            r.method == Method::Post,
            r.url@ == self.addr@ + "/api/auth/register"@,
            r.authorization is None,
            r.body matches Body::Register(m) && m.username@ == username@ && m.email@ == email@
                && m.password@ == password@,
    {
        HttpRequest {
            method: Method::Post,
            url: endpoint(self.addr.as_str(), "/api/auth/register"),
            authorization: None,
            body: Body::Register(
                RegisterRequest {
                    username: username.to_owned(),
                    email: email.to_owned(),
                    password: password.to_owned(),
                },
            ),
        }
    }

    /// The request that logs an actor in.
    pub fn login(&self, username: &str, password: &str) -> (r: HttpRequest)
        ensures
            r.method == Method::Post,
            r.url@ == self.addr@ + "/api/auth/login"@,
            r.authorization is None,
            r.body matches Body::Login(m) && m.username@ == username@ && m.password@ == password@,
    {
        HttpRequest {
            method: Method::Post,
            url: endpoint(self.addr.as_str(), "/api/auth/login"),
            authorization: None,
            body: Body::Login(
                LoginRequest { username: username.to_owned(), password: password.to_owned() },
            ),
        }
    }

    /// The request that creates a post.
    pub fn create_post(&self, token: &str, title: &str, content: &str) -> (r: HttpRequest)
        ensures
            r.method == Method::Post,
            r.url@ == self.addr@ + "/protect/post"@,
            r.authorization matches Some(h) && h@ == "Bearer "@ + token@,
            r.body matches Body::CreatePost(m) && m.title@ == title@ && m.content@ == content@,
    {
        HttpRequest {
            method: Method::Post,
            url: endpoint(self.addr.as_str(), "/protect/post"),
            authorization: Some(get_auth_header(token)),
            body: Body::CreatePost(
                CreatePostRequest { title: title.to_owned(), content: content.to_owned() },
            ),
        }
    }

    /// The request that updates the post `post_id`.
    pub fn update_post(
        &self,
        token: &str,
        post_id: i64,
        title: Option<String>,
        content: Option<String>,
    ) -> (r: HttpRequest)
        ensures
            r.method == Method::Put,
            r.url@ == self.addr@ + "/protect/post/"@ + decimal_int(post_id as int),
            r.authorization matches Some(h) && h@ == "Bearer "@ + token@,
            r.body matches Body::UpdatePost(m) && m.id == post_id && m.title == title && m.content
                == content,
    {
        let id = format_i64(post_id);
        let base = endpoint(self.addr.as_str(), "/protect/post/");
        HttpRequest {
            method: Method::Put,
            url: endpoint(base.as_str(), id.as_str()),
            authorization: Some(get_auth_header(token)),
            body: Body::UpdatePost(UpdatePostRequest { id: post_id, title, content }),
        }
    }

    /// The request that deletes the post `post_id`.
    pub fn delete_post(&self, token: &str, post_id: i64) -> (r: HttpRequest)
        ensures
            r.method == Method::Delete,
            r.url@ == self.addr@ + "/protect/post/"@ + decimal_int(post_id as int),
            r.authorization matches Some(h) && h@ == "Bearer "@ + token@,
            r.body is Empty,
    {
        let id = format_i64(post_id);
        let base = endpoint(self.addr.as_str(), "/protect/post/");
        HttpRequest {
            method: Method::Delete,
            url: endpoint(base.as_str(), id.as_str()),
            authorization: Some(get_auth_header(token)),
            body: Body::Empty,
        }
    }

    /// The request that reads the post `post_id`.
    pub fn get_post(&self, post_id: i64) -> (r: HttpRequest)
        ensures
            r.method == Method::Get,
            r.url@ == self.addr@ + "/api/posts/"@ + decimal_int(post_id as int),
            r.authorization is None,
            r.body is Empty,
    {
        let id = format_i64(post_id);
        let base = endpoint(self.addr.as_str(), "/api/posts/");
        HttpRequest {
            method: Method::Get,
            url: endpoint(base.as_str(), id.as_str()),
            authorization: None,
            body: Body::Empty,
        }
    }

    /// The request that lists a page of posts.
    pub fn list_posts(&self, limit: i32, offset: i32) -> (r: HttpRequest)
        ensures
            r.method == Method::Get,
            r.url@ == self.addr@ + "/api/posts?limit="@ + decimal_int(limit as int) + "&offset="@
                + decimal_int(offset as int),
            r.authorization is None,
            r.body is Empty,
    {
        let limit_text = format_i64(limit as i64);
        let offset_text = format_i64(offset as i64);
        let a = endpoint(self.addr.as_str(), "/api/posts?limit=");
        let b = endpoint(a.as_str(), limit_text.as_str());
        let c = endpoint(b.as_str(), "&offset=");
        HttpRequest {
            method: Method::Get,
            url: endpoint(c.as_str(), offset_text.as_str()),
            authorization: None,
            body: Body::Empty,
        }
    }
}

/// What a response to a registration or a login means: the token of a
/// success; `Unauthorized` for a success whose body is no token; the decoded
/// error otherwise.
pub fn auth_reply(reply: HttpReply<AuthResponse>) -> (r: Result<AuthResponse, AppError>)
    ensures
        match r {
            Ok(answer) => is_success(reply.status) && reply.body == Some(answer),
            Err(e) => if is_success(reply.status) {
                reply.body is None && e is Unauthorized
            } else {
                e@ == decoded_http(reply.status, reply.error_view())
            },
        },
{
    if status_is_success(reply.status) {
        match reply.body {
            Some(token) => Ok(token),
            None => Err(AppError::Unauthorized),
        }
    } else {
        Err(AppError::from_http(reply.status, reply.error))
    }
}

/// What a response to the creation or the update of a post means: the post
/// of a success; `Internal` for a success whose body is no post; the
/// decoded error otherwise.
pub fn post_reply(reply: HttpReply<Post>) -> (r: Result<PostResponse, AppError>)
    ensures
        match r {
            Ok(answer) => is_success(reply.status) && reply.body is Some && answer.post
                == reply.body,
            Err(e) => if is_success(reply.status) {
                reply.body is None && e@ == AppErrorView::Internal(status_text(reply.status))
            } else {
                e@ == decoded_http(reply.status, reply.error_view())
            },
        },
{
    if status_is_success(reply.status) {
        match reply.body {
            Some(post) => Ok(PostResponse { post: Some(post) }),
            None => Err(AppError::Internal(crate::blog_client::error::status_message(reply.status))),
        }
    } else {
        Err(AppError::from_http(reply.status, reply.error))
    }
}

/// What a response that carries a whole message means (deletion, reading,
/// listing): the message of a success; `Internal` for a success whose body
/// is not that message; the decoded error otherwise.
pub fn message_reply<T>(reply: HttpReply<T>) -> (r: Result<T, AppError>)
    ensures
        match r {
            Ok(answer) => is_success(reply.status) && reply.body == Some(answer),
            Err(e) => if is_success(reply.status) {
                reply.body is None && e@ == AppErrorView::Internal(status_text(reply.status))
            } else {
                e@ == decoded_http(reply.status, reply.error_view())
            },
        },
{
    if status_is_success(reply.status) {
        match reply.body {
            Some(message) => Ok(message),
            None => Err(AppError::Internal(crate::blog_client::error::status_message(reply.status))),
        }
    } else {
        Err(AppError::from_http(reply.status, reply.error))
    }
}

} // verus!
