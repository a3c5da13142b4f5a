//! The dispatcher: one command surface over the backend that was chosen at
//! construction. A command that changes content needs a stored token;
//! without one it fails at once and nothing is sent.

use vstd::prelude::*;

use crate::blog_client::error::{decoded_grpc, decoded_http, status_text, AppError, AppErrorView};
use crate::blog_client::grpc_client::{call_reply, GrpcCall, GrpcClient, GrpcMessage};
use crate::blog_client::http_client::{
    auth_reply, is_success, message_reply, post_reply, Body, HttpClient, HttpReply, HttpRequest,
    Method,
};
use crate::blog_grpc::{
    AuthResponse, DeletePostResponse, ListPostsResponse, Post, PostResponse,
};
use crate::domain::error::GrpcStatus;
use crate::text::decimal_int;

verus! {

/// The transport of a client and the address of the server.
#[derive(Debug)]
pub enum Transport {
    Http(String),
    Grpc(String),
}

/// The backend of a client: one of the two, fixed for its lifetime.
#[derive(Debug)]
pub enum Backend {
    Http(HttpClient),
    Grpc(GrpcClient),
}

/// What a command sends.
#[derive(Debug)]
pub enum Request {
    Http(HttpRequest),
    Grpc(GrpcCall),
}

/// What came back for a command: an HTTP response whose body is expected
/// to be an `H`, or the outcome of a gRPC call that answers with a `G`.
#[derive(Debug)]
pub enum Answer<H, G> {
    Http(HttpReply<H>),
    Grpc(Result<G, GrpcStatus>),
}

/// The client.
#[derive(Debug)]
pub struct BlogClient {
    pub backend: Backend,
    pub token: Option<String>,
}

impl Request {
    /// The `Authorization` value that the request carries.
    pub open spec fn authorization(self) -> Option<Seq<char>> {
        match self {
            Request::Http(h) => match h.authorization {
                Some(v) => Some(v@),
                None => None,
            },
            Request::Grpc(g) => match g.authorization {
                Some(v) => Some(v@),
                None => None,
            },
        }
    }
}

impl Clone for Transport {
    fn clone(&self) -> (r: Self)
        ensures
            r == *self,
    {
        match self {
            Transport::Http(url) => Transport::Http(url.clone()),
            Transport::Grpc(url) => Transport::Grpc(url.clone()),
        }
    }
}

impl BlogClient {
    /// Whether the client speaks HTTP.
    pub open spec fn over_http(&self) -> bool {
        self.backend is Http
    }

    /// A client over `transport`, with no token.
    pub fn new(transport: Transport) -> (r: Self)
        ensures
            r.token is None,
            match transport {
                Transport::Http(url) => r.backend matches Backend::Http(c) && c.addr@ == url@,
                Transport::Grpc(url) => r.backend matches Backend::Grpc(c) && c.url@ == url@,
            },
    {
        match transport {
            Transport::Http(url) => BlogClient {
                backend: Backend::Http(HttpClient::new(url.as_str())),
                token: None,
            },
            Transport::Grpc(url) => BlogClient {
                backend: Backend::Grpc(GrpcClient::new(url.as_str())),
                token: None,
            },
        }
    }

    /// Stores `token` for the commands that need one.
    pub fn set_token(&mut self, token: String)
        ensures
            final(self).token == Some(token),
            final(self).backend == old(self).backend,
    {
        self.token = Some(token);
    }

    /// The stored token.
    pub fn get_token(&self) -> (r: Option<&String>)
        ensures
            match r {
                Some(t) => self.token == Some(*t),
                None => self.token is None,
            },
    {
        self.token.as_ref()
    }

    /// The request that registers an actor.
    pub fn register(&self, username: &str, email: &str, password: &str) -> (r: Request)
        ensures
            match r {
                Request::Http(h) => {
                    &&& self.backend matches Backend::Http(c)
                    &&& h.method == Method::Post
                    &&& h.url@ == c.addr@ + "/api/auth/register"@
                    &&& h.authorization is None
                    &&& h.body matches Body::Register(m) && m.username@ == username@ && m.email@
                        == email@ && m.password@ == password@
                },
                Request::Grpc(g) => {
                    &&& self.backend is Grpc
                    &&& g.authorization is None
                    &&& g.message matches GrpcMessage::Register(m) && m.username@ == username@
                        && m.email@ == email@ && m.password@ == password@
                },
            },
    {
        match &self.backend {
            Backend::Http(client) => Request::Http(client.register(username, email, password)),
            Backend::Grpc(client) => Request::Grpc(client.register(username, email, password)),
        }
    }

    /// The request that logs an actor in.
    pub fn login(&self, username: &str, password: &str) -> (r: Request)
        ensures
            match r {
                Request::Http(h) => {
                    &&& self.backend matches Backend::Http(c)
                    &&& h.method == Method::Post
                    &&& h.url@ == c.addr@ + "/api/auth/login"@
                    &&& h.authorization is None
                    &&& h.body matches Body::Login(m) && m.username@ == username@ && m.password@
                        == password@
                },
                Request::Grpc(g) => {
                    &&& self.backend is Grpc
                    &&& g.authorization is None
                    &&& g.message matches GrpcMessage::Login(m) && m.username@ == username@
                        && m.password@ == password@
                },
            },
    {
        match &self.backend {
            Backend::Http(client) => Request::Http(client.login(username, password)),
            Backend::Grpc(client) => Request::Grpc(client.login(username, password)),
        }
    }

    /// The request that creates a post, with the stored token; without a
    /// token, `Unauthorized` and no request.
    pub fn create_post(&self, title: &str, content: &str) -> (r: Result<Request, AppError>)
        ensures
            match r {
                Ok(Request::Http(h)) => {
                    &&& self.backend matches Backend::Http(c)
                    &&& self.token matches Some(token)
                    &&& h.method == Method::Post
                    &&& h.url@ == c.addr@ + "/protect/post"@
                    &&& h.authorization matches Some(v) && v@ == "Bearer "@ + token@
                    &&& h.body matches Body::CreatePost(m) && m.title@ == title@ && m.content@
                        == content@
                },
                Ok(Request::Grpc(g)) => {
                    &&& self.backend is Grpc
                    &&& self.token matches Some(token)
                    &&& g.authorization matches Some(v) && v@ == "Bearer "@ + token@
                    &&& g.message matches GrpcMessage::CreatePost(m) && m.title@ == title@
                        && m.content@ == content@
                },
                Err(e) => self.token is None && e is Unauthorized,
            },
    {
        let token = match &self.token {
            Some(token) => token,
            None => {
                return Err(AppError::Unauthorized);
            },
        };
        match &self.backend {
            Backend::Http(client) => Ok(
                Request::Http(client.create_post(token.as_str(), title, content)),
            ),
            Backend::Grpc(client) => Ok(
                Request::Grpc(client.create_post(token.as_str(), title, content)),
            ),
        }
    }

    /// The request that updates the post `post_id`, with the stored token;
    /// without a token, `Unauthorized` and no request.
    pub fn update_post(&self, post_id: i64, title: Option<String>, content: Option<String>) -> (r:
        Result<Request, AppError>)
        ensures
            match r {
                Ok(Request::Http(h)) => {
                    &&& self.backend matches Backend::Http(c)
                    &&& self.token matches Some(token)
                    &&& h.method == Method::Put
                    &&& h.url@ == c.addr@ + "/protect/post/"@ + decimal_int(post_id as int)
                    &&& h.authorization matches Some(v) && v@ == "Bearer "@ + token@
                    &&& h.body matches Body::UpdatePost(m) && m.id == post_id && m.title == title
                        && m.content == content
                },
                Ok(Request::Grpc(g)) => {
                    &&& self.backend is Grpc
                    &&& self.token matches Some(token)
                    &&& g.authorization matches Some(v) && v@ == "Bearer "@ + token@
                    &&& g.message matches GrpcMessage::UpdatePost(m) && m.id == post_id && m.title
                        == title && m.content == content
                },
                Err(e) => self.token is None && e is Unauthorized,
            },
    {
        let token = match &self.token {
            Some(token) => token,
            None => {
                return Err(AppError::Unauthorized);
            },
        };
        match &self.backend {
            Backend::Http(client) => Ok(
                Request::Http(client.update_post(token.as_str(), post_id, title, content)),
            ),
            Backend::Grpc(client) => Ok(
                Request::Grpc(client.update_post(token.as_str(), post_id, title, content)),
            ),
        }
    }

    /// The request that deletes the post `post_id`, with the stored token;
    /// without a token, `Unauthorized` and no request.
    pub fn delete_post(&self, post_id: i64) -> (r: Result<Request, AppError>)
        ensures
            match r {
                Ok(Request::Http(h)) => {
                    &&& self.backend matches Backend::Http(c)
                    &&& self.token matches Some(token)
                    &&& h.method == Method::Delete
                    &&& h.url@ == c.addr@ + "/protect/post/"@ + decimal_int(post_id as int)
                    &&& h.authorization matches Some(v) && v@ == "Bearer "@ + token@
                    &&& h.body is Empty
                },
                Ok(Request::Grpc(g)) => {
                    &&& self.backend is Grpc
                    &&& self.token matches Some(token)
                    &&& g.authorization matches Some(v) && v@ == "Bearer "@ + token@
                    &&& g.message matches GrpcMessage::DeletePost(m) && m.post_id == post_id
                },
                Err(e) => self.token is None && e is Unauthorized,
            },
    {
        let token = match &self.token {
            Some(token) => token,
            None => {
                return Err(AppError::Unauthorized);
            },
        };
        match &self.backend {
            Backend::Http(client) => Ok(Request::Http(client.delete_post(token.as_str(), post_id))),
            Backend::Grpc(client) => Ok(Request::Grpc(client.delete_post(token.as_str(), post_id))),
        }
    }

    /// The request that reads the post `post_id`.
    pub fn get_post(&self, post_id: i64) -> (r: Request)
        ensures
            match r {
                Request::Http(h) => {
                    &&& self.backend matches Backend::Http(c)
                    &&& h.method == Method::Get
                    &&& h.url@ == c.addr@ + "/api/posts/"@ + decimal_int(post_id as int)
                    &&& h.authorization is None
                    &&& h.body is Empty
                },
                Request::Grpc(g) => {
                    &&& self.backend is Grpc
                    &&& g.authorization is None
                    &&& g.message matches GrpcMessage::GetPost(m) && m.id == post_id
                },
            },
    {
        match &self.backend {
            Backend::Http(client) => Request::Http(client.get_post(post_id)),
            Backend::Grpc(client) => Request::Grpc(client.get_post(post_id)),
        }
    }

    /// The request that lists a page of posts.
    pub fn list_posts(&self, limit: i32, offset: i32) -> (r: Request)
        ensures
            match r {
                Request::Http(h) => {
                    &&& self.backend matches Backend::Http(c)
                    &&& h.method == Method::Get
                    &&& h.url@ == c.addr@ + "/api/posts?limit="@ + decimal_int(limit as int)
                        + "&offset="@ + decimal_int(offset as int)
                    &&& h.authorization is None
                    &&& h.body is Empty
                },
                Request::Grpc(g) => {
                    &&& self.backend is Grpc
                    &&& g.authorization is None
                    &&& g.message matches GrpcMessage::ListPost(m) && m.limit == limit && m.offset
                        == offset
                },
            },
    {
        match &self.backend {
            Backend::Http(client) => Request::Http(client.list_posts(limit, offset)),
            Backend::Grpc(client) => Request::Grpc(client.list_posts(limit, offset)),
        }
    }
}

/// The error that a failed answer carries, whichever transport it came by;
/// `None` for an answer that is a success.
pub open spec fn failure<H, G>(answer: Answer<H, G>, unreadable: AppErrorView) -> Option<
    AppErrorView,
> {
    match answer {
        Answer::Http(reply) => if is_success(reply.status) {
            if reply.body is Some {
                None
            } else {
                Some(unreadable)
            }
        } else {
            Some(decoded_http(reply.status, reply.error_view()))
        },
        Answer::Grpc(outcome) => match outcome {
            Ok(_) => None,
            Err(status) => Some(decoded_grpc(status.code, status.message@)),
        },
    }
}

/// The error of a successful HTTP answer, with status `status`, whose body
/// is not the expected message.
pub open spec fn unreadable_body<H, G>(answer: Answer<H, G>) -> AppErrorView {
    match answer {
        Answer::Http(reply) => AppErrorView::Internal(status_text(reply.status)),
        Answer::Grpc(_) => AppErrorView::Internal(Seq::empty()),
    }
}

/// What the answer to a registration or a login means: the token, or the
/// error in the one taxonomy.
pub fn settle_auth(answer: Answer<AuthResponse, AuthResponse>) -> (r: Result<AuthResponse, AppError>)
    ensures
        match r {
            Ok(token) => failure(answer, AppErrorView::Unauthorized) is None && (match answer {
                Answer::Http(reply) => reply.body == Some(token),
                Answer::Grpc(outcome) => outcome == Ok::<AuthResponse, GrpcStatus>(token),
            }),
            Err(e) => failure(answer, AppErrorView::Unauthorized) == Some(e@),
        },
{
    match answer {
        Answer::Http(reply) => auth_reply(reply),
        Answer::Grpc(outcome) => call_reply(outcome),
    }
}

/// What the answer to the creation or the update of a post means: the
/// stored post, or the error in the one taxonomy.
pub fn settle_post(answer: Answer<Post, PostResponse>) -> (r: Result<PostResponse, AppError>)
    ensures
        match r {
            Ok(found) => failure(answer, unreadable_body(answer)) is None && (match answer {
                Answer::Http(reply) => found.post == reply.body,
                Answer::Grpc(outcome) => outcome == Ok::<PostResponse, GrpcStatus>(found),
            }),
            Err(e) => failure(answer, unreadable_body(answer)) == Some(e@),
        },
{
    match answer {
        Answer::Http(reply) => post_reply(reply),
        Answer::Grpc(outcome) => call_reply(outcome),
    }
}

/// What the answer to a command that answers with one message on both
/// transports means (deletion, reading, listing): the message, or the
/// error in the one taxonomy.
pub fn settle<T>(answer: Answer<T, T>) -> (r: Result<T, AppError>)
    ensures
        match r {
            Ok(found) => failure(answer, unreadable_body(answer)) is None && (match answer {
                Answer::Http(reply) => reply.body == Some(found),
                Answer::Grpc(outcome) => outcome == Ok::<T, GrpcStatus>(found),
            }),
            Err(e) => failure(answer, unreadable_body(answer)) == Some(e@),
        },
{
    match answer {
        Answer::Http(reply) => message_reply(reply),
        Answer::Grpc(outcome) => call_reply(outcome),
    }
}

} // verus!
