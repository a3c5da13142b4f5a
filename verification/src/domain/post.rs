//! Posts and the requests that create and change them.

use vstd::prelude::*;

use crate::blog_grpc;
use crate::clock::{representable, timestamp_representable, unix_now};
use crate::domain::error::{BlogError, BlogErrorView};
use crate::ids::{uuid_parsed, uuid_text, UserId};
use crate::text::{decimal_int, format_i64};

verus! {

/// A post. `author_id` is the sole key of ownership and never changes.
#[derive(Clone, Debug)]
pub struct Post {
    pub id: i64,
    pub title: String,
    pub content: String,
    pub author_id: UserId,
    /// Seconds since the Unix epoch.
    pub created_at: i64,
    pub updated_at: Option<i64>,
}

/// A `Post` as plain values.
pub struct PostView {
    pub id: i64,
    pub title: Seq<char>,
    pub content: Seq<char>,
    pub author_id: UserId,
    pub created_at: i64,
    pub updated_at: Option<i64>,
}

impl View for Post {
    type V = PostView;

    open spec fn view(&self) -> PostView {
        PostView {
            id: self.id,
            title: self.title@,
            content: self.content@,
            author_id: self.author_id,
            created_at: self.created_at,
            updated_at: self.updated_at,
        }
    }
}

/// The title and content of a post to create.
#[derive(Debug)]
pub struct CreatePost {
    pub title: String,
    pub content: String,
}

/// The title and content that replace those of a post.
#[derive(Debug)]
pub struct UpdatePost {
    pub title: String,
    pub content: String,
}

impl PostView {
    /// The post on the wire: the author's identifier as hyphenated text.
    pub open spec fn to_wire(self) -> blog_grpc::PostView {
        blog_grpc::PostView {
            id: self.id,
            title: self.title,
            content: self.content,
            author_id: uuid_text(self.author_id.0),
            created_at: self.created_at,
            updated_at: self.updated_at,
        }
    }
}

/// What reading a wire post gives: the same post with the author as an
/// identifier, or none where the author is no UUID or the time of creation
/// is out of range.
pub open spec fn read_wire(value: blog_grpc::PostView) -> Option<PostView> {
    match uuid_parsed(value.author_id) {
        Some(bits) => if timestamp_representable(value.created_at) {
            Some(
                PostView {
                    id: value.id,
                    title: value.title,
                    content: value.content,
                    author_id: UserId(bits),
                    created_at: value.created_at,
                    updated_at: value.updated_at,
                },
            )
        } else {
            None
        },
        None => None,
    }
}

impl Post {
    /// A post created now and never updated.
    pub fn new(id: i64, title: String, content: String, author_id: UserId) -> (r: Post)
        ensures
            r.id == id,
            r.title@ == title@,
            r.content@ == content@,
            r.author_id == author_id,
            r.updated_at is None,
    {
        Post { id, title, content, author_id, created_at: unix_now(), updated_at: None }
    }

    /// A copy of the post.
    pub fn duplicate(&self) -> (r: Post)
        ensures
            r@ == self@,
    {
        Post {
            id: self.id,
            title: self.title.clone(),
            content: self.content.clone(),
            author_id: self.author_id,
            created_at: self.created_at,
            updated_at: self.updated_at,
        }
    }

    /// Reads a post from its wire form. The author must be a UUID and the
    /// time of creation one that chrono represents; a post that was never
    /// updated comes back without a time of update.
    pub fn try_from(value: blog_grpc::Post) -> (r: Result<Post, BlogError>)
        ensures
            match r {
                Ok(p) => read_wire(value@) == Some(p@),
                Err(e) => read_wire(value@) is None && e@ is Validation && (uuid_parsed(
                    value.author_id@,
                ) is Some ==> e@ == BlogErrorView::Validation(
                    decimal_int(value.created_at as int),
                )),
            },
    {
        let author_id = match UserId::parse(value.author_id.as_str()) {
            Ok(id) => id,
            Err(e) => {
                return Err(BlogError::Validation(e.reason));
            },
        };
        if !representable(value.created_at) {
            return Err(BlogError::Validation(format_i64(value.created_at)));
        }
        Ok(
            Post {
                id: value.id,
                title: value.title,
                content: value.content,
                author_id,
                created_at: value.created_at,
                updated_at: value.updated_at,
            },
        )
    }

    /// The wire form of the post, from which `try_from` reads the post
    /// back where its time of creation is in range.
    pub fn into_wire(self) -> (r: blog_grpc::Post)
        ensures
            r@ == self@.to_wire(),
            timestamp_representable(self.created_at) ==> read_wire(r@) == Some(self@),
    {
        blog_grpc::Post {
            id: self.id,
            title: self.title,
            content: self.content,
            author_id: self.author_id.to_text(),
            created_at: self.created_at,
            updated_at: self.updated_at,
        }
    }
}

impl CreatePost {
    /// The domain request of a wire request.
    pub fn from_wire(value: blog_grpc::CreatePostRequest) -> (r: CreatePost)
        ensures
            r.title@ == value.title@,
            r.content@ == value.content@,
    {
        CreatePost { title: value.title, content: value.content }
    }
}

} // verus!
