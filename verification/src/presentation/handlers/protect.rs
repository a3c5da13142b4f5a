//! The protected operations: each is called for the actor that the guard
//! resolved, and update and delete check ownership before they change
//! anything.

use vstd::prelude::*;

use crate::application::blog_service::{creation, deletion, replacement};
use crate::application::BlogService;
use crate::data::post_repository::{has_post, PostRepository};
use crate::domain::error::{BlogError, BlogErrorView};
use crate::domain::post::{CreatePost, Post, PostView, UpdatePost};
use crate::ids::UserId;
use crate::presentation::auth::AuthenticatedUser;
use crate::presentation::dto::{DeleteResponse, Reply};

verus! {

/// Whether a post with identifier `id` is stored and no stored post with
/// that identifier is of `actor`.
pub open spec fn owned_by_another(posts: Seq<PostView>, id: i64, actor: UserId) -> bool {
    &&& has_post(posts, id)
    &&& forall|i: int|
        0 <= i < posts.len() && (#[trigger] posts[i]).id == id ==> posts[i].author_id != actor
}

/// Whether a post with identifier `id` is stored and is of `actor`.
pub open spec fn owned_by(posts: Seq<PostView>, id: i64, actor: UserId) -> bool {
    exists|i: int| 0 <= i < posts.len() && (#[trigger] posts[i]).id == id && posts[i].author_id
        == actor
}

/// What a dependable store makes of an update or a deletion of the post
/// `id` by `actor`, as the error or none: success for the author,
/// `Forbidden` for anyone else, `NotFound` where there is no such post.
pub open spec fn guarded(
    posts: Seq<PostView>,
    id: i64,
    actor: UserId,
    failure: Option<BlogErrorView>,
) -> bool {
    failure == (if !has_post(posts, id) {
        Some(BlogErrorView::NotFound("Posts not found"@))
    } else if owned_by(posts, id, actor) {
        None
    } else {
        Some(BlogErrorView::Forbidden)
    })
}

/// An update or a deletion of a post by an actor who is not its author is
/// `Forbidden`, whatever else is true of the request; by its author it
/// succeeds.
pub proof fn lemma_only_the_author_passes(
    posts: Seq<PostView>,
    id: i64,
    actor: UserId,
    failure: Option<BlogErrorView>,
)
    requires
        guarded(posts, id, actor, failure),
    ensures
        owned_by_another(posts, id, actor) ==> failure == Some(BlogErrorView::Forbidden),
        owned_by(posts, id, actor) ==> failure is None,
{
    if owned_by(posts, id, actor) {
        let i = choose|i: int|
            0 <= i < posts.len() && (#[trigger] posts[i]).id == id && posts[i].author_id == actor;
        assert(posts[i].id == id);
    }
}

/// The post of a reply, or the error, as plain values.
pub open spec fn stored(r: Result<Reply<Post>, BlogError>) -> Result<PostView, BlogErrorView> {
    match r {
        Ok(reply) => Ok(reply.body@),
        Err(e) => Err(e@),
    }
}

/// The ownership check: only the recorded author of a resource passes.
pub fn ensure_owner(autor: UserId, user: &AuthenticatedUser) -> (r: Result<(), BlogError>)
    ensures
        match r {
            Ok(_) => autor == user.id,
            Err(e) => autor != user.id && e is Forbidden,
        },
{
    if autor != user.id {
        Err(BlogError::Forbidden)
    } else {
        Ok(())
    }
}

/// The identifier of a request for the log, or `unknown`.
pub fn request_id(tagged: Option<String>) -> (r: String)
    ensures
        r@ == (match tagged {
            Some(id) => id@,
            None => "unknown"@,
        }),
{
    match tagged {
        Some(id) => id,
        None => "unknown".to_owned(),
    }
}

/// Creates a post of `user`: answers 201 with the stored post.
pub fn create_post<R: PostRepository>(
    user: &AuthenticatedUser,
    blog_service: &mut BlogService<R>,
    payload: CreatePost,
) -> (r: Result<Reply<Post>, BlogError>)
    ensures
        r matches Ok(reply) ==> reply.status == 201,
        final(blog_service).data.dependable() == old(blog_service).data.dependable(),
        creation(
            old(blog_service).data.dependable() && old(blog_service).data.has_room(),
            old(blog_service).data.posts(),
            final(blog_service).data.posts(),
            payload.title@,
            payload.content@,
            user.id,
            stored(r),
        ),
{
    let post = blog_service.create_post(payload, user.id)?;
    Ok(Reply { status: 201, body: post })
}

/// Replaces title and content of the post `post_id`, for its author only:
/// answers 200 with the stored post. For any other actor the answer is
/// `Forbidden` and nothing changes.
pub fn update_post<R: PostRepository>(
    user: &AuthenticatedUser,
    blog_service: &mut BlogService<R>,
    post_id: i64,
    payload: UpdatePost,
) -> (r: Result<Reply<Post>, BlogError>)
    ensures
        match r {
            Ok(reply) => {
                &&& reply.status == 200
                &&& reply.body.author_id == user.id
                &&& replacement(
                    old(blog_service).data.dependable(),
                    old(blog_service).data.posts(),
                    final(blog_service).data.posts(),
                    post_id,
                    payload.title@,
                    payload.content@,
                    Ok(reply.body@),
                )
            },
            Err(e) => final(blog_service).data.posts() == old(blog_service).data.posts(),
        },
        final(blog_service).data.dependable() == old(blog_service).data.dependable(),
        owned_by_another(old(blog_service).data.posts(), post_id, user.id) ==> (r matches Err(e)
            && (e is Forbidden || e is Internal)),
        !has_post(old(blog_service).data.posts(), post_id) ==> (r matches Err(e) && (e@
            == BlogErrorView::NotFound("Posts not found"@) || e is Internal)),
        old(blog_service).data.dependable() ==> guarded(
            old(blog_service).data.posts(),
            post_id,
            user.id,
            match r {
                Ok(_) => None,
                Err(e) => Some(e@),
            },
        ),
{
    let post = blog_service.get_post_by_id(post_id)?;
    proof {
        let k = choose|k: int|
            0 <= k < blog_service.data.posts().len() && blog_service.data.posts()[k] == post@;
        assert(blog_service.data.posts()[k].id == post_id);
    }
    ensure_owner(post.author_id, user)?;
    let update_post = blog_service.update_post(&post, payload)?;
    Ok(Reply { status: 200, body: update_post })
}

/// Removes the post `post_id`, for its author only: answers 200. For any
/// other actor the answer is `Forbidden` and nothing changes.
pub fn delete_post<R: PostRepository>(
    user: &AuthenticatedUser,
    blog_service: &mut BlogService<R>,
    post_id: i64,
) -> (r: Result<Reply<DeleteResponse>, BlogError>)
    ensures
        match r {
            Ok(reply) => {
                &&& reply.status == 200
                &&& reply.body == (DeleteResponse { post: post_id, delete: true })
                &&& deletion(
                    old(blog_service).data.dependable(),
                    old(blog_service).data.posts(),
                    final(blog_service).data.posts(),
                    post_id,
                    Ok(()),
                )
            },
            Err(e) => final(blog_service).data.posts() == old(blog_service).data.posts(),
        },
        final(blog_service).data.dependable() == old(blog_service).data.dependable(),
        owned_by_another(old(blog_service).data.posts(), post_id, user.id) ==> (r matches Err(e)
            && (e is Forbidden || e is Internal)),
        !has_post(old(blog_service).data.posts(), post_id) ==> (r matches Err(e) && (e@
            == BlogErrorView::NotFound("Posts not found"@) || e is Internal)),
        old(blog_service).data.dependable() ==> guarded(
            old(blog_service).data.posts(),
            post_id,
            user.id,
            match r {
                Ok(_) => None,
                Err(e) => Some(e@),
            },
        ),
{
    let post = blog_service.get_post_by_id(post_id)?;
    proof {
        let k = choose|k: int|
            0 <= k < blog_service.data.posts().len() && blog_service.data.posts()[k] == post@;
        assert(blog_service.data.posts()[k].id == post_id);
    }
    ensure_owner(post.author_id, user)?;
    blog_service.delete_post(post.id)?;
    Ok(Reply { status: 200, body: DeleteResponse { post: post_id, delete: true } })
}

} // verus!
