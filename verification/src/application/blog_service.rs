//! Operations on posts against a post repository, with repository errors
//! classified into the taxonomy.

use vstd::prelude::*;

use crate::domain::error::{BlogError, BlogErrorView};
use crate::ids::{uuid_text, UserId};
use crate::domain::post::{CreatePost, Post, PostView, UpdatePost};
use crate::data::post_repository::{
    distinct_ids, has_post, page, updated, views, PostRepository, PostRepositoryError,
    PostRepositoryErrorView,
};
use crate::text::join2;

verus! {

/// The classification of a repository error. A missing post and a missing
/// author are both `NotFound`, with a text that names the resource (the
/// author's identifier where `author` gives it); the rest is `Internal`
/// with the repository's message.
pub open spec fn classified(e: PostRepositoryErrorView, author: Option<UserId>) -> BlogErrorView {
    match e {
        PostRepositoryErrorView::NotFound => BlogErrorView::NotFound("Posts not found"@),
        PostRepositoryErrorView::AutorNotFound => match author {
            Some(id) => BlogErrorView::NotFound("Not found Uuid: "@ + uuid_text(id.0)),
            None => BlogErrorView::NotFound("Autor not found"@),
        },
        PostRepositoryErrorView::DatabaseError(_) => BlogErrorView::Internal(e.message()),
    }
}

/// Classifies a repository error; see `classified`.
pub fn classify(e: PostRepositoryError, author: Option<UserId>) -> (r: BlogError)
    ensures
        r@ == classified(e@, author),
{
    match e {
        PostRepositoryError::NotFound => BlogError::NotFound("Posts not found".to_owned()),
        PostRepositoryError::AutorNotFound => match author {
            Some(id) => {
                let text = id.to_text();
                BlogError::NotFound(join2("Not found Uuid: ", text.as_str()))
            },
            None => BlogError::NotFound("Autor not found".to_owned()),
        },
        PostRepositoryError::DatabaseError(_) => BlogError::Internal(e.message()),
    }
}

/// What the service answers for an answer of the repository: the same
/// value, or the classified error.
pub fn answer<T>(found: Result<T, PostRepositoryError>, author: Option<UserId>) -> (r: Result<
    T,
    BlogError,
>)
    ensures
        match r {
            Ok(value) => found == Ok::<T, PostRepositoryError>(value),
            Err(e) => found matches Err(cause) && e@ == classified(cause@, author),
        },
{
    match found {
        Ok(value) => Ok(value),
        Err(e) => Err(classify(e, author)),
    }
}

/// A result with the post and the error as plain values.
pub open spec fn post_result(r: Result<Post, BlogError>) -> Result<PostView, BlogErrorView> {
    match r {
        Ok(p) => Ok(p@),
        Err(e) => Err(e@),
    }
}

/// A result with the posts and the error as plain values.
pub open spec fn posts_result(r: Result<Vec<Post>, BlogError>) -> Result<
    Seq<PostView>,
    BlogErrorView,
> {
    match r {
        Ok(found) => Ok(views(found@)),
        Err(e) => Err(e@),
    }
}

/// What the creation of a post of `author` may do to the stored posts and
/// answer: the new post, stored last under an identifier that no stored
/// post had, without a time of update; or an error, and nothing stored.
/// Where `owed` holds, which it does for a dependable store with room, the
/// creation does not fail.
pub open spec fn creation(
    owed: bool,
    before: Seq<PostView>,
    after: Seq<PostView>,
    title: Seq<char>,
    content: Seq<char>,
    author: UserId,
    r: Result<PostView, BlogErrorView>,
) -> bool {
    &&& match r {
        Ok(p) => {
            &&& p.title == title
            &&& p.content == content
            &&& p.author_id == author
            &&& p.updated_at is None
            &&& !has_post(before, p.id)
            &&& after == before.push(p)
        },
        Err(e) => {
            &&& after == before
            &&& e is Internal || e is NotFound
        },
    }
    &&& owed ==> r is Ok
}

/// What reading the post `id` may answer: the stored post with that
/// identifier; `NotFound` where there is none; `Internal` where the store
/// failed, which a dependable store does not. No two stored posts have one
/// identifier.
pub open spec fn lookup(
    dependable: bool,
    posts: Seq<PostView>,
    id: i64,
    r: Result<PostView, BlogErrorView>,
) -> bool {
    &&& distinct_ids(posts)
    &&& match r {
        Ok(p) => p.id == id && posts.contains(p),
        Err(e) => {
            ||| e is Internal && !dependable
            ||| e == BlogErrorView::NotFound("Posts not found"@) && !has_post(posts, id)
        },
    }
}

/// What listing `count` posts after the `offset` newest may answer: that
/// page, newest first, for a count and an offset that are not negative; or
/// an error, which a dependable store gives only for a negative count or
/// offset.
pub open spec fn listing(
    dependable: bool,
    posts: Seq<PostView>,
    count: i64,
    offset: i64,
    r: Result<Seq<PostView>, BlogErrorView>,
) -> bool {
    &&& match r {
        Ok(found) => count >= 0 && offset >= 0 && found == page(posts, count, offset),
        Err(e) => e is Internal || e is NotFound,
    }
    &&& dependable && count >= 0 && offset >= 0 ==> r is Ok
}

/// What updating the post `id` may do: the post keeps its place, its
/// identifier, its author and its time of creation, and has the new title
/// and content and a time of update; or an error, and nothing changed. A
/// dependable store fails only where there is no such post.
pub open spec fn replacement(
    dependable: bool,
    before: Seq<PostView>,
    after: Seq<PostView>,
    id: i64,
    title: Seq<char>,
    content: Seq<char>,
    r: Result<PostView, BlogErrorView>,
) -> bool {
    match r {
        Ok(p) => exists|i: int|
            {
                &&& 0 <= i < before.len()
                &&& (#[trigger] before[i]).id == id
                &&& p.updated_at is Some
                &&& p == updated(before[i], title, content, p.updated_at->0)
                &&& after == before.update(i, p)
            },
        Err(e) => {
            &&& after == before
            &&& {
                ||| e is Internal && !dependable
                ||| e == BlogErrorView::NotFound("Posts not found"@) && !has_post(before, id)
            }
        },
    }
}

/// What deleting the post `id` may do: that post is gone and the others
/// stay in their order; or an error, and nothing changed. A dependable
/// store fails only where there is no such post.
pub open spec fn deletion(
    dependable: bool,
    before: Seq<PostView>,
    after: Seq<PostView>,
    id: i64,
    r: Result<(), BlogErrorView>,
) -> bool {
    match r {
        Ok(_) => exists|i: int|
            {
                &&& 0 <= i < before.len()
                &&& (#[trigger] before[i]).id == id
                &&& after == before.remove(i)
            },
        Err(e) => {
            &&& after == before
            &&& {
                ||| e is Internal && !dependable
                ||| e == BlogErrorView::NotFound("Posts not found"@) && !has_post(before, id)
            }
        },
    }
}

/// A post that was created is read back as it was stored: with the title,
/// the content and the author that it was created with, and without a time
/// of update. Reading it never answers that it does not exist, and from a
/// dependable store it always answers the post.
pub proof fn lemma_created_post_is_read_back(
    dependable: bool,
    before: Seq<PostView>,
    after: Seq<PostView>,
    title: Seq<char>,
    content: Seq<char>,
    author: UserId,
    created: PostView,
    read: Result<PostView, BlogErrorView>,
)
    requires
        creation(dependable, before, after, title, content, author, Ok(created)),
        lookup(dependable, after, created.id, read),
    ensures
        dependable ==> read == Ok::<PostView, BlogErrorView>(created),
        match read {
            Ok(found) => {
                &&& found == created
                &&& found.title == title
                &&& found.content == content
                &&& found.author_id == author
                &&& found.updated_at is None
            },
            Err(e) => e is Internal,
        },
{
    let last = after.len() - 1;
    assert(after[last] == created);
    match read {
        Ok(found) => {
            let k = choose|k: int| 0 <= k < after.len() && after[k] == found;
            if k != last {
                if k < last {
                    assert(after[k].id != after[last].id);
                } else {
                    assert(after[last].id != after[k].id);
                }
            }
        },
        Err(e) => {
            assert(has_post(after, created.id));
        },
    }
}

/// Two posts created one after the other get different identifiers, and a
/// listing from the newest on shows both, the second before the first.
pub proof fn lemma_two_creations_are_listed_newest_first(
    start: Seq<PostView>,
    between: Seq<PostView>,
    end: Seq<PostView>,
    first: PostView,
    second: PostView,
    count: i64,
    found: Seq<PostView>,
)
    requires
        creation(false, start, between, first.title, first.content, first.author_id, Ok(first)),
        creation(false, between, end, second.title, second.content, second.author_id, Ok(second)),
        listing(false, end, count, 0, Ok(found)),
        count >= 2,
    ensures
        first.id != second.id,
        found.len() >= 2,
        found[0] == second,
        found[1] == first,
{
    assert(between[between.len() - 1] == first);
    assert(has_post(between, first.id));
    assert(end.len() == start.len() + 2);
    assert(end[end.len() - 1] == second);
    assert(end[end.len() - 2] == first);
}

/// A post that does not exist is never read: the answer is `NotFound`, or
/// `Internal` where the store failed, which a dependable store does not.
pub proof fn lemma_missing_post_is_not_read(
    dependable: bool,
    posts: Seq<PostView>,
    id: i64,
    read: Result<PostView, BlogErrorView>,
)
    requires
        lookup(dependable, posts, id, read),
        !has_post(posts, id),
    ensures
        read matches Err(e) && (e == BlogErrorView::NotFound("Posts not found"@) || e is Internal),
        dependable ==> read == Err::<PostView, BlogErrorView>(
            BlogErrorView::NotFound("Posts not found"@),
        ),
{
    if let Ok(found) = read {
        let k = choose|k: int| 0 <= k < posts.len() && posts[k] == found;
        assert(posts[k].id == id);
    }
}

/// Operations on posts against a post repository.
#[derive(Clone)]
pub struct BlogService<R: PostRepository> {
    pub data: R,
}

impl<R: PostRepository> BlogService<R> {
    /// A service on `data`.
    pub fn new(data: R) -> (r: Self)
        ensures
            r.data == data,
    {
        Self { data }
    }

    /// `count` posts, newest first, after the `offset` newest.
    pub fn get_next_posts(&self, offset: i64, count: i64) -> (r: Result<Vec<Post>, BlogError>)
        ensures
            listing(self.data.dependable(), self.data.posts(), count, offset, posts_result(r)),
    {
        answer(self.data.get_last_posts(count, Some(offset)), None)
    }

    /// The posts of `user_id`, in no stated order.
    pub fn get_posts_by_user(&self, user_id: UserId) -> (r: Result<Vec<Post>, BlogError>)
        ensures
            match r {
                Ok(found) => views(found@).to_multiset() == self.data.posts().filter(
                    |p: PostView| p.author_id == user_id,
                ).to_multiset(),
                Err(e) => e is Internal || e is NotFound,
            },
            self.data.dependable() ==> r is Ok,
    {
        answer(self.data.get_posts_by_author(user_id), Some(user_id))
    }

    /// The post with identifier `id`. Where there is none, the answer is
    /// never `Ok`: it is `NotFound`, or `Internal` where the store failed.
    pub fn get_post_by_id(&self, id: i64) -> (r: Result<Post, BlogError>)
        ensures
            lookup(self.data.dependable(), self.data.posts(), id, post_result(r)),
    {
        answer(self.data.get_post(id), None)
    }

    /// Creates a post of `author_id` under a fresh identifier.
    pub fn create_post(&mut self, post: CreatePost, author_id: UserId) -> (r: Result<
        Post,
        BlogError,
    >)
        ensures
            final(self).data.dependable() == old(self).data.dependable(),
            creation(
                old(self).data.dependable() && old(self).data.has_room(),
                old(self).data.posts(),
                final(self).data.posts(),
                post.title@,
                post.content@,
                author_id,
                post_result(r),
            ),
    {
        answer(self.data.create_post(post, author_id), Some(author_id))
    }

    /// Replaces title and content of the stored post that has the
    /// identifier of `post`. The caller has checked ownership.
    pub fn update_post(&mut self, post: &Post, update: UpdatePost) -> (r: Result<Post, BlogError>)
        ensures
            final(self).data.dependable() == old(self).data.dependable(),
            replacement(
                old(self).data.dependable(),
                old(self).data.posts(),
                final(self).data.posts(),
                post.id,
                update.title@,
                update.content@,
                post_result(r),
            ),
    {
        answer(self.data.update_post(post.id, update), None)
    }

    /// Removes the post with identifier `id`.
    pub fn delete_post(&mut self, id: i64) -> (r: Result<(), BlogError>)
        ensures
            final(self).data.dependable() == old(self).data.dependable(),
            deletion(
                old(self).data.dependable(),
                old(self).data.posts(),
                final(self).data.posts(),
                id,
                match r {
                    Ok(_) => Ok(()),
                    Err(e) => Err(e@),
                },
            ),
    {
        answer(self.data.delete_post(id), None)
    }
}

} // verus!
