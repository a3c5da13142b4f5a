//! The capability that stores posts, and a store in memory.

use vstd::prelude::*;

use crate::clock::unix_now;
use crate::ids::UserId;
use crate::domain::post::{CreatePost, Post, PostView, UpdatePost};
use crate::text::join2;

verus! {

/// What a post repository reports.
#[derive(Debug)]
pub enum PostRepositoryError {
    DatabaseError(String),
    NotFound,
    AutorNotFound,
}

/// A `PostRepositoryError` with its text as a sequence of characters.
pub enum PostRepositoryErrorView {
    DatabaseError(Seq<char>),
    NotFound,
    AutorNotFound,
}

impl View for PostRepositoryError {
    type V = PostRepositoryErrorView;

    open spec fn view(&self) -> PostRepositoryErrorView {
        match self {
            PostRepositoryError::DatabaseError(m) => PostRepositoryErrorView::DatabaseError(m@),
            PostRepositoryError::NotFound => PostRepositoryErrorView::NotFound,
            PostRepositoryError::AutorNotFound => PostRepositoryErrorView::AutorNotFound,
        }
    }
}

impl PostRepositoryErrorView {
    /// The text of the error.
    pub open spec fn message(self) -> Seq<char> {
        match self {
            PostRepositoryErrorView::DatabaseError(m) => "Database error: "@ + m,
            PostRepositoryErrorView::NotFound => "Post not found"@,
            PostRepositoryErrorView::AutorNotFound => "Autor not found"@,
        }
    }
}

impl PostRepositoryError {
    /// The text of the error.
    pub fn message(&self) -> (r: String)
        ensures
            r@ == self@.message(),
    {
        match self {
            PostRepositoryError::DatabaseError(m) => join2("Database error: ", m.as_str()),
            PostRepositoryError::NotFound => "Post not found".to_owned(),
            PostRepositoryError::AutorNotFound => "Autor not found".to_owned(),
        }
    }
}

/// The views of a sequence of posts.
pub open spec fn views(posts: Seq<Post>) -> Seq<PostView> {
    posts.map_values(|p: Post| p@)
}

/// Whether a post with identifier `id` is among `posts`.
pub open spec fn has_post(posts: Seq<PostView>, id: i64) -> bool {
    exists|i: int| 0 <= i < posts.len() && (#[trigger] posts[i]).id == id
}

/// The page of `len` posts after the `offset` newest ones, newest first, of
/// `posts` held in the order of their creation.
pub open spec fn page(posts: Seq<PostView>, len: i64, offset: i64) -> Seq<PostView> {
    let newest_first = posts.reverse();
    let start = if offset <= posts.len() {
        offset as int
    } else {
        posts.len() as int
    };
    let end = if start + len <= posts.len() {
        start + len
    } else {
        posts.len() as int
    };
    newest_first.subrange(start, end)
}

/// Whether no two of `posts` have the same identifier.
pub open spec fn distinct_ids(posts: Seq<PostView>) -> bool {
    forall|i: int, j: int|
        0 <= i < j < posts.len() ==> (#[trigger] posts[i]).id != (#[trigger] posts[j]).id
}

/// `post` with its title and content replaced and a time of update.
pub open spec fn updated(post: PostView, title: Seq<char>, content: Seq<char>, at: i64) -> PostView {
    PostView { title, content, updated_at: Some(at), ..post }
}

/// A store of posts with atomic operations on single posts. `posts` is what
/// it holds, in the order of creation; no two stored posts have the same
/// identifier, which a lookup confirms. Every operation may fail with
/// `DatabaseError`, and then changes nothing; a store that is `dependable`
/// does not.
pub trait PostRepository {
    /// Whether the store never fails of its own accord: where this holds,
    /// an operation fails only for the reason that its contract names. The
    /// default is for a store outside this crate, which cannot prove it.
    open spec fn dependable(&self) -> bool {
        false
    }

    /// Whether the store has an identifier left for one more post. The
    /// default is for a store outside this crate, which cannot prove it.
    open spec fn has_room(&self) -> bool {
        false
    }

    /// The stored posts, oldest first: the model that the contracts below
    /// speak of, and that a store of this crate defines.
    ///
    /// The default is one fixed sequence. It is there only so that a store
    /// written outside this crate, which cannot state a model, can implement
    /// the trait. Of such a store the contracts are not proved, and the
    /// default cannot even meet them (its content never changes): they
    /// describe what the database behind it does, on its author's word.
    open spec fn posts(&self) -> Seq<PostView> {
        arbitrary()
    }

    /// Stores a new post of `author_id` under an identifier that no stored
    /// post has. A dependable store fails only where it has no room.
    fn create_post(&mut self, post: CreatePost, author_id: UserId) -> (r: Result<
        Post,
        PostRepositoryError,
    >)
        ensures
            match r {
                Ok(p) => {
                    &&& p.title@ == post.title@
                    &&& p.content@ == post.content@
                    &&& p.author_id == author_id
                    &&& p.updated_at is None
                    &&& !has_post(old(self).posts(), p.id)
                    &&& final(self).posts() == old(self).posts().push(p@)
                },
                Err(_) => final(self).posts() == old(self).posts(),
            },
            old(self).dependable() && old(self).has_room() ==> r is Ok,
            final(self).dependable() == old(self).dependable(),
    ;

    /// The stored post with identifier `post_id`; `NotFound` where there is
    /// none, and no other error but `DatabaseError`.
    fn get_post(&self, post_id: i64) -> (r: Result<Post, PostRepositoryError>)
        ensures
            distinct_ids(self.posts()),
            self.dependable() ==> (r matches Err(e) ==> e is NotFound),
            match r {
                Ok(p) => p.id == post_id && self.posts().contains(p@),
                Err(e) => {
                    ||| e is DatabaseError
                    ||| e is NotFound && !has_post(self.posts(), post_id)
                },
            },
    ;

    /// `len` posts, newest first, after the `offset` newest (none skipped
    /// for `None`). A negative `len` or `offset` is an error.
    fn get_last_posts(&self, len: i64, offset: Option<i64>) -> (r: Result<
        Vec<Post>,
        PostRepositoryError,
    >)
        ensures
            r matches Ok(found) ==> {
                &&& len >= 0
                &&& offset.unwrap_or(0) >= 0
                &&& views(found@) == page(self.posts(), len, offset.unwrap_or(0))
            },
            self.dependable() && len >= 0 && offset.unwrap_or(0) >= 0 ==> r is Ok,
    ;

    /// The stored posts of `user_id`, in no stated order.
    fn get_posts_by_author(&self, user_id: UserId) -> (r: Result<Vec<Post>, PostRepositoryError>)
        ensures
            r matches Ok(found) ==> views(found@).to_multiset() == self.posts().filter(
                |p: PostView| p.author_id == user_id,
            ).to_multiset(),
            self.dependable() ==> r is Ok,
    ;

    /// Replaces title and content of the post with identifier `post_id` and
    /// records the time; `NotFound` only where there is no such post.
    fn update_post(&mut self, post_id: i64, post: UpdatePost) -> (r: Result<
        Post,
        PostRepositoryError,
    >)
        ensures
            match r {
                Ok(p) => exists|i: int|
                    {
                        &&& 0 <= i < old(self).posts().len()
                        &&& (#[trigger] old(self).posts()[i]).id == post_id
                        &&& p.updated_at is Some
                        &&& p@ == updated(
                            old(self).posts()[i],
                            post.title@,
                            post.content@,
                            p.updated_at->0,
                        )
                        &&& final(self).posts() == old(self).posts().update(i, p@)
                    },
                Err(e) => {
                    &&& final(self).posts() == old(self).posts()
                    &&& {
                        ||| e is DatabaseError
                        ||| e is NotFound && !has_post(old(self).posts(), post_id)
                    }
                },
            },
            old(self).dependable() ==> (r matches Err(e) ==> e is NotFound),
            final(self).dependable() == old(self).dependable(),
    ;

    /// Removes the post with identifier `post_id`; `NotFound` only where
    /// there is no such post.
    fn delete_post(&mut self, post_id: i64) -> (r: Result<(), PostRepositoryError>)
        ensures
            match r {
                Ok(_) => exists|i: int|
                    {
                        &&& 0 <= i < old(self).posts().len()
                        &&& (#[trigger] old(self).posts()[i]).id == post_id
                        &&& final(self).posts() == old(self).posts().remove(i)
                    },
                Err(e) => {
                    &&& final(self).posts() == old(self).posts()
                    &&& {
                        ||| e is DatabaseError
                        ||| e is NotFound && !has_post(old(self).posts(), post_id)
                    }
                },
            },
            old(self).dependable() ==> (r matches Err(e) ==> e is NotFound),
            final(self).dependable() == old(self).dependable(),
    ;
}

/// A post repository in memory. Identifiers are handed out in rising order,
/// starting at 1, and never again.
pub struct MemoryPostRepository {
    posts: Vec<Post>,
    next_id: i64,
}

impl MemoryPostRepository {
    #[verifier::type_invariant]
    spec fn inv(self) -> bool {
        &&& 1 <= self.next_id
        &&& forall|i: int|
            0 <= i < self.posts@.len() ==> 1 <= (#[trigger] self.posts@[i]).id < self.next_id
        &&& forall|i: int, j: int|
            0 <= i < j < self.posts@.len() ==> (#[trigger] self.posts@[i]).id < (
            #[trigger] self.posts@[j]).id
    }

    /// Takes the posts and the counter out of the store, which is left empty.
    fn take(&mut self) -> (r: (Vec<Post>, i64))
        ensures
            r.0@ == old(self).posts@,
            r.1 == old(self).next_id,
            1 <= r.1,
            forall|i: int| 0 <= i < r.0@.len() ==> 1 <= (#[trigger] r.0@[i]).id < r.1,
            forall|i: int, j: int|
                0 <= i < j < r.0@.len() ==> (#[trigger] r.0@[i]).id < (#[trigger] r.0@[j]).id,
    {
        let mut taken = MemoryPostRepository { posts: Vec::new(), next_id: 1 };
        core::mem::swap(self, &mut taken);
        proof {
            use_type_invariant(&taken);
        }
        let MemoryPostRepository { posts, next_id } = taken;
        (posts, next_id)
    }

    proof fn lemma_distinct(self)
        requires
            self.inv(),
        ensures
            distinct_ids(self.posts()),
    {
        assert forall|i: int, j: int| 0 <= i < j < self.posts().len() implies (
        #[trigger] self.posts()[i]).id != (#[trigger] self.posts()[j]).id by {
            assert(self.posts()[i] == self.posts@[i]@);
            assert(self.posts()[j] == self.posts@[j]@);
        }
    }

    /// The identifier that the next post gets.
    pub closed spec fn next_id(&self) -> i64 {
        self.next_id
    }

    /// An empty store.
    pub fn new() -> (r: MemoryPostRepository)
        ensures
            r.posts() == Seq::<PostView>::empty(),
            r.next_id() == 1,
            r.has_room(),
    {
        let r = MemoryPostRepository { posts: Vec::new(), next_id: 1 };
        assert(views(r.posts@) =~= Seq::<PostView>::empty());
        r
    }

    /// The position of the post with identifier `post_id`, if it is stored.
    fn find(&self, post_id: i64) -> (r: Option<usize>)
        ensures
            match r {
                Some(i) => i < self.posts@.len() && self.posts@[i as int].id == post_id,
                None => !has_post(self.posts(), post_id),
            },
    {
        let mut i: usize = 0;
        while i < self.posts.len()
            invariant
                i <= self.posts@.len(),
                forall|k: int| 0 <= k < i ==> (#[trigger] self.posts@[k]).id != post_id,
            decreases self.posts@.len() - i,
        {
            if self.posts[i].id == post_id {
                return Some(i);
            }
            i += 1;
        }
        assert forall|k: int| 0 <= k < self.posts().len() implies (#[trigger] self.posts()[k]).id
            != post_id by {
            assert(self.posts()[k] == self.posts@[k]@);
        }
        None
    }
}

impl PostRepository for MemoryPostRepository {
    closed spec fn posts(&self) -> Seq<PostView> {
        views(self.posts@)
    }

    /// The store in memory never fails of its own accord.
    open spec fn dependable(&self) -> bool {
        true
    }

    /// The store in memory has room until its identifiers are used up.
    closed spec fn has_room(&self) -> bool {
        self.next_id < i64::MAX
    }

    /// Succeeds unless the identifiers are used up, and hands out the
    /// identifiers in rising order.
    fn create_post(&mut self, post: CreatePost, author_id: UserId) -> (r: Result<
        Post,
        PostRepositoryError,
    >)
        ensures
            old(self).next_id() < i64::MAX ==> r is Ok,
            match r {
                Ok(p) => p.id == old(self).next_id() && final(self).next_id() == p.id + 1,
                Err(e) => e is DatabaseError && final(self).next_id() == old(self).next_id(),
            },
            final(self).has_room() == (final(self).next_id() < i64::MAX),
    {
        proof {
            use_type_invariant(&*self);
        }
        if self.next_id == i64::MAX {
            return Err(PostRepositoryError::DatabaseError("identifiers exhausted".to_owned()));
        }
        let (mut posts, id) = self.take();
        let stored = Post {
            id,
            title: post.title,
            content: post.content,
            author_id,
            created_at: unix_now(),
            updated_at: None,
        };
        let answer = stored.duplicate();
        let ghost before = posts@;
        posts.push(stored);
        *self = MemoryPostRepository { posts, next_id: id + 1 };
        proof {
            assert(views(self.posts@) =~= views(before).push(answer@));
            assert forall|k: int| 0 <= k < views(before).len() implies (#[trigger] views(
                before,
            )[k]).id != id by {
                assert(views(before)[k] == before[k]@);
            }
        }
        Ok(answer)
    }

    /// Never fails for a post that is stored.
    fn get_post(&self, post_id: i64) -> (r: Result<Post, PostRepositoryError>)
        ensures
            r is Ok <==> has_post(self.posts(), post_id),
    {
        proof {
            use_type_invariant(self);
            self.lemma_distinct();
        }
        match self.find(post_id) {
            Some(i) => {
                let found = self.posts[i].duplicate();
                assert(self.posts()[i as int] == found@);
                Ok(found)
            },
            None => Err(PostRepositoryError::NotFound),
        }
    }

    /// Fails only for a negative length or offset.
    fn get_last_posts(&self, len: i64, offset: Option<i64>) -> (r: Result<
        Vec<Post>,
        PostRepositoryError,
    >)
        ensures
            r is Ok <==> len >= 0 && offset.unwrap_or(0) >= 0,
    {
        let offset: i64 = match offset {
            Some(o) => o,
            None => 0,
        };
        if len < 0 {
            return Err(PostRepositoryError::DatabaseError("LIMIT must not be negative".to_owned()));
        }
        if offset < 0 {
            return Err(
                PostRepositoryError::DatabaseError("OFFSET must not be negative".to_owned()),
            );
        }
        let n: usize = self.posts.len();
        let start: usize = if (offset as u64) <= (n as u64) {
            offset as usize
        } else {
            n
        };
        let end: usize = if (len as u64) <= ((n - start) as u64) {
            start + (len as usize)
        } else {
            n
        };
        let mut found: Vec<Post> = Vec::new();
        let mut k: usize = start;
        while k < end
            invariant
                start <= k <= end <= n,
                n == self.posts@.len(),
                found@.len() == k - start,
                forall|j: int|
                    0 <= j < found@.len() ==> (#[trigger] found@[j])@ == self.posts@[n - 1 - start
                        - j]@,
            decreases end - k,
        {
            found.push(self.posts[n - 1 - k].duplicate());
            k += 1;
        }
        assert(views(found@) =~= page(self.posts(), len, offset));
        Ok(found)
    }

    /// Never fails, and answers in the order of creation.
    fn get_posts_by_author(&self, user_id: UserId) -> (r: Result<Vec<Post>, PostRepositoryError>)
        ensures
            r matches Ok(found) && views(found@) == self.posts().filter(
                |p: PostView| p.author_id == user_id,
            ),
    {
        let ghost mine = |p: PostView| p.author_id == user_id;
        let mut found: Vec<Post> = Vec::new();
        let mut k: usize = 0;
        assert(self.posts().take(0) =~= Seq::<PostView>::empty());
        assert(views(found@) =~= Seq::<PostView>::empty());
        while k < self.posts.len()
            invariant
                k <= self.posts@.len(),
                mine == |p: PostView| p.author_id == user_id,
                views(found@) == self.posts().take(k as int).filter(mine),
            decreases self.posts@.len() - k,
        {
            let ghost before = found@;
            proof {
                assert(self.posts().take(k + 1) =~= self.posts().take(k as int).push(
                    self.posts()[k as int],
                ));
                assert(self.posts().take(k + 1).drop_last() =~= self.posts().take(k as int));
                reveal(Seq::filter);
            }
            if self.posts[k].author_id == user_id {
                found.push(self.posts[k].duplicate());
                assert(views(found@) =~= views(before).push(self.posts()[k as int]));
            }
            k += 1;
        }
        assert(self.posts().take(self.posts@.len() as int) =~= self.posts());
        Ok(found)
    }

    /// Never fails for a post that is stored.
    fn update_post(&mut self, post_id: i64, post: UpdatePost) -> (r: Result<
        Post,
        PostRepositoryError,
    >)
        ensures
            r is Ok <==> has_post(old(self).posts(), post_id),
            final(self).next_id() == old(self).next_id(),
    {
        match self.find(post_id) {
            Some(i) => {
                let ghost before = self.posts@;
                let changed = Post {
                    id: self.posts[i].id,
                    title: post.title,
                    content: post.content,
                    author_id: self.posts[i].author_id,
                    created_at: self.posts[i].created_at,
                    updated_at: Some(unix_now()),
                };
                let answer = changed.duplicate();
                let (mut posts, next_id) = self.take();
                posts[i] = changed;
                *self = MemoryPostRepository { posts, next_id };
                proof {
                    assert(old(self).posts()[i as int] == before[i as int]@);
                    assert(views(self.posts@) =~= views(before).update(i as int, answer@));
                    assert(answer@ == updated(
                        old(self).posts()[i as int],
                        post.title@,
                        post.content@,
                        answer.updated_at->0,
                    ));
                }
                Ok(answer)
            },
            None => Err(PostRepositoryError::NotFound),
        }
    }

    /// Never fails for a post that is stored.
    fn delete_post(&mut self, post_id: i64) -> (r: Result<(), PostRepositoryError>)
        ensures
            r is Ok <==> has_post(old(self).posts(), post_id),
            final(self).next_id() == old(self).next_id(),
    {
        match self.find(post_id) {
            Some(i) => {
                let ghost before = self.posts@;
                let (mut posts, next_id) = self.take();
                posts.remove(i);
                *self = MemoryPostRepository { posts, next_id };
                proof {
                    assert(old(self).posts()[i as int] == before[i as int]@);
                    assert(views(self.posts@) =~= views(before).remove(i as int));
                }
                Ok(())
            },
            None => Err(PostRepositoryError::NotFound),
        }
    }
}

} // verus!
