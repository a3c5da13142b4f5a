//! The operations of the gRPC surface. Each takes the request message and,
//! where it is protected, the `authorization` metadata value, and answers
//! with the response message or a status.

use vstd::prelude::*;

use crate::application::blog_service::creation;
use crate::application::{AuthService, BlogService};
use crate::blog_grpc;
use crate::data::post_repository::{has_post, page, updated, views, PostRepository};
use crate::data::user_repository::{has_user_id, UserRepository};
use crate::domain::auth::{Auth, Login, UserView};
use crate::domain::error::{BlogError, BlogErrorView, GrpcCode, GrpcStatus};
use crate::domain::post::{CreatePost, Post, PostView, UpdatePost};
use crate::ids::UserId;
use crate::infrastructure::security::JwtService;
use crate::presentation::auth::{
    bearer_prefix, extract_user_from_token, AuthenticatedUser, Authorization,
};
use crate::presentation::handlers::protect::{ensure_owner, owned_by, owned_by_another};
use crate::application::auth_service::{login_outcome, AuthView};
use crate::presentation::handlers::public::{auth_outcome, register_outcome};
use crate::text::{strip_prefix, stripped};

verus! {

/// A status as plain values.
pub struct StatusView {
    pub code: GrpcCode,
    pub message: Seq<char>,
}

impl View for GrpcStatus {
    type V = StatusView;

    open spec fn view(&self) -> StatusView {
        StatusView { code: self.code, message: self.message@ }
    }
}

/// The status of an error of the taxonomy.
pub open spec fn status_of(e: BlogErrorView) -> StatusView {
    StatusView { code: e.grpc_code(), message: e.grpc_message() }
}

/// What the service finds in the `authorization` metadata: the token after
/// the scheme prefix, or the status of the rejection.
pub open spec fn metadata_token(header: Authorization) -> Result<Seq<char>, StatusView> {
    match header {
        Authorization::Missing => Err(
            StatusView { code: GrpcCode::Unauthenticated, message: "Token not found"@ },
        ),
        Authorization::Unreadable => Err(
            StatusView { code: GrpcCode::InvalidArgument, message: "Invalid token"@ },
        ),
        Authorization::Value(v) => match stripped(v@, bearer_prefix()) {
            Some(token) => Ok(token),
            None => Err(
                StatusView {
                    code: GrpcCode::InvalidArgument,
                    message: "invalid authorization header"@,
                },
            ),
        },
    }
}

/// The bearer token of a call: missing metadata is `Unauthenticated`, a
/// value without the `Bearer ` prefix is `InvalidArgument`.
pub fn extract_token_from_metadata(header: &Authorization) -> (r: Result<String, GrpcStatus>)
    ensures
        match r {
            Ok(token) => metadata_token(*header) == Ok::<Seq<char>, StatusView>(token@),
            Err(status) => metadata_token(*header) == Err::<Seq<char>, StatusView>(status@),
        },
{
    match header {
        Authorization::Value(v) => match strip_prefix(v.as_str(), "Bearer ") {
            Some(token) => Ok(token),
            None => Err(GrpcStatus::new(GrpcCode::InvalidArgument, "invalid authorization header")),
        },
        Authorization::Unreadable => Err(GrpcStatus::new(GrpcCode::InvalidArgument, "Invalid token")),
        Authorization::Missing => Err(GrpcStatus::new(GrpcCode::Unauthenticated, "Token not found")),
    }
}

/// Whether the bearer token in `header` carries claims that name `actor`.
pub open spec fn may_be_caller(header: Authorization, keys: JwtService, actor: UserId) -> bool {
    metadata_token(header) matches Ok(token) && keys.names(token, actor)
}

/// The wire forms of a sequence of posts.
pub open spec fn wire_views(posts: Seq<blog_grpc::Post>) -> Seq<blog_grpc::PostView> {
    posts.map_values(|p: blog_grpc::Post| p@)
}

/// The wire forms of `posts`, in the same order.
pub fn into_wire_posts(posts: Vec<Post>) -> (out: Vec<blog_grpc::Post>)
    ensures
        wire_views(out@) == views(posts@).map_values(|p: PostView| p.to_wire()),
{
    let mut out: Vec<blog_grpc::Post> = Vec::new();
    let mut i: usize = 0;
    while i < posts.len()
        invariant
            i <= posts@.len(),
            out@.len() == i,
            forall|k: int| 0 <= k < i ==> (#[trigger] out@[k])@ == posts@[k]@.to_wire(),
        decreases posts@.len() - i,
    {
        out.push(posts[i].duplicate().into_wire());
        i += 1;
    }
    assert(wire_views(out@) =~= views(posts@).map_values(|p: PostView| p.to_wire()));
    out
}

/// The status that tells an actor that a post is not theirs:
/// `PermissionDenied`, with the text of the HTTP answer.
pub open spec fn not_the_author() -> StatusView {
    status_of(BlogErrorView::Forbidden)
}

/// The status that tells that no post has the identifier.
pub open spec fn no_such_post() -> StatusView {
    status_of(BlogErrorView::NotFound("Posts not found"@))
}

/// The status of an internal failure: the same whatever went wrong.
pub open spec fn internal_status() -> StatusView {
    status_of(BlogErrorView::Internal(Seq::empty()))
}

/// The status of a call that failed, or none.
pub open spec fn failure_of<T>(r: Result<T, GrpcStatus>) -> Option<StatusView> {
    match r {
        Ok(_) => None,
        Err(status) => Some(status@),
    }
}

/// What a dependable store makes of an update or a deletion of the post
/// `id` by `actor`, as the status of the failure or none: success for the
/// author, `PermissionDenied` for anyone else, `NotFound` where there is no
/// such post.
pub open spec fn guarded_status(posts: Seq<PostView>, id: i64, actor: UserId) -> Option<
    StatusView,
> {
    if !has_post(posts, id) {
        Some(no_such_post())
    } else if owned_by(posts, id, actor) {
        None
    } else {
        Some(not_the_author())
    }
}

/// Over gRPC as over HTTP, an update or a deletion by an actor who is not
/// the author of the post is answered `PermissionDenied`, and by the author
/// it succeeds, where the store is dependable.
pub proof fn lemma_non_author_is_denied(posts: Seq<PostView>, id: i64, actor: UserId)
    ensures
        owned_by_another(posts, id, actor) ==> guarded_status(posts, id, actor) == Some(
            not_the_author(),
        ) && not_the_author().code == GrpcCode::PermissionDenied,
        owned_by(posts, id, actor) ==> guarded_status(posts, id, actor) is None,
{
    if owned_by(posts, id, actor) {
        let i = choose|i: int|
            0 <= i < posts.len() && (#[trigger] posts[i]).id == id && posts[i].author_id == actor;
        assert(posts[i].id == id);
    }
}

/// Why an update or a deletion of the post `id` by `actor` may fail with
/// `status`: the post is another's, there is no such post, or the store
/// failed, which a dependable store does not.
pub open spec fn refusal(
    dependable: bool,
    posts: Seq<PostView>,
    id: i64,
    actor: UserId,
    status: StatusView,
) -> bool {
    ||| status == not_the_author() && owned_by_another(posts, id, actor)
    ||| status == no_such_post() && !has_post(posts, id)
    ||| status == internal_status() && !dependable
}

/// What the creation of a post by the resolved `actor` does and answers:
/// the new post, stored last, and its wire form; or the status of the
/// store's failure, and nothing stored. Where `owed` holds, which it does
/// for a dependable store with room, it does not fail.
pub open spec fn created_for(
    owed: bool,
    before: Seq<PostView>,
    after: Seq<PostView>,
    actor: UserId,
    request: blog_grpc::CreatePostRequest,
    r: Result<blog_grpc::PostResponse, GrpcStatus>,
) -> bool {
    match r {
        Ok(answer) => {
            &&& after.len() == before.len() + 1
            &&& creation(
                owed,
                before,
                after,
                request.title@,
                request.content@,
                actor,
                Ok(after.last()),
            )
            &&& answer.post matches Some(w) && w@ == after.last().to_wire()
        },
        Err(status) => {
            &&& after == before
            &&& !owed
            &&& status@ == internal_status() || status.code == GrpcCode::NotFound
        },
    }
}

/// What an update by the resolved `actor` does and answers: for the author
/// the post is changed in its place and answered in its wire form; anyone
/// else is refused and nothing changes. For a dependable store the answer
/// is fixed by `guarded_status`.
pub open spec fn updated_for(
    dependable: bool,
    before: Seq<PostView>,
    after: Seq<PostView>,
    actor: UserId,
    request: blog_grpc::UpdatePostRequest,
    r: Result<blog_grpc::PostResponse, GrpcStatus>,
) -> bool {
    &&& match r {
        Ok(answer) => exists|i: int|
            {
                &&& 0 <= i < before.len()
                &&& (#[trigger] before[i]).id == request.id
                &&& before[i].author_id == actor
                &&& after.len() == before.len()
                &&& after[i].updated_at is Some
                &&& after == before.update(i, merged(before[i], request, after[i].updated_at->0))
                &&& answer.post matches Some(w) && w@ == after[i].to_wire()
            },
        Err(status) => after == before && refusal(dependable, before, request.id, actor, status@),
    }
    &&& dependable ==> failure_of(r) == guarded_status(before, request.id, actor)
}

/// What a deletion by the resolved `actor` does and answers: for the author
/// the post is removed; anyone else is refused and nothing changes. For a
/// dependable store the answer is fixed by `guarded_status`.
pub open spec fn deleted_for(
    dependable: bool,
    before: Seq<PostView>,
    after: Seq<PostView>,
    actor: UserId,
    id: i64,
    r: Result<blog_grpc::DeletePostResponse, GrpcStatus>,
) -> bool {
    &&& match r {
        Ok(answer) => exists|i: int|
            {
                &&& answer.success
                &&& 0 <= i < before.len()
                &&& (#[trigger] before[i]).id == id
                &&& before[i].author_id == actor
                &&& after == before.remove(i)
            },
        Err(status) => after == before && refusal(dependable, before, id, actor, status@),
    }
    &&& dependable ==> failure_of(r) == guarded_status(before, id, actor)
}

/// What a protected call answers as a whole: the rejection of the header;
/// `Unauthenticated` for a token that does not resolve; or, for an actor
/// whom the token names and who is stored, what `then` says of that actor.
pub open spec fn behind_the_guard<T>(
    header: Authorization,
    keys: JwtService,
    users: Seq<UserView>,
    unchanged: bool,
    r: Result<T, GrpcStatus>,
    then: spec_fn(UserId) -> bool,
) -> bool {
    match metadata_token(header) {
        Err(rejection) => unchanged && failure_of(r) == Some(rejection),
        Ok(_) => {
            ||| unchanged && failure_of(r) == Some(status_of(BlogErrorView::Unautorized))
            ||| exists|actor: UserId|
                {
                    &&& #[trigger] may_be_caller(header, keys, actor)
                    &&& has_user_id(users, actor)
                    &&& then(actor)
                }
        },
    }
}

/// Creates a post of `actor`, whom the guard has resolved.
pub fn create_for<P: PostRepository>(
    blog_service: &mut BlogService<P>,
    actor: UserId,
    request: blog_grpc::CreatePostRequest,
) -> (r: Result<blog_grpc::PostResponse, GrpcStatus>)
    ensures
        final(blog_service).data.dependable() == old(blog_service).data.dependable(),
        created_for(
            old(blog_service).data.dependable() && old(blog_service).data.has_room(),
            old(blog_service).data.posts(),
            final(blog_service).data.posts(),
            actor,
            request,
            r,
        ),
{
    match blog_service.create_post(CreatePost::from_wire(request), actor) {
        Ok(post) => {
            assert(blog_service.data.posts().last() == post@);
            Ok(blog_grpc::PostResponse { post: Some(post.into_wire()) })
        },
        Err(e) => Err(e.grpc_status()),
    }
}

/// Changes title, content or both of a post for `actor`, whom the guard
/// has resolved: only the author passes, anyone else is answered
/// `PermissionDenied` before anything is changed.
pub fn update_for<P: PostRepository>(
    blog_service: &mut BlogService<P>,
    actor: UserId,
    request: blog_grpc::UpdatePostRequest,
) -> (r: Result<blog_grpc::PostResponse, GrpcStatus>)
    ensures
        final(blog_service).data.dependable() == old(blog_service).data.dependable(),
        updated_for(
            old(blog_service).data.dependable(),
            old(blog_service).data.posts(),
            final(blog_service).data.posts(),
            actor,
            request,
            r,
        ),
{
    let ghost before = blog_service.data.posts();
    let post = match blog_service.get_post_by_id(request.id) {
        Ok(post) => post,
        Err(e) => {
            return Err(e.grpc_status());
        },
    };
    let ghost k = choose|k: int| 0 <= k < before.len() && before[k] == post@;
    assert(before[k].id == request.id);
    match ensure_owner(post.author_id, &AuthenticatedUser { id: actor }) {
        Ok(_) => {},
        Err(e) => {
            return Err(e.grpc_status());
        },
    }
    let check_update = merge_update(request, &post);
    match blog_service.update_post(&post, check_update) {
        Ok(post) => {
            assert(blog_service.data.posts()[k] == post@);
            Ok(blog_grpc::PostResponse { post: Some(post.into_wire()) })
        },
        Err(e) => Err(e.grpc_status()),
    }
}

/// Removes a post for `actor`, whom the guard has resolved: only the
/// author passes, anyone else is answered `PermissionDenied` before
/// anything is removed.
pub fn delete_for<P: PostRepository>(
    blog_service: &mut BlogService<P>,
    actor: UserId,
    request: blog_grpc::DeletePostRequest,
) -> (r: Result<blog_grpc::DeletePostResponse, GrpcStatus>)
    ensures
        final(blog_service).data.dependable() == old(blog_service).data.dependable(),
        deleted_for(
            old(blog_service).data.dependable(),
            old(blog_service).data.posts(),
            final(blog_service).data.posts(),
            actor,
            request.post_id,
            r,
        ),
{
    let ghost before = blog_service.data.posts();
    let post = match blog_service.get_post_by_id(request.post_id) {
        Ok(post) => post,
        Err(e) => {
            return Err(e.grpc_status());
        },
    };
    let ghost k = choose|k: int| 0 <= k < before.len() && before[k] == post@;
    assert(before[k].id == request.post_id);
    match ensure_owner(post.author_id, &AuthenticatedUser { id: actor }) {
        Ok(_) => {},
        Err(e) => {
            return Err(e.grpc_status());
        },
    }
    match blog_service.delete_post(post.id) {
        Ok(_) => Ok(blog_grpc::DeletePostResponse { success: true }),
        Err(e) => Err(e.grpc_status()),
    }
}

/// `stored` after the update that `request` asks for at the time `at`: the
/// title and the content that it names replace the stored ones, what it
/// leaves out stays.
pub open spec fn merged(stored: PostView, request: blog_grpc::UpdatePostRequest, at: i64) -> PostView {
    updated(
        stored,
        match request.title {
            Some(t) => t@,
            None => stored.title,
        },
        match request.content {
            Some(c) => c@,
            None => stored.content,
        },
        at,
    )
}

/// The title and content that an update request asks for: what it names,
/// and the stored value for what it leaves out.
pub fn merge_update(request: blog_grpc::UpdatePostRequest, stored: &Post) -> (r: UpdatePost)
    ensures
        r.title@ == (match request.title {
            Some(t) => t@,
            None => stored.title@,
        }),
        r.content@ == (match request.content {
            Some(c) => c@,
            None => stored.content@,
        }),
{
    UpdatePost {
        title: match request.title {
            Some(t) => t,
            None => stored.title.clone(),
        },
        content: match request.content {
            Some(c) => c,
            None => stored.content.clone(),
        },
    }
}

/// The gRPC service: both services behind one set of operations.
#[derive(Clone)]
pub struct BlogGrpcService<U: UserRepository, P: PostRepository> {
    pub auth_service: AuthService<U>,
    pub blog_service: BlogService<P>,
}

impl<U: UserRepository, P: PostRepository> BlogGrpcService<U, P> {
    /// The stored posts, oldest first.
    pub open spec fn posts(&self) -> Seq<PostView> {
        self.blog_service.data.posts()
    }

    /// The stored actors, oldest first.
    pub open spec fn users(&self) -> Seq<UserView> {
        self.auth_service.repo.users()
    }

    /// The service on the two given services.
    pub fn new(auth_service: AuthService<U>, blog_service: BlogService<P>) -> (r: Self)
        ensures
            r.auth_service == auth_service,
            r.blog_service == blog_service,
    {
        Self { auth_service, blog_service }
    }

    /// Resolves the actor of a protected call.
    pub fn actor(&self, authorization: &Authorization) -> (r: Result<UserId, GrpcStatus>)
        ensures
            match r {
                Ok(id) => {
                    &&& metadata_token(*authorization) matches Ok(token)
                    &&& self.auth_service.keys.names(token, id)
                    &&& has_user_id(self.users(), id)
                },
                Err(status) => match metadata_token(*authorization) {
                    Ok(_) => status@ == status_of(BlogErrorView::Unautorized),
                    Err(rejection) => status@ == rejection,
                },
            },
    {
        let token = extract_token_from_metadata(authorization)?;
        match extract_user_from_token(token.as_str(), &self.auth_service) {
            Ok(user) => Ok(user.id),
            Err(e) => Err(e.grpc_status()),
        }
    }

    /// Registers a new actor and logs it in; answers with the token.
    pub fn register(&mut self, request: blog_grpc::RegisterRequest) -> (r: Result<
        blog_grpc::AuthResponse,
        GrpcStatus,
    >)
        ensures
            final(self).auth_service.keys == old(self).auth_service.keys,
            final(self).blog_service == old(self).blog_service,
            exists|outcome: Result<(UserId, Seq<char>), BlogErrorView>|
                {
                    &&& #[trigger] register_outcome(
                        old(self).auth_service.repo.dependable(),
                        old(self).users(),
                        final(self).users(),
                        old(self).auth_service.keys,
                        AuthView {
                            username: request.username@,
                            email: request.email@,
                            password: request.password@,
                        },
                        outcome,
                    )
                    &&& match r {
                        Ok(answer) => outcome matches Ok((_, token)) && answer.token@ == token,
                        Err(status) => outcome matches Err(e) && status@ == status_of(e),
                    }
                },
    {
        let payload = Auth {
            username: request.username,
            email: request.email,
            password: request.password,
        };
        let done = crate::presentation::handlers::public::register(&mut self.auth_service, payload);
        let ghost outcome = auth_outcome(done);
        assert(register_outcome(
            old(self).auth_service.repo.dependable(),
            old(self).users(),
            self.users(),
            old(self).auth_service.keys,
            AuthView {
                username: request.username@,
                email: request.email@,
                password: request.password@,
            },
            outcome,
        ));
        match done {
            Ok(reply) => Ok(blog_grpc::AuthResponse { token: reply.body.token }),
            Err(e) => Err(e.grpc_status()),
        }
    }

    /// Logs an actor in; answers with the token.
    pub fn login(&self, request: blog_grpc::LoginRequest) -> (r: Result<
        blog_grpc::AuthResponse,
        GrpcStatus,
    >)
        ensures
            exists|outcome: Result<(UserId, Seq<char>), BlogErrorView>|
                {
                    &&& #[trigger] login_outcome(
                        self.auth_service.repo.dependable(),
                        self.users(),
                        self.auth_service.keys,
                        request.username@,
                        request.password@,
                        outcome,
                    )
                    &&& match r {
                        Ok(answer) => outcome matches Ok((_, token)) && answer.token@ == token,
                        Err(status) => outcome matches Err(e) && status@ == status_of(e),
                    }
                },
    {
        let payload = Login { username: request.username, password: request.password };
        let done = crate::presentation::handlers::public::login(&self.auth_service, &payload);
        let ghost outcome = auth_outcome(done);
        assert(login_outcome(
            self.auth_service.repo.dependable(),
            self.users(),
            self.auth_service.keys,
            request.username@,
            request.password@,
            outcome,
        ));
        match done {
            Ok(reply) => Ok(blog_grpc::AuthResponse { token: reply.body.token }),
            Err(e) => Err(e.grpc_status()),
        }
    }

    /// Creates a post of the actor that the call is authorized for.
    pub fn create_post(
        &mut self,
        authorization: &Authorization,
        request: blog_grpc::CreatePostRequest,
    ) -> (r: Result<blog_grpc::PostResponse, GrpcStatus>)
        ensures
            final(self).auth_service == old(self).auth_service,
            behind_the_guard(
                *authorization,
                old(self).auth_service.keys,
                old(self).users(),
                final(self).posts() == old(self).posts(),
                r,
                |actor: UserId|
                    created_for(
                        old(self).blog_service.data.dependable() && old(self).blog_service.data.has_room(),
                        old(self).posts(),
                        final(self).posts(),
                        actor,
                        request,
                        r,
                    ),
            ),
    {
        let user_id = self.actor(authorization)?;
        assert(may_be_caller(*authorization, self.auth_service.keys, user_id));
        create_for(&mut self.blog_service, user_id, request)
    }

    /// Reads one post. Where no post has the identifier, the answer is
    /// never a post: it is `NotFound`, or `Internal` where the store failed.
    pub fn get_post(&self, request: blog_grpc::GetPostRequest) -> (r: Result<
        blog_grpc::PostResponse,
        GrpcStatus,
    >)
        ensures
            match r {
                Ok(answer) => exists|i: int|
                    {
                        &&& 0 <= i < self.posts().len()
                        &&& (#[trigger] self.posts()[i]).id == request.id
                        &&& answer.post matches Some(w) && w@
                            == self.posts()[i].to_wire()
                    },
                Err(status) => {
                    ||| status.code == GrpcCode::Internal && !self.blog_service.data.dependable()
                    ||| status@ == status_of(BlogErrorView::NotFound("Posts not found"@))
                        && !has_post(self.posts(), request.id)
                },
            },
    {
        match self.blog_service.get_post_by_id(request.id) {
            Ok(post) => {
                proof {
                    let k = choose|k: int|
                        0 <= k < self.posts().len()
                            && self.posts()[k] == post@;
                    assert(self.posts()[k].id == request.id);
                }
                Ok(blog_grpc::PostResponse { post: Some(post.into_wire()) })
            },
            Err(e) => Err(e.grpc_status()),
        }
    }

    /// Changes title, content or both of a post, for its author only. For
    /// any other actor the answer is `PermissionDenied` and nothing changes.
    pub fn update_post(
        &mut self,
        authorization: &Authorization,
        request: blog_grpc::UpdatePostRequest,
    ) -> (r: Result<blog_grpc::PostResponse, GrpcStatus>)
        ensures
            final(self).auth_service == old(self).auth_service,
            behind_the_guard(
                *authorization,
                old(self).auth_service.keys,
                old(self).users(),
                final(self).posts() == old(self).posts(),
                r,
                |actor: UserId|
                    updated_for(
                        old(self).blog_service.data.dependable(),
                        old(self).posts(),
                        final(self).posts(),
                        actor,
                        request,
                        r,
                    ),
            ),
            (forall|actor: UserId| #[trigger]
                may_be_caller(*authorization, old(self).auth_service.keys, actor)
                    ==> owned_by_another(old(self).posts(), request.id, actor)) ==> r is Err
                && final(self).posts() == old(self).posts(),
    {
        let user_id = self.actor(authorization)?;
        assert(may_be_caller(*authorization, self.auth_service.keys, user_id));
        update_for(&mut self.blog_service, user_id, request)
    }

    /// Removes a post, for its author only. For any other actor the answer
    /// is `PermissionDenied` and nothing changes.
    pub fn delete_post(
        &mut self,
        authorization: &Authorization,
        request: blog_grpc::DeletePostRequest,
    ) -> (r: Result<blog_grpc::DeletePostResponse, GrpcStatus>)
        ensures
            final(self).auth_service == old(self).auth_service,
            behind_the_guard(
                *authorization,
                old(self).auth_service.keys,
                old(self).users(),
                final(self).posts() == old(self).posts(),
                r,
                |actor: UserId|
                    deleted_for(
                        old(self).blog_service.data.dependable(),
                        old(self).posts(),
                        final(self).posts(),
                        actor,
                        request.post_id,
                        r,
                    ),
            ),
            (forall|actor: UserId| #[trigger]
                may_be_caller(*authorization, old(self).auth_service.keys, actor)
                    ==> owned_by_another(old(self).posts(), request.post_id, actor)) ==> r is Err
                && final(self).posts() == old(self).posts(),
    {
        let user_id = self.actor(authorization)?;
        assert(may_be_caller(*authorization, self.auth_service.keys, user_id));
        delete_for(&mut self.blog_service, user_id, request)
    }

    /// Lists a page of posts, newest first.
    pub fn list_post(&self, request: blog_grpc::ListPostsRequest) -> (r: Result<
        blog_grpc::ListPostsResponse,
        GrpcStatus,
    >)
        ensures
            match r {
                Ok(answer) => {
                    &&& request.limit >= 0
                    &&& request.offset >= 0
                    &&& wire_views(answer.post@) == page(
                        self.posts(),
                        request.limit as i64,
                        request.offset as i64,
                    ).map_values(|p: PostView| p.to_wire())
                    &&& answer.total == answer.post@.len()
                    &&& answer.limit == request.limit
                    &&& answer.offset == request.offset
                },
                Err(status) => status.code == GrpcCode::Internal || status.code
                    == GrpcCode::NotFound,
            },
            self.blog_service.data.dependable() && request.limit >= 0 && request.offset >= 0
                ==> r is Ok,
    {
        let posts = match self.blog_service.get_next_posts(
            request.offset as i64,
            request.limit as i64,
        ) {
            Ok(posts) => posts,
            Err(e) => {
                return Err(e.grpc_status());
            },
        };
        assert(views(posts@).len() == posts@.len());
        let total = posts.len() as i32;
        let post = into_wire_posts(posts);
        assert(wire_views(post@).len() == post@.len());
        Ok(
            blog_grpc::ListPostsResponse {
                post,
                total,
                limit: request.limit,
                offset: request.offset,
            },
        )
    }
}

} // verus!
