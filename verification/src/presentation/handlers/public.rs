//! The public operations: registration, login and reading.

use vstd::prelude::*;

use crate::application::auth_service::{login_outcome, presented, turned_away, AuthView};
use crate::application::blog_service::{listing, lookup};
use crate::application::{AuthService, BlogService};
use crate::clock::unix_now;
use crate::data::post_repository::{distinct_ids, has_post, page, views, PostRepository};
use crate::data::user_repository::{email_of_another, has_username, UserRepository};
use crate::domain::auth::{Auth, Login, UserView};
use crate::domain::error::{BlogError, BlogErrorView};
use crate::ids::UserId;
use crate::infrastructure::security::{argon2_accepts, phc_valid, JwtService};
use crate::presentation::dto::{
    AuthResponse, HealthResponse, ListPostsResponse, PaginationParams, PostResponse, Reply,
};

verus! {

/// Whether `after` is `before` with one more actor, who has the name and
/// the address of `payload`, a hash that accepts its password, and the
/// identifier `id`.
pub open spec fn registered(
    before: Seq<UserView>,
    after: Seq<UserView>,
    payload: AuthView,
    id: UserId,
) -> bool {
    exists|stored: UserView|
        {
            &&& #[trigger] before.push(stored) == after
            &&& stored.username == payload.username
            &&& stored.email == payload.email
            &&& stored.id == id
            &&& argon2_accepts(payload.password, stored.password_hash)
        }
}

/// What a registration followed by a login may leave and answer: a new
/// actor and a token for it; or an error, with nothing stored where the
/// registration failed, and the new actor stored where only the login did.
/// On a dependable store the login of the actor that was just stored fails
/// only where no token could be signed, which is `Internal`.
pub open spec fn register_outcome(
    dependable: bool,
    before: Seq<UserView>,
    after: Seq<UserView>,
    keys: JwtService,
    payload: AuthView,
    r: Result<(UserId, Seq<char>), BlogErrorView>,
) -> bool {
    match r {
        Ok((id, token)) => {
            &&& !has_username(before, payload.username)
            &&& registered(before, after, payload, id)
            &&& keys.issues(id, token)
        },
        Err(e) => {
            ||| {
                &&& after == before
                &&& {
                    ||| e is Internal
                    ||| e == BlogErrorView::Validation("Username exists"@) && has_username(
                        before,
                        payload.username,
                    )
                    ||| e == BlogErrorView::Validation("email exists"@) && email_of_another(
                        before,
                        payload.username,
                        payload.email,
                    )
                }
            }
            ||| {
                &&& !has_username(before, payload.username)
                &&& exists|id: UserId| #[trigger] registered(before, after, payload, id)
                &&& e is Internal || (e is Unautorized && !dependable)
            }
        },
    }
}

/// Where the name is taken, a registration through the front end fails and
/// stores nothing.
pub proof fn lemma_taken_name_is_not_registered(
    dependable: bool,
    before: Seq<UserView>,
    after: Seq<UserView>,
    keys: JwtService,
    payload: AuthView,
    r: Result<(UserId, Seq<char>), BlogErrorView>,
)
    requires
        register_outcome(dependable, before, after, keys, payload, r),
        has_username(before, payload.username),
    ensures
        r is Err,
        after == before,
{
}

/// The actor and the token of an answer to a registration or a login, or
/// the error.
pub open spec fn auth_outcome(r: Result<Reply<AuthResponse>, BlogError>) -> Result<
    (UserId, Seq<char>),
    BlogErrorView,
> {
    match r {
        Ok(reply) => Ok((reply.body.uuid, reply.body.token@)),
        Err(e) => Err(e@),
    }
}

/// The health check: answers 200 with the status `ok` and the time.
pub fn health() -> (r: Reply<HealthResponse>)
    ensures
        r.status == 200,
        r.body.status@ == "ok"@,
{
    Reply { status: 200, body: HealthResponse { status: "ok".to_owned(), timestamp: unix_now() } }
}

/// Registers a new actor and logs it in: answers 200 with a token for the
/// new actor. Where the name is taken, the answer is an error and nothing
/// is stored.
pub fn register<R: UserRepository>(auth_service: &mut AuthService<R>, payload: Auth) -> (r: Result<
    Reply<AuthResponse>,
    BlogError,
>)
    ensures
        final(auth_service).keys == old(auth_service).keys,
        final(auth_service).repo.dependable() == old(auth_service).repo.dependable(),
        r matches Ok(reply) ==> reply.status == 200,
        register_outcome(
            old(auth_service).repo.dependable(),
            old(auth_service).repo.users(),
            final(auth_service).repo.users(),
            old(auth_service).keys,
            presented(payload),
            auth_outcome(r),
        ),
{
    let credentials = payload.duplicate();
    let ghost before = auth_service.repo.users();
    let acc = auth_service.register(credentials)?;
    assert(registered(before, auth_service.repo.users(), presented(payload), acc.id)) by {
        assert(before.push(acc@) == auth_service.repo.users());
    }
    let answer = match auth_service.login_by_username(
        payload.username.as_str(),
        payload.password.as_str(),
    ) {
        Ok(answer) => answer,
        Err(e) => {
            proof {
                let after = auth_service.repo.users();
                assert(after[before.len() as int] == acc@);
                assert(has_username(after, payload.username@));
                if turned_away(after, payload.username@, payload.password@) {
                    let i = choose|i: int|
                        0 <= i < after.len() && (#[trigger] after[i]).username
                            == payload.username@ && !(phc_valid(after[i].password_hash)
                            && argon2_accepts(payload.password@, after[i].password_hash));
                    if i < before.len() {
                        assert(before[i].username == payload.username@);
                    }
                    assert(after[i] == acc@);
                }
            }
            return Err(e);
        },
    };
    proof {
        let after = auth_service.repo.users();
        let i = choose|i: int|
            0 <= i < after.len() && (#[trigger] after[i]).username == payload.username@
                && after[i].id == answer.uuid;
        if i < before.len() {
            assert(before[i].username == payload.username@);
        }
        assert(after[i] == acc@);
    }
    Ok(Reply { status: 200, body: AuthResponse { token: answer.token, uuid: answer.uuid } })
}

/// Logs an actor in: answers 200 with a token. An unknown name and a wrong
/// password both give `Unautorized`.
pub fn login<R: UserRepository>(auth_service: &AuthService<R>, payload: &Login) -> (r: Result<
    Reply<AuthResponse>,
    BlogError,
>)
    ensures
        r matches Ok(reply) ==> reply.status == 200,
        login_outcome(
            auth_service.repo.dependable(),
            auth_service.repo.users(),
            auth_service.keys,
            payload.username@,
            payload.password@,
            auth_outcome(r),
        ),
{
    let acc = auth_service.login_by_username(
        payload.username.as_str(),
        payload.password.as_str(),
    )?;
    Ok(Reply { status: 200, body: AuthResponse { token: acc.token, uuid: acc.uuid } })
}

/// Reads one post: answers 200 with the post. Where no post has the
/// identifier, the answer is never a post.
pub fn get_post_by_id<R: PostRepository>(blog_service: &BlogService<R>, id: i64) -> (r: Result<
    Reply<PostResponse>,
    BlogError,
>)
    ensures
        r matches Ok(reply) ==> reply.status == 200,
        lookup(
            blog_service.data.dependable(),
            blog_service.data.posts(),
            id,
            match r {
                Ok(reply) => Ok(reply.body.post@),
                Err(e) => Err(e@),
            },
        ),
{
    let post = blog_service.get_post_by_id(id)?;
    Ok(Reply { status: 200, body: PostResponse { post } })
}

/// Lists a page of posts, newest first: answers 200 with the page, its
/// length, and the limit and offset that were asked for.
pub fn get_post<R: PostRepository>(blog_service: &BlogService<R>, params: &PaginationParams) -> (r:
    Result<Reply<ListPostsResponse>, BlogError>)
    ensures
        r matches Ok(reply) ==> {
            &&& reply.status == 200
            &&& reply.body.total == reply.body.post@.len()
            &&& reply.body.limit == params.limit
            &&& reply.body.offset == params.offset
        },
        listing(
            blog_service.data.dependable(),
            blog_service.data.posts(),
            params.limit as i64,
            params.offset as i64,
            match r {
                Ok(reply) => Ok(views(reply.body.post@)),
                Err(e) => Err(e@),
            },
        ),
{
    let post = blog_service.get_next_posts(params.offset as i64, params.limit as i64)?;
    assert(views(post@).len() == post@.len());
    let total = post.len() as i32;
    Ok(
        Reply {
            status: 200,
            body: ListPostsResponse { post, total, limit: params.limit, offset: params.offset },
        },
    )
}

} // verus!
