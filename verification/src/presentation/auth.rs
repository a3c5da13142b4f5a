//! The authorization guard: from the `Authorization` value of a request to
//! the actor that makes it.

use vstd::prelude::*;

use crate::application::AuthService;
use crate::data::user_repository::{has_user_id, UserRepository};
use crate::domain::error::{BlogError, BlogErrorView};
use crate::ids::UserId;
use crate::text::{strip_prefix, stripped};

verus! {

/// The actor that a request was authorized for.
#[derive(Clone, Copy, Debug, PartialEq, Eq, Structural)]
pub struct AuthenticatedUser {
    pub id: UserId,
}

/// The `Authorization` header, or `authorization` metadata value, of a
/// request.
#[derive(Debug)]
pub enum Authorization {
    /// The request has none.
    Missing,
    /// The value is not text.
    Unreadable,
    /// The value.
    Value(String),
}

/// The scheme prefix of a bearer token.
pub open spec fn bearer_prefix() -> Seq<char> {
    "Bearer "@
}

/// What the guard finds in `header`: the token after the scheme prefix, or
/// the rejection.
pub open spec fn bearer(header: Authorization) -> Result<Seq<char>, BlogErrorView> {
    match header {
        Authorization::Missing => Err(BlogErrorView::Unautorized),
        Authorization::Unreadable => Err(BlogErrorView::Validation("Invalid token"@)),
        Authorization::Value(v) => match stripped(v@, bearer_prefix()) {
            Some(token) => Ok(token),
            None => Err(BlogErrorView::Validation("invalid authorization header"@)),
        },
    }
}

/// The bearer token of a request: a missing value is `Unautorized`, a value
/// without the `Bearer ` prefix is a validation error.
pub fn bearer_token(header: &Authorization) -> (r: Result<String, BlogError>)
    ensures
        match r {
            Ok(token) => bearer(*header) == Ok::<Seq<char>, BlogErrorView>(token@),
            Err(e) => bearer(*header) == Err::<Seq<char>, BlogErrorView>(e@),
        },
{
    match header {
        Authorization::Missing => Err(BlogError::Unautorized),
        Authorization::Unreadable => Err(BlogError::Validation("Invalid token".to_owned())),
        Authorization::Value(v) => match strip_prefix(v.as_str(), "Bearer ") {
            Some(token) => Ok(token),
            None => Err(BlogError::Validation("invalid authorization header".to_owned())),
        },
    }
}

/// The header that a client writes for a token, the scheme prefix and the
/// token, is read back by the guard as that token.
pub proof fn lemma_bearer_is_read_back(token: Seq<char>, header: Authorization)
    requires
        header matches Authorization::Value(v) && v@ == bearer_prefix() + token,
    ensures
        bearer(header) == Ok::<Seq<char>, BlogErrorView>(token),
{
    let value = header->Value_0@;
    assert(value.subrange(0, bearer_prefix().len() as int) =~= bearer_prefix());
    assert(value.skip(bearer_prefix().len() as int) =~= token);
}

/// Resolves `token` to the actor that it was issued for. Every failure is
/// `Unautorized`: a token that does not verify, a subject that is no
/// identifier, an actor that is not stored.
pub fn extract_user_from_token<R: UserRepository>(token: &str, auth_service: &AuthService<R>) -> (r:
    Result<AuthenticatedUser, BlogError>)
    ensures
        match r {
            Ok(user) => has_user_id(auth_service.repo.users(), user.id) && auth_service.keys.names(
                token@,
                user.id,
            ),
            Err(e) => e is Unautorized,
        },
{
    let user = auth_service.resolve(token)?;
    proof {
        let i = choose|i: int|
            0 <= i < auth_service.repo.users().len() && auth_service.repo.users()[i] == user@;
        assert(auth_service.repo.users()[i].id == user.id);
    }
    Ok(AuthenticatedUser { id: user.id })
}

/// The guard of every protected operation: finds the bearer token in
/// `header` and resolves it to a stored actor. It rejects before it looks
/// at any token where `header` holds none.
pub fn authorize<R: UserRepository>(header: &Authorization, auth_service: &AuthService<R>) -> (r:
    Result<AuthenticatedUser, BlogError>)
    ensures
        match r {
            Ok(user) => {
                &&& bearer(*header) matches Ok(token)
                &&& auth_service.keys.names(token, user.id)
                &&& has_user_id(auth_service.repo.users(), user.id)
            },
            Err(e) => match bearer(*header) {
                Ok(_) => e is Unautorized,
                Err(rejection) => e@ == rejection,
            },
        },
{
    let token = bearer_token(header)?;
    extract_user_from_token(token.as_str(), auth_service)
}

} // verus!
