//! Registration, login and the resolution of a token to its actor.

use vstd::prelude::*;

use crate::domain::auth::{Auth, AuthAnswer, User, UserView};
use crate::domain::error::{BlogError, BlogErrorView, DomainError, DomainErrorView};
use crate::ids::UserId;
use crate::data::user_repository::{
    email_of_another, has_email, has_user_id, has_username, UserRepository,
};
use crate::infrastructure::security::{
    argon2_accepts, password_verify, phc_valid, Claims, JwtService, TokenError,
};

verus! {

/// Whether `lookup` found an actor whose stored hash accepts `password`.
pub open spec fn credentials_match(lookup: Result<User, DomainError>, password: Seq<char>) -> bool {
    lookup matches Ok(u) && phc_valid(u.password_hash@) && argon2_accepts(
        password,
        u.password_hash@,
    )
}

/// The actor that `lookup` found, if the stored hash accepts `password`.
/// A failed lookup, a malformed hash and a wrong password all give
/// `Unautorized`, so that the answer does not tell whether the name exists.
pub fn check_credentials(lookup: Result<User, DomainError>, password: &str) -> (r: Result<
    User,
    BlogError,
>)
    ensures
        match r {
            Ok(u) => credentials_match(lookup, password@) && u@ == lookup->Ok_0@,
            Err(e) => !credentials_match(lookup, password@) && e is Unautorized,
        },
{
    match lookup {
        Ok(user) => match password_verify(password, user.password_hash.as_str()) {
            Ok(valid) => {
                if valid {
                    Ok(user)
                } else {
                    Err(BlogError::Unautorized)
                }
            },
            Err(_) => Err(BlogError::Unautorized),
        },
        Err(_) => Err(BlogError::Unautorized),
    }
}

/// The answer to a login of `user`: the token, or `Internal` with the
/// message of the failure to issue one.
pub fn answer_login(user: &User, token: Result<String, TokenError>) -> (r: Result<
    AuthAnswer,
    BlogError,
>)
    ensures
        match r {
            Ok(a) => token matches Ok(t) && a.token@ == t@ && a.uuid == user.id,
            Err(e) => token is Err && e is Internal,
        },
{
    match token {
        Ok(token) => Ok(AuthAnswer { token, uuid: user.id }),
        Err(err) => Err(BlogError::Internal(err.message())),
    }
}

/// What the service answers for an answer of the repository: the actor,
/// or the classified error.
pub fn stored_or_error(found: Result<User, DomainError>) -> (r: Result<User, BlogError>)
    ensures
        match r {
            Ok(u) => found == Ok::<User, DomainError>(u),
            Err(e) => found matches Err(cause) && e@ == cause@.to_blog(),
        },
{
    match found {
        Ok(user) => Ok(user),
        Err(e) => Err(BlogError::from_domain(e)),
    }
}

/// The identifier that the subject of verified claims reads as, or
/// `Unautorized` for failed verification or a subject that is no UUID.
pub fn subject_of(verified: Result<Claims, TokenError>) -> (r: Result<UserId, BlogError>)
    ensures
        match r {
            Ok(id) => verified matches Ok(c) && crate::ids::uuid_parsed(c.sub@) == Some(id.0),
            Err(e) => e is Unautorized && (verified matches Ok(c) ==> crate::ids::uuid_parsed(c.sub@)
                is None),
        },
{
    match verified {
        Ok(claims) => match UserId::parse(claims.sub.as_str()) {
            Ok(id) => Ok(id),
            Err(_) => Err(BlogError::Unautorized),
        },
        Err(_) => Err(BlogError::Unautorized),
    }
}

/// The credentials of a registration as plain values.
pub struct AuthView {
    pub username: Seq<char>,
    pub email: Seq<char>,
    pub password: Seq<char>,
}

/// The credentials that `payload` presents.
pub open spec fn presented(payload: Auth) -> AuthView {
    AuthView { username: payload.username@, email: payload.email@, password: payload.password@ }
}

/// A result with the actor and the error as plain values.
pub open spec fn user_result(r: Result<User, BlogError>) -> Result<UserView, BlogErrorView> {
    match r {
        Ok(u) => Ok(u@),
        Err(e) => Err(e@),
    }
}

/// What a registration may do to the stored actors and answer: the new
/// actor, stored last, with the name and the address that were presented
/// and a hash that accepts the password, where neither the name nor the
/// address was taken; or an error, and nothing stored. A taken name is
/// reported as `Username exists`; `email exists` is reported only where an
/// actor of another name holds the address.
pub open spec fn registration(
    before: Seq<UserView>,
    after: Seq<UserView>,
    payload: AuthView,
    r: Result<UserView, BlogErrorView>,
) -> bool {
    match r {
        Ok(stored) => {
            &&& !has_username(before, payload.username)
            &&& !has_email(before, payload.email)
            &&& stored.username == payload.username
            &&& stored.email == payload.email
            &&& phc_valid(stored.password_hash)
            &&& argon2_accepts(payload.password, stored.password_hash)
            &&& after == before.push(stored)
        },
        Err(e) => {
            &&& after == before
            &&& {
                ||| e is Internal
                ||| e == BlogErrorView::Validation("Username exists"@) && has_username(
                    before,
                    payload.username,
                )
                ||| e == BlogErrorView::Validation("email exists"@) && email_of_another(
                    before,
                    payload.username,
                    payload.email,
                )
            }
        },
    }
}

/// What storing the new actor `candidate`, whose password is hashed
/// already, may do and answer: the actor, stored last as it was handed
/// over, where neither the name nor the address nor the identifier was
/// taken; or an error, and nothing stored. A taken name is `Username
/// exists`; `email exists` is answered only where an actor of another name
/// holds the address; `Internal` is answered where the store failed, which
/// a dependable store does only for an identifier that is taken.
pub open spec fn enrolment(
    dependable: bool,
    before: Seq<UserView>,
    after: Seq<UserView>,
    candidate: UserView,
    r: Result<UserView, BlogErrorView>,
) -> bool {
    match r {
        Ok(stored) => {
            &&& !has_username(before, candidate.username)
            &&& !has_email(before, candidate.email)
            &&& !has_user_id(before, candidate.id)
            &&& stored.id == candidate.id
            &&& stored.username == candidate.username
            &&& stored.email == candidate.email
            &&& stored.password_hash == candidate.password_hash
            &&& after == before.push(stored)
        },
        Err(e) => {
            &&& after == before
            &&& {
                ||| e is Internal && (!dependable || has_user_id(before, candidate.id))
                ||| e == BlogErrorView::Validation("Username exists"@) && has_username(
                    before,
                    candidate.username,
                )
                ||| e == BlogErrorView::Validation("email exists"@) && email_of_another(
                    before,
                    candidate.username,
                    candidate.email,
                )
            }
        },
    }
}

/// On a dependable store, a new actor whose name is taken, whose
/// identifier is free and whose address no actor of another name holds is
/// answered `Username exists`; and an actor of whom nothing is taken is
/// stored.
pub proof fn lemma_taken_name_is_told(
    before: Seq<UserView>,
    after: Seq<UserView>,
    candidate: UserView,
    r: Result<UserView, BlogErrorView>,
)
    requires
        enrolment(true, before, after, candidate, r),
        !has_user_id(before, candidate.id),
    ensures
        has_username(before, candidate.username) && !email_of_another(
            before,
            candidate.username,
            candidate.email,
        ) ==> r == Err::<UserView, BlogErrorView>(BlogErrorView::Validation("Username exists"@)),
        !has_username(before, candidate.username) && !has_email(before, candidate.email) ==> r
            is Ok,
{
    if !has_username(before, candidate.username) && !has_email(before, candidate.email) {
        if email_of_another(before, candidate.username, candidate.email) {
            let i = choose|i: int|
                0 <= i < before.len() && (#[trigger] before[i]).email == candidate.email
                    && before[i].username != candidate.username;
            assert(before[i].email == candidate.email);
        }
    }
}

/// Whether an actor named `username` is stored whose hash does not accept
/// `password`, or is no hash at all.
pub open spec fn turned_away(users: Seq<UserView>, username: Seq<char>, password: Seq<char>) -> bool {
    exists|i: int|
        0 <= i < users.len() && (#[trigger] users[i]).username == username && !(phc_valid(
            users[i].password_hash,
        ) && argon2_accepts(password, users[i].password_hash))
}

/// Whether an actor named `username` is stored whose hash accepts
/// `password`.
pub open spec fn let_in(users: Seq<UserView>, username: Seq<char>, password: Seq<char>) -> bool {
    exists|i: int|
        0 <= i < users.len() && (#[trigger] users[i]).username == username && phc_valid(
            users[i].password_hash,
        ) && argon2_accepts(password, users[i].password_hash)
}

/// What a login may answer against the stored actors `users`: a token for
/// an actor of that name whose hash accepts the password, or an error,
/// which is `Unautorized` where no actor of that name has such a hash. On
/// a dependable store every failure has its cause: `Unautorized` says that
/// no actor has the name or that one was turned away, `Internal` that an
/// actor was let in and no token could be signed.
pub open spec fn login_outcome(
    dependable: bool,
    users: Seq<UserView>,
    keys: JwtService,
    username: Seq<char>,
    password: Seq<char>,
    r: Result<(UserId, Seq<char>), BlogErrorView>,
) -> bool {
    &&& match r {
        Ok((id, token)) => {
            &&& exists|i: int|
                {
                    &&& 0 <= i < users.len()
                    &&& (#[trigger] users[i]).username == username
                    &&& users[i].id == id
                    &&& argon2_accepts(password, users[i].password_hash)
                }
            &&& keys.issues(id, token)
        },
        Err(e) => e is Unautorized || e is Internal,
    }
    &&& (forall|i: int|
        0 <= i < users.len() && (#[trigger] users[i]).username == username ==> !argon2_accepts(
            password,
            users[i].password_hash,
        )) ==> r == Err::<(UserId, Seq<char>), BlogErrorView>(BlogErrorView::Unautorized)
    &&& dependable ==> match r {
        Err(BlogErrorView::Unautorized) => !has_username(users, username) || turned_away(
            users,
            username,
            password,
        ),
        Err(BlogErrorView::Internal(_)) => let_in(users, username, password),
        _ => true,
    }
}

/// Registering a name a second time fails and stores nothing: the actor of
/// the first registration stays as it was stored. The error is `Username
/// exists`, unless the store failed, or an actor of another name holds the
/// address of the second attempt, in which case it may be `email exists`.
pub proof fn lemma_second_registration_of_a_name_fails(
    start: Seq<UserView>,
    between: Seq<UserView>,
    end: Seq<UserView>,
    first: AuthView,
    second: AuthView,
    stored: UserView,
    again: Result<UserView, BlogErrorView>,
)
    requires
        registration(start, between, first, Ok(stored)),
        registration(between, end, second, again),
        second.username == first.username,
    ensures
        end == between,
        end[start.len() as int] == stored,
        again matches Err(e) && {
            ||| e == BlogErrorView::Validation("Username exists"@)
            ||| e is Internal
            ||| e == BlogErrorView::Validation("email exists"@) && email_of_another(
                between,
                second.username,
                second.email,
            )
        },
        !email_of_another(between, second.username, second.email) ==> (again matches Err(e) && (e
            == BlogErrorView::Validation("Username exists"@) || e is Internal)),
{
    assert(between[start.len() as int] == stored);
    assert(has_username(between, second.username));
}

/// Registration and login against a user repository.
#[derive(Clone)]
pub struct AuthService<R: UserRepository> {
    pub repo: R,
    pub keys: JwtService,
}

impl<R: UserRepository> AuthService<R> {
    /// A service on `repo` that signs with `keys`.
    pub fn new(repo: R, keys: JwtService) -> (r: Self)
        ensures
            r.repo == repo,
            r.keys == keys,
    {
        Self { repo, keys }
    }

    /// The token service.
    pub fn keys(&self) -> (r: &JwtService)
        ensures
            *r == self.keys,
    {
        &self.keys
    }

    /// The stored actor with identifier `id`; `NotFound` where there is
    /// none, `Internal` where the store failed, which a dependable store
    /// does not.
    pub fn get_user(&self, id: UserId) -> (r: Result<User, BlogError>)
        ensures
            match r {
                Ok(u) => u.id == id && self.repo.users().contains(u@),
                Err(e) => {
                    ||| e is Internal && !self.repo.dependable()
                    ||| e@ == BlogErrorView::NotFound("user not found"@) && !has_user_id(
                        self.repo.users(),
                        id,
                    )
                },
            },
    {
        stored_or_error(self.repo.get_user_by_id(id))
    }

    /// Logs `username` in: looks the actor up, checks the password against
    /// the stored hash and issues a token. An unknown name and a wrong
    /// password both give `Unautorized`.
    pub fn login_by_username(&self, username: &str, password: &str) -> (r: Result<
        AuthAnswer,
        BlogError,
    >)
        ensures
            login_outcome(
                self.repo.dependable(),
                self.repo.users(),
                self.keys,
                username@,
                password@,
                match r {
                    Ok(a) => Ok((a.uuid, a.token@)),
                    Err(e) => Err(e@),
                },
            ),
    {
        let lookup = self.repo.get_user_by_username(username);
        proof {
            if lookup is Ok {
                let found = lookup->Ok_0@;
                let i = choose|i: int|
                    0 <= i < self.repo.users().len() && self.repo.users()[i] == found;
                assert(self.repo.users()[i].username == username@);
            }
        }
        let user = check_credentials(lookup, password)?;
        let token = self.keys.generate_token(user.id);
        answer_login(&user, token)
    }

    /// Stores the new actor `user`, whose password is hashed already, and
    /// classifies a refusal by the field that collided.
    pub fn enrol(&mut self, user: User) -> (r: Result<User, BlogError>)
        ensures
            final(self).keys == old(self).keys,
            final(self).repo.dependable() == old(self).repo.dependable(),
            enrolment(
                old(self).repo.dependable(),
                old(self).repo.users(),
                final(self).repo.users(),
                user@,
                user_result(r),
            ),
    {
        stored_or_error(self.repo.create_user(user))
    }

    /// Registers a new actor: hashes the password and stores the actor
    /// under a fresh identifier. Fails, and stores nothing, where the name
    /// or the address is taken.
    pub fn register(&mut self, user: Auth) -> (r: Result<User, BlogError>)
        ensures
            registration(
                old(self).repo.users(),
                final(self).repo.users(),
                presented(user),
                user_result(r),
            ),
            final(self).keys == old(self).keys,
            final(self).repo.dependable() == old(self).repo.dependable(),
    {
        let hash = match crate::infrastructure::security::password_hash(user.password.as_str()) {
            Ok(hash) => hash,
            Err(err) => {
                return Err(BlogError::Internal(err.message()));
            },
        };
        let user = User::new(user.username, user.email, hash);
        self.enrol(user)
    }

    /// Resolves `token` to the stored actor that it was issued for: the
    /// token must verify, its subject must read as an identifier, and the
    /// actor must still exist. Every failure is `Unautorized`.
    pub fn resolve(&self, token: &str) -> (r: Result<User, BlogError>)
        ensures
            match r {
                Ok(u) => self.repo.users().contains(u@) && self.keys.names(token@, u.id),
                Err(e) => e is Unautorized,
            },
    {
        let verified = self.keys.verify_token(token);
        let id = subject_of(verified)?;
        match self.get_user(id) {
            Ok(user) => Ok(user),
            Err(_) => Err(BlogError::Unautorized),
        }
    }
}

} // verus!
