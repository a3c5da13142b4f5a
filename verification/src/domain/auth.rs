//! Actors and the credentials they present.

use vstd::prelude::*;

use crate::clock::unix_now;
use crate::ids::{is_random_uuid, UserId};

verus! {

/// A registered actor.
#[derive(Clone, Debug)]
pub struct User {
    pub id: UserId,
    pub username: String,
    pub email: String,
    pub password_hash: String,
    /// Seconds since the Unix epoch.
    pub created_at: i64,
}

/// A `User` as plain values.
pub struct UserView {
    pub id: UserId,
    pub username: Seq<char>,
    pub email: Seq<char>,
    pub password_hash: Seq<char>,
    pub created_at: i64,
}

impl View for User {
    type V = UserView;

    open spec fn view(&self) -> UserView {
        UserView {
            id: self.id,
            username: self.username@,
            email: self.email@,
            password_hash: self.password_hash@,
            created_at: self.created_at,
        }
    }
}

impl User {
    /// A new actor with a fresh random identifier, a UUID of version 4,
    /// created now.
    pub fn new(username: String, email: String, password_hash: String) -> (r: User)
        ensures
            r.username@ == username@,
            r.email@ == email@,
            r.password_hash@ == password_hash@,
            is_random_uuid(r.id.0),
    {
        User { id: UserId::generate(), username, email, password_hash, created_at: unix_now() }
    }

    /// A copy of the actor.
    pub fn duplicate(&self) -> (r: User)
        ensures
            r@ == self@,
    {
        User {
            id: self.id,
            username: self.username.clone(),
            email: self.email.clone(),
            password_hash: self.password_hash.clone(),
            created_at: self.created_at,
        }
    }
}

/// What a new actor presents at registration.
#[derive(Clone, Debug)]
pub struct Auth {
    pub username: String,
    pub email: String,
    pub password: String,
}

impl Auth {
    /// A copy of the credentials.
    pub fn duplicate(&self) -> (r: Auth)
        ensures
            r.username@ == self.username@,
            r.email@ == self.email@,
            r.password@ == self.password@,
    {
        Auth {
            username: self.username.clone(),
            email: self.email.clone(),
            password: self.password.clone(),
        }
    }
}

/// What an actor presents at login.
#[derive(Debug)]
pub struct Login {
    pub username: String,
    pub password: String,
}

/// The answer to a login: the token and whom it was issued for.
#[derive(Debug)]
pub struct AuthAnswer {
    pub token: String,
    pub uuid: UserId,
}

} // verus!
