//! The capability that stores actors, and a store in memory.

use vstd::prelude::*;

use crate::domain::auth::{User, UserView};
use crate::domain::error::{DomainError, DomainErrorView};
use crate::ids::UserId;
use crate::text::same_text;

verus! {

/// Whether an actor named `username` is among `users`.
pub open spec fn has_username(users: Seq<UserView>, username: Seq<char>) -> bool {
    exists|i: int| 0 <= i < users.len() && (#[trigger] users[i]).username == username
}

/// Whether an actor with the address `email` is among `users`.
pub open spec fn has_email(users: Seq<UserView>, email: Seq<char>) -> bool {
    exists|i: int| 0 <= i < users.len() && (#[trigger] users[i]).email == email
}

/// Whether an actor with the identifier `id` is among `users`.
pub open spec fn has_user_id(users: Seq<UserView>, id: UserId) -> bool {
    exists|i: int| 0 <= i < users.len() && (#[trigger] users[i]).id == id
}

/// Whether an actor of another name than `username` holds `email`.
pub open spec fn email_of_another(users: Seq<UserView>, username: Seq<char>, email: Seq<char>) -> bool {
    exists|i: int|
        0 <= i < users.len() && (#[trigger] users[i]).email == email && users[i].username
            != username
}

/// What a stored actor that shares the name or the address of `candidate`
/// means for the registration of `candidate`: the name is looked at first.
pub open spec fn collision(existing: Option<UserView>, candidate: UserView) -> Option<
    DomainErrorView,
> {
    match existing {
        Some(found) => if found.username == candidate.username {
            Some(DomainErrorView::Validation("Username exists"@))
        } else if found.email == candidate.email {
            Some(DomainErrorView::Validation("email exists"@))
        } else {
            None
        },
        None => None,
    }
}

/// Classifies a uniqueness violation by the field that collided: `existing`
/// is a stored actor with the name or the address of `candidate`, if the
/// store found one.
pub fn check_unique(existing: Option<&User>, candidate: &User) -> (r: Result<(), DomainError>)
    ensures
        match r {
            Ok(_) => collision(
                match existing {
                    Some(u) => Some(u@),
                    None => None,
                },
                candidate@,
            ) is None,
            Err(e) => collision(
                match existing {
                    Some(u) => Some(u@),
                    None => None,
                },
                candidate@,
            ) == Some(e@),
        },
{
    match existing {
        Some(found) => {
            if same_text(found.username.as_str(), candidate.username.as_str()) {
                return Err(DomainError::Validation("Username exists".to_owned()));
            }
            if same_text(found.email.as_str(), candidate.email.as_str()) {
                return Err(DomainError::Validation("email exists".to_owned()));
            }
            Ok(())
        },
        None => Ok(()),
    }
}

/// A store of actors. `users` is what it holds, in the order of
/// registration. Every operation may fail with `Internal`, and then changes
/// nothing; a store that is `dependable` does so only for an identifier
/// that is taken.
pub trait UserRepository {
    /// Whether the store never fails of its own accord: where this holds,
    /// an operation fails only for the reason that its contract names. The
    /// default is for a store outside this crate, which cannot prove it.
    open spec fn dependable(&self) -> bool {
        false
    }

    /// The stored actors, oldest first: the model that the contracts below
    /// speak of, and that a store of this crate defines.
    ///
    /// The default is one fixed sequence. It is there only so that a store
    /// written outside this crate, which cannot state a model, can implement
    /// the trait. Of such a store the contracts are not proved, and the
    /// default cannot even meet them (its content never changes): they
    /// describe what the database behind it does, on its author's word.
    open spec fn users(&self) -> Seq<UserView> {
        arbitrary()
    }

    /// Stores `user` unless its name, its address or its identifier is
    /// taken. A taken name is reported as `Validation("Username exists")`;
    /// `Validation("email exists")` is reported only where an actor of
    /// another name holds the address.
    fn create_user(&mut self, user: User) -> (r: Result<User, DomainError>)
        ensures
            match r {
                Ok(stored) => {
                    &&& !has_username(old(self).users(), user.username@)
                    &&& !has_email(old(self).users(), user.email@)
                    &&& !has_user_id(old(self).users(), user.id)
                    &&& stored.id == user.id
                    &&& stored.username@ == user.username@
                    &&& stored.email@ == user.email@
                    &&& stored.password_hash@ == user.password_hash@
                    &&& final(self).users() == old(self).users().push(stored@)
                },
                Err(e) => {
                    &&& final(self).users() == old(self).users()
                    &&& {
                        ||| e is Internal
                        ||| e@ == DomainErrorView::Validation("Username exists"@) && has_username(
                            old(self).users(),
                            user.username@,
                        )
                        ||| e@ == DomainErrorView::Validation("email exists"@) && email_of_another(
                            old(self).users(),
                            user.username@,
                            user.email@,
                        )
                    }
                },
            },
            old(self).dependable() ==> (r matches Err(e) && e is Internal ==> has_user_id(
                old(self).users(),
                user.id,
            )),
            final(self).dependable() == old(self).dependable(),
    ;

    /// The stored actor with identifier `id`; `UserNotFound` only where
    /// there is none.
    fn get_user_by_id(&self, id: UserId) -> (r: Result<User, DomainError>)
        ensures
            match r {
                Ok(u) => u.id == id && self.users().contains(u@),
                Err(e) => {
                    ||| e is Internal && !self.dependable()
                    ||| e is UserNotFound && !has_user_id(self.users(), id)
                },
            },
    ;

    /// The stored actor named `username`; `UserNotFound` only where there
    /// is none.
    fn get_user_by_username(&self, username: &str) -> (r: Result<User, DomainError>)
        ensures
            match r {
                Ok(u) => u.username@ == username@ && self.users().contains(u@),
                Err(e) => {
                    ||| e is Internal && !self.dependable()
                    ||| e is UserNotFound && !has_username(self.users(), username@)
                },
            },
    ;

    /// The stored actor with the address `email`; `UserNotFound` only where
    /// there is none.
    fn get_user_by_email(&self, email: &str) -> (r: Result<User, DomainError>)
        ensures
            match r {
                Ok(u) => u.email@ == email@ && self.users().contains(u@),
                Err(e) => {
                    ||| e is Internal && !self.dependable()
                    ||| e is UserNotFound && !has_email(self.users(), email@)
                },
            },
    ;
}

/// The views of a sequence of actors.
pub open spec fn user_views(users: Seq<User>) -> Seq<UserView> {
    users.map_values(|u: User| u@)
}

/// A user repository in memory.
pub struct MemoryUserRepository {
    users: Vec<User>,
}

impl MemoryUserRepository {
    /// An empty store.
    pub fn new() -> (r: MemoryUserRepository)
        ensures
            r.users() == Seq::<UserView>::empty(),
    {
        let r = MemoryUserRepository { users: Vec::new() };
        assert(user_views(r.users@) =~= Seq::<UserView>::empty());
        r
    }

    /// The position of the first stored actor with the name `username` or
    /// the address `email`.
    fn find_name_or_email(&self, username: &str, email: &str) -> (r: Option<usize>)
        ensures
            match r {
                Some(i) => i < self.users@.len() && (self.users@[i as int].username@ == username@
                    || self.users@[i as int].email@ == email@),
                None => !has_username(self.users(), username@) && !has_email(self.users(), email@),
            },
    {
        let mut i: usize = 0;
        while i < self.users.len()
            invariant
                i <= self.users@.len(),
                forall|k: int|
                    0 <= k < i ==> (#[trigger] self.users@[k]).username@ != username@
                        && self.users@[k].email@ != email@,
            decreases self.users@.len() - i,
        {
            if same_text(self.users[i].username.as_str(), username) || same_text(
                self.users[i].email.as_str(),
                email,
            ) {
                return Some(i);
            }
            i += 1;
        }
        assert forall|k: int| 0 <= k < self.users().len() implies (#[trigger] self.users()[k]).username
            != username@ && self.users()[k].email != email@ by {
            assert(self.users()[k] == self.users@[k]@);
        }
        None
    }

    /// The position of the stored actor with identifier `id`.
    fn find_id(&self, id: UserId) -> (r: Option<usize>)
        ensures
            match r {
                Some(i) => i < self.users@.len() && self.users@[i as int].id == id,
                None => !has_user_id(self.users(), id),
            },
    {
        let mut i: usize = 0;
        while i < self.users.len()
            invariant
                i <= self.users@.len(),
                forall|k: int| 0 <= k < i ==> (#[trigger] self.users@[k]).id != id,
            decreases self.users@.len() - i,
        {
            if self.users[i].id == id {
                return Some(i);
            }
            i += 1;
        }
        assert forall|k: int| 0 <= k < self.users().len() implies (#[trigger] self.users()[k]).id
            != id by {
            assert(self.users()[k] == self.users@[k]@);
        }
        None
    }

    /// The actor at position `i`, as a lookup answers.
    fn answer(&self, i: usize) -> (r: User)
        requires
            i < self.users@.len(),
        ensures
            r@ == self.users@[i as int]@,
            self.users().contains(r@),
    {
        let found = self.users[i].duplicate();
        assert(self.users()[i as int] == found@);
        found
    }
}

impl UserRepository for MemoryUserRepository {
    closed spec fn users(&self) -> Seq<UserView> {
        user_views(self.users@)
    }

    /// The store in memory never fails of its own accord.
    open spec fn dependable(&self) -> bool {
        true
    }

    /// Succeeds exactly where neither the name nor the address nor the
    /// identifier is taken, and stores the actor as it was handed over. A
    /// taken identifier alone is reported as `Internal`.
    fn create_user(&mut self, user: User) -> (r: Result<User, DomainError>)
        ensures
            r is Ok <==> !has_username(old(self).users(), user.username@) && !has_email(
                old(self).users(),
                user.email@,
            ) && !has_user_id(old(self).users(), user.id),
            r matches Ok(stored) ==> stored@ == user@,
            r matches Err(e) ==> (e is Internal <==> !has_username(
                old(self).users(),
                user.username@,
            ) && !has_email(old(self).users(), user.email@)),
    {
        match self.find_name_or_email(user.username.as_str(), user.email.as_str()) {
            Some(i) => {
                assert(self.users()[i as int] == self.users@[i as int]@);
                match check_unique(Some(&self.users[i]), &user) {
                    Ok(_) => {},
                    Err(e) => {
                        return Err(e);
                    },
                }
            },
            None => {},
        }
        match self.find_id(user.id) {
            Some(i) => {
                assert(self.users()[i as int].id == user.id);
                return Err(DomainError::Internal("database error: duplicate key".to_owned()));
            },
            None => {},
        }
        let stored = user.duplicate();
        let ghost before = self.users@;
        self.users.push(user);
        assert(user_views(self.users@) =~= user_views(before).push(stored@));
        Ok(stored)
    }

    /// Never fails for an actor that is stored.
    fn get_user_by_id(&self, id: UserId) -> (r: Result<User, DomainError>)
        ensures
            r is Ok <==> has_user_id(self.users(), id),
            r matches Err(e) ==> e is UserNotFound,
    {
        match self.find_id(id) {
            Some(i) => Ok(self.answer(i)),
            None => Err(DomainError::UserNotFound),
        }
    }

    /// Never fails for an actor that is stored.
    fn get_user_by_username(&self, username: &str) -> (r: Result<User, DomainError>)
        ensures
            r is Ok <==> has_username(self.users(), username@),
            r matches Err(e) ==> e is UserNotFound,
    {
        let mut i: usize = 0;
        while i < self.users.len()
            invariant
                i <= self.users@.len(),
                forall|k: int| 0 <= k < i ==> (#[trigger] self.users@[k]).username@ != username@,
            decreases self.users@.len() - i,
        {
            if same_text(self.users[i].username.as_str(), username) {
                return Ok(self.answer(i));
            }
            i += 1;
        }
        assert forall|k: int| 0 <= k < self.users().len() implies (#[trigger] self.users()[k]).username
            != username@ by {
            assert(self.users()[k] == self.users@[k]@);
        }
        Err(DomainError::UserNotFound)
    }

    /// Never fails for an actor that is stored.
    fn get_user_by_email(&self, email: &str) -> (r: Result<User, DomainError>)
        ensures
            r is Ok <==> has_email(self.users(), email@),
            r matches Err(e) ==> e is UserNotFound,
    {
        let mut i: usize = 0;
        while i < self.users.len()
            invariant
                i <= self.users@.len(),
                forall|k: int| 0 <= k < i ==> (#[trigger] self.users@[k]).email@ != email@,
            decreases self.users@.len() - i,
        {
            if same_text(self.users[i].email.as_str(), email) {
                return Ok(self.answer(i));
            }
            i += 1;
        }
        assert forall|k: int| 0 <= k < self.users().len() implies (#[trigger] self.users()[k]).email
            != email@ by {
            assert(self.users()[k] == self.users@[k]@);
        }
        Err(DomainError::UserNotFound)
    }
}

} // verus!
