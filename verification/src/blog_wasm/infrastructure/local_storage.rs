//! The session that the front end keeps in the browser's local storage.

use vstd::prelude::*;

use crate::ids::UserId;
use crate::text::join2;

verus! {

/// The stored session: the token and whose it is.
#[derive(Debug)]
pub struct SaveData {
    pub token: String,
    pub username: String,
    pub uuid: UserId,
}

impl SaveData {
    /// The value of the `Authorization` header for the stored token.
    pub fn get_brear(&self) -> (r: String)
        ensures
            r@ == "Bearer "@ + self.token@,
    {
        join2("Bearer ", self.token.as_str())
    }

    /// The session of `username`, who has the identifier `uuid`, with
    /// `token`.
    pub fn new(token: String, username: String, uuid: UserId) -> (r: Self)
        ensures
            r.token == token,
            r.username == username,
            r.uuid == uuid,
    {
        Self { token, username, uuid }
    }
}

} // verus!
