//! What the forms of the front end tell the user before anything is sent.

use vstd::prelude::*;

use crate::blog_wasm::dto::Post;
use crate::blog_wasm::infrastructure::SaveData;

verus! {

/// The message of the registration form: the last of the three fields that
/// is empty decides; nothing where none is.
pub fn registration_error(username: &str, email: &str, password: &str) -> (r: String)
    ensures
        r@ == (if password@.len() == 0 {
            "пароль обязателен"@
        } else if email@.len() == 0 {
            "Почта обязательна"@
        } else if username@.len() == 0 {
            "Имя пользователя обязательно"@
        } else {
            ""@
        }),
{
    let mut error = "".to_owned();
    if username.is_empty() {
        error = "Имя пользователя обязательно".to_owned();
    }
    if email.is_empty() {
        error = "Почта обязательна".to_owned();
    }
    if password.is_empty() {
        error = "пароль обязателен".to_owned();
    }
    error
}

/// The message of the login form: the last of the two fields that is empty
/// decides; nothing where none is.
pub fn login_error(username: &str, password: &str) -> (r: String)
    ensures
        r@ == (if password@.len() == 0 {
            "пароль обязателен"@
        } else if username@.len() == 0 {
            "Имя пользователя обязательно"@
        } else {
            ""@
        }),
{
    let mut error = "".to_owned();
    if username.is_empty() {
        error = "Имя пользователя обязательно".to_owned();
    }
    if password.is_empty() {
        error = "пароль обязателен".to_owned();
    }
    error
}

/// What the form of a post says of its fields: a post needs a title, and
/// then a content.
pub fn post_error(title: &str, content: &str) -> (r: Option<String>)
    ensures
        match r {
            Some(message) => message@ == (if title@.len() == 0 {
                "Название обязательно"@
            } else {
                "Содержание обязательно"@
            }) && (title@.len() == 0 || content@.len() == 0),
            None => title@.len() > 0 && content@.len() > 0,
        },
{
    if title.is_empty() {
        return Some("Название обязательно".to_owned());
    }
    if content.is_empty() {
        return Some("Содержание обязательно".to_owned());
    }
    None
}

/// Whether the front end offers to change `post`: only to its author, as
/// far as the stored session tells. The server decides again by the token.
pub fn can_edit(session: Option<&SaveData>, post: &Post) -> (r: bool)
    ensures
        r == (session matches Some(s) && s.uuid == post.author_id),
{
    match session {
        Some(s) => s.uuid == post.author_id,
        None => false,
    }
}

} // verus!
