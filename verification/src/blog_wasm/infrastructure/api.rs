//! The requests of the front end and what their responses mean. A failure
//! is a text to show.

use vstd::prelude::*;

use crate::blog_client::http_client::{is_success, status_is_success};
use crate::blog_wasm::dto::{AuthResponse, ErrorResponse, Post, PostPage, PostResponse};
use crate::text::{decimal_int, format_i64, join2};

verus! {

/// The address of the server.
pub open spec fn api_path() -> Seq<char> {
    "http://127.0.0.1:8081"@
}

/// A body as the front end tried to read it: the message, or the reason
/// why the text is not one.
pub type Parsed<T> = Result<T, String>;

/// The status of a response and its text, such as `404 Not Found`.
#[derive(Debug)]
pub struct Status {
    pub code: u16,
    pub text: String,
}

/// The address of a listing of `limit` posts after `offset`.
pub fn list_posts_path(limit: i32, offset: i32) -> (r: String)
    ensures
        r@ == api_path() + "/api/posts?limit="@ + decimal_int(limit as int) + "&offset="@
            + decimal_int(offset as int),
{
    let limit_text = format_i64(limit as i64);
    let offset_text = format_i64(offset as i64);
    let a = join2("http://127.0.0.1:8081", "/api/posts?limit=");
    let b = join2(a.as_str(), limit_text.as_str());
    let c = join2(b.as_str(), "&offset=");
    join2(c.as_str(), offset_text.as_str())
}

/// The address of the post `post_id` for reading.
pub fn post_path(post_id: i64) -> (r: String)
    ensures
        r@ == api_path() + "/api/posts/"@ + decimal_int(post_id as int),
{
    let id = format_i64(post_id);
    let a = join2("http://127.0.0.1:8081", "/api/posts/");
    join2(a.as_str(), id.as_str())
}

/// The address of the post `post_id` for update and deletion.
pub fn protected_post_path(post_id: i64) -> (r: String)
    ensures
        r@ == api_path() + "/protect/post/"@ + decimal_int(post_id as int),
{
    let id = format_i64(post_id);
    let a = join2("http://127.0.0.1:8081", "/protect/post/");
    join2(a.as_str(), id.as_str())
}

/// The address for registration.
pub fn register_path() -> (r: String)
    ensures
        r@ == api_path() + "/api/auth/register"@,
{
    join2("http://127.0.0.1:8081", "/api/auth/register")
}

/// The address for login.
pub fn login_path() -> (r: String)
    ensures
        r@ == api_path() + "/api/auth/login"@,
{
    join2("http://127.0.0.1:8081", "/api/auth/login")
}

/// The address for the creation of a post.
pub fn create_post_path() -> (r: String)
    ensures
        r@ == api_path() + "/protect/post"@,
{
    join2("http://127.0.0.1:8081", "/protect/post")
}

/// What the response to a listing means: the page of a success, if the
/// body is one, and else the reason; the text of the status otherwise.
pub fn get_list_posts(status: Status, body: Parsed<PostPage>) -> (r: Result<PostPage, String>)
    ensures
        r == (if is_success(status.code) {
            body
        } else {
            Err::<PostPage, String>(status.text)
        }),
{
    if status_is_success(status.code) {
        return body;
    }
    Err(status.text)
}

/// The post that a response to a request for one post carries: that of a
/// success whose body is an answer with a post.
pub open spec fn post_of(code: u16, body: Parsed<PostResponse>) -> Option<Post> {
    if is_success(code) {
        match body {
            Ok(answer) => answer.post,
            Err(_) => None,
        }
    } else {
        None
    }
}

/// What the response to a request for one post means: the post of a
/// success; `Error parse: ` and the reason where the body is no answer; the
/// text of the status for a success without a post, and otherwise.
pub fn get_post(status: Status, body: Parsed<PostResponse>) -> (r: Result<Post, String>)
    ensures
        match r {
            Ok(post) => post_of(status.code, body) == Some(post),
            Err(text) => post_of(status.code, body) is None && text@ == (if is_success(
                status.code,
            ) {
                match body {
                    Ok(_) => status.text@,
                    Err(reason) => "Error parse: "@ + reason@,
                }
            } else {
                status.text@
            }),
        },
{
    if status_is_success(status.code) {
        match body {
            Ok(answer) => match answer.post {
                Some(post) => {
                    return Ok(post);
                },
                None => {},
            },
            Err(reason) => {
                return Err(join2("Error parse: ", reason.as_str()));
            },
        }
    }
    Err(status.text)
}

/// What the response to a registration or a login means: the token of a
/// success, or `Error parse: ` and the reason where the body is none; for a
/// failure, the resource that the error body names, or `Error parse
/// ErrorResponse: ` and the reason where the body is no error.
pub fn auth_answer(
    status: Status,
    body: Parsed<AuthResponse>,
    error: Parsed<ErrorResponse>,
) -> (r: Result<AuthResponse, String>)
    ensures
        match r {
            Ok(answer) => is_success(status.code) && body == Ok::<AuthResponse, String>(answer),
            Err(text) => if is_success(status.code) {
                body matches Err(reason) && text@ == "Error parse: "@ + reason@
            } else {
                text@ == (match error {
                    Ok(e) => e.details.resource@,
                    Err(reason) => "Error parse ErrorResponse: "@ + reason@,
                })
            },
        },
{
    if !status_is_success(status.code) {
        return match error {
            Ok(e) => Err(e.details.resource),
            Err(reason) => Err(join2("Error parse ErrorResponse: ", reason.as_str())),
        };
    }
    match body {
        Ok(answer) => Ok(answer),
        Err(reason) => Err(join2("Error parse: ", reason.as_str())),
    }
}

/// What the response to a registration means; see `auth_answer`.
pub fn register_user(
    status: Status,
    body: Parsed<AuthResponse>,
    error: Parsed<ErrorResponse>,
) -> (r: Result<AuthResponse, String>)
    ensures
        match r {
            Ok(answer) => is_success(status.code) && body == Ok::<AuthResponse, String>(answer),
            Err(text) => if is_success(status.code) {
                body matches Err(reason) && text@ == "Error parse: "@ + reason@
            } else {
                text@ == (match error {
                    Ok(e) => e.details.resource@,
                    Err(reason) => "Error parse ErrorResponse: "@ + reason@,
                })
            },
        },
{
    auth_answer(status, body, error)
}

/// What the response to a login means; see `auth_answer`.
pub fn login_user(
    status: Status,
    body: Parsed<AuthResponse>,
    error: Parsed<ErrorResponse>,
) -> (r: Result<AuthResponse, String>)
    ensures
        match r {
            Ok(answer) => is_success(status.code) && body == Ok::<AuthResponse, String>(answer),
            Err(text) => if is_success(status.code) {
                body matches Err(reason) && text@ == "Error parse: "@ + reason@
            } else {
                text@ == (match error {
                    Ok(e) => e.details.resource@,
                    Err(reason) => "Error parse ErrorResponse: "@ + reason@,
                })
            },
        },
{
    auth_answer(status, body, error)
}

/// What the response to the creation or the update of a post means: the
/// stored post of a success, or `Error parse: ` and the reason where the
/// body is none; the text of the status otherwise.
pub fn stored_post(status: Status, body: Parsed<Post>) -> (r: Result<Post, String>)
    ensures
        match r {
            Ok(post) => is_success(status.code) && body == Ok::<Post, String>(post),
            Err(text) => text@ == (if is_success(status.code) {
                "Error parse: "@ + body->Err_0@
            } else {
                status.text@
            }) && !(is_success(status.code) && body is Ok),
        },
{
    if status_is_success(status.code) {
        return match body {
            Ok(post) => Ok(post),
            Err(reason) => Err(join2("Error parse: ", reason.as_str())),
        };
    }
    Err(status.text)
}

/// What the response to the creation of a post means; see `stored_post`.
pub fn create_post(status: Status, body: Parsed<Post>) -> (r: Result<Post, String>)
    ensures
        match r {
            Ok(post) => is_success(status.code) && body == Ok::<Post, String>(post),
            Err(text) => text@ == (if is_success(status.code) {
                "Error parse: "@ + body->Err_0@
            } else {
                status.text@
            }) && !(is_success(status.code) && body is Ok),
        },
{
    stored_post(status, body)
}

/// What the response to the update of a post means; see `stored_post`.
pub fn update_post(status: Status, body: Parsed<Post>) -> (r: Result<Post, String>)
    ensures
        match r {
            Ok(post) => is_success(status.code) && body == Ok::<Post, String>(post),
            Err(text) => text@ == (if is_success(status.code) {
                "Error parse: "@ + body->Err_0@
            } else {
                status.text@
            }) && !(is_success(status.code) && body is Ok),
        },
{
    stored_post(status, body)
}

/// What the response to a deletion means: done for a success, the text of
/// the status otherwise.
pub fn delete_post(status: Status) -> (r: Result<(), String>)
    ensures
        match r {
            Ok(_) => is_success(status.code),
            Err(text) => !is_success(status.code) && text == status.text,
        },
{
    if status_is_success(status.code) {
        return Ok(());
    }
    Err(status.text)
}

} // verus!
