//! The token store of the command line client: a file that holds the text
//! of the most recent token. No file means that nobody is logged in.

use vstd::prelude::*;

use crate::blog_client::BlogClient;

verus! {

/// The path of the token file, relative to the working directory.
pub fn get_token_path() -> (r: String)
    ensures
        r@ == ".blog_token"@,
{
    ".blog_token".to_owned()
}

/// Hands the content of the token file, if there is one, to the client.
pub fn restore_token(client: &mut BlogClient, stored: Option<String>)
    ensures
        final(client).backend == old(client).backend,
        final(client).token == (match stored {
            Some(token) => Some(token),
            None => old(client).token,
        }),
{
    match stored {
        Some(token) => client.set_token(token),
        None => {},
    }
}

} // verus!
