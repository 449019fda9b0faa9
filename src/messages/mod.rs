//! One module per API call on messages and their media.

use vstd::prelude::*;

use crate::text::{concatenate, decimal, decimal_string};

pub mod delete_message;
pub mod download_file;
pub mod edit_message;
pub mod emoji_reaction;
pub mod fetch_single_message;
pub mod render_message;
pub mod send_message;
pub mod upload_file;

verus! {

/// The path of the message numbered `id`: `messages/<id>`.
pub open spec fn message_path(id: u64) -> Seq<char> {
    "messages/"@ + decimal(id as nat)
}

/// Builds `messages/<id>`.
pub fn message_path_string(id: u64) -> (r: String)
    ensures
        r@ == message_path(id),
{
    let n = decimal_string(id);
    concatenate("messages/", n.as_str())
}

} // verus!
