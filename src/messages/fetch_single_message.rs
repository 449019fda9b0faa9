//! Fetching one message, with its content as source or as rendered HTML.

use vstd::prelude::*;

use crate::error::{check_reply, reports, Operation, ResponseError, ZulipError};
use crate::messages::emoji_reaction::ReactionType;
use crate::messages::{message_path, message_path_string};
use crate::request::{builds, ApiBase, Method, Request};
use crate::text::{bool_string, bool_text};

verus! {

/// The reply to a fetch of one message.
#[derive(Clone, Debug)]
pub struct SingleMessageResponse {
    pub error: Option<ResponseError>,
    /// The message.
    pub message: Message,
}

/// A message as the service describes it.
#[derive(Clone, Debug)]
pub struct Message {
    /// The address of the sender's avatar.
    pub avatar_url: Option<String>,
    /// The client that sent the message.
    pub client: String,
    /// The body of the message.
    pub content: String,
    /// `text/html` or `text/x-markdown`, as markdown was applied or not.
    pub content_type: String,
    /// The edits made to the message.
    pub edit_history: Option<Vec<MessageEdit>>,
    /// The message's number.
    pub id: u64,
    /// Whether it is a `/me` status message.
    pub is_me_message: bool,
    /// When it was last edited, in UTC seconds; absent if never.
    pub last_edit_timestamp: Option<u64>,
    /// The reactions to it.
    pub reactions: Option<Vec<Emoji>>,
    /// The number of the set of users that received it.
    pub recipient_id: u64,
    pub sender_email: String,
    pub sender_full_name: String,
    pub sender_id: u64,
    /// The realm of the sender, unique within one server.
    pub sender_realm_str: String,
    /// The channel, for channel messages.
    pub stream_id: Option<u64>,
    /// The topic.
    pub subject: String,
    pub timestamp: u64,
    pub topic_links: Vec<Link>,
    pub typ: MessageType,
    pub flags: Vec<String>,
}

/// Who a message was sent to.
#[derive(Clone, Debug)]
pub enum DisplayRecipient {
    ChannelName(String),
    Users {  },
}

/// One earlier edit of a message.
#[derive(Clone, Debug)]
pub struct MessageEdit {
    pub prev_content: Option<String>,
    pub prev_rendered_content: Option<String>,
    pub prev_stream: Option<u64>,
    pub prev_topic: Option<u64>,
    pub stream: Option<u64>,
    pub timestamp: u64,
    pub topic: Option<String>,
    pub user_id: Option<u64>,
}

/// A reaction on a message.
#[derive(Clone, Debug, PartialEq, Eq, PartialOrd, Ord)]
pub struct Emoji {
    pub emoji_name: String,
    pub emoji_code: Option<String>,
    pub reaction_type: Option<ReactionType>,
    /// The user who reacted.
    pub user_id: u64,
}

/// A link found in a topic.
#[derive(Clone, Debug)]
pub struct Link {
    pub text: String,
    pub url: String,
}

/// The kind of a message.
#[derive(Clone, Copy, Debug, PartialEq, Eq, Structural)]
pub enum MessageType {
    Stream,
    Private,
}

/// The one form field of a fetch.
pub open spec fn fetch_fields(apply_markdown: bool) -> Seq<(Seq<char>, Seq<char>)> {
    seq![("apply_markdown"@, bool_text(apply_markdown))]
}

/// What a reply to fetching `msg_id` comes to: the reply where it embeds no
/// error, and otherwise a fetch failure that carries the number.
pub open spec fn fetch_outcome(msg_id: u64, resp: SingleMessageResponse, r: Result<SingleMessageResponse, ZulipError>) -> bool {
    match resp.error {
        None => r matches Ok(x) && x == resp,
        Some(e) => r matches Err(ZulipError::MessageError(m)) && reports(
            Operation::FetchSingleMessage { msg_id },
            e.text(),
            m,
        ),
    }
}

impl ApiBase {
    /// The request that fetches message `msg_id`, rendered as HTML where
    /// `apply_markdown` holds and as its source otherwise.
    pub fn fetch_single_message_request(&self, msg_id: u64, apply_markdown: bool) -> (r: Result<
        Request,
        ZulipError,
    >)
        ensures
            builds(self@, message_path(msg_id), Method::Get, fetch_fields(apply_markdown), true, r),
    {
        let path = message_path_string(msg_id);
        let mut form: Vec<(String, String)> = Vec::new();
        form.push((String::from_str("apply_markdown"), bool_string(apply_markdown)));
        assert(form.deep_view() =~= fetch_fields(apply_markdown));
        self.request(path.as_str(), Method::Get, form, true)
    }
}

/// Decides the reply to fetching message `msg_id`.
pub fn finish_fetch_single_message(msg_id: u64, resp: SingleMessageResponse) -> (r: Result<
    SingleMessageResponse,
    ZulipError,
>)
    ensures
        fetch_outcome(msg_id, resp, r),
{
    match check_reply(Operation::FetchSingleMessage { msg_id }, &resp.error) {
        Ok(()) => Ok(resp),
        Err(e) => Err(e),
    }
}

} // verus!
