//! Editing a message: only the fields that are given are sent, and the edit
//! always applies to the one message.

use vstd::prelude::*;

use crate::error::{check_reply, reports, Operation, ResponseError, ZulipError};
use crate::messages::{message_path, message_path_string};
use crate::request::{builds, optional_field, ApiBase, Method, Request};
use crate::text::{bool_string, bool_text, decimal, decimal_string};

verus! {

/// An edit to a message.
#[derive(Clone, Debug)]
pub struct EditedMessage {
    /// The number of the message to edit.
    pub message_id: u64,
    /// The new topic, to move the message to it.
    pub topic: Option<String>,
    /// Whether to notify the old topic of the move.
    pub send_notification_to_old_thread: Option<bool>,
    /// Whether to notify the new topic of the move.
    pub send_notification_to_new_thread: Option<bool>,
    /// The new content.
    pub content: Option<String>,
    /// The channel to move the message to.
    pub stream_id: Option<u64>,
}

/// Which messages an edit applies to.
#[derive(Clone, Copy, Debug, PartialEq, Eq, Structural)]
pub enum PropagateMode {
    /// The target message and all following messages.
    ChangeLater,
    /// Only the target message.
    ChangeOne,
    /// All messages in the topic.
    ChangeAll,
}

/// The reply to an edit.
#[derive(Clone, Debug)]
pub struct EditedMessageResponse {
    /// The files whose only references the edit removed.
    pub detached_uploads: Vec<DetachedUpload>,
    pub error: Option<ResponseError>,
}

/// A file upload that no message refers to any more.
#[derive(Clone, Debug)]
pub struct DetachedUpload {
    /// The number of the attachment.
    pub id: u64,
    /// The file's name.
    pub name: String,
    /// The file's path among the uploaded files.
    pub path_id: String,
    /// Its size in bytes.
    pub size: u64,
    /// When it was uploaded, in milliseconds since the UNIX epoch.
    pub create_time: u64,
    /// The messages that refer to it.
    pub messages: Vec<BasicMessageRepresentation>,
}

/// The number and the sending time of a message.
#[derive(Clone, Copy, Debug, PartialEq, Eq, Structural)]
pub struct BasicMessageRepresentation {
    /// When the message was sent, in milliseconds since the UNIX epoch.
    pub date_sent: u64,
    /// The message's number.
    pub id: u64,
}

/// The wire name of a propagation mode.
pub open spec fn propagate_mode_text(m: PropagateMode) -> Seq<char> {
    match m {
        PropagateMode::ChangeLater => "change_later"@,
        PropagateMode::ChangeOne => "change_one"@,
        PropagateMode::ChangeAll => "change_all"@,
    }
}

/// The form fields of an edit: each field that is given, and the mode that
/// limits the edit to the one message.
pub open spec fn edit_fields(e: EditedMessage) -> Seq<(Seq<char>, Seq<char>)> {
    optional_field("topic"@, match e.topic {
        Some(t) => Some(t@),
        None => None,
    }) + seq![("propagate_mode"@, propagate_mode_text(PropagateMode::ChangeOne))]
        + optional_field("send_notification_to_old_thread"@, match e.send_notification_to_old_thread {
            Some(b) => Some(bool_text(b)),
            None => None,
        })
        + optional_field("send_notification_to_new_thread"@, match e.send_notification_to_new_thread {
            Some(b) => Some(bool_text(b)),
            None => None,
        })
        + optional_field("content"@, match e.content {
            Some(c) => Some(c@),
            None => None,
        })
        + optional_field("stream_id"@, match e.stream_id {
            Some(n) => Some(decimal(n as nat)),
            None => None,
        })
}

impl PropagateMode {
    /// The wire name of this mode.
    pub fn as_text(&self) -> (r: &'static str)
        ensures
            r@ == propagate_mode_text(*self),
    {
        match self {
            PropagateMode::ChangeLater => "change_later",
            PropagateMode::ChangeOne => "change_one",
            PropagateMode::ChangeAll => "change_all",
        }
    }
}

impl EditedMessage {
    /// The form fields this edit is sent with.
    pub fn make_parameters(&self) -> (r: Vec<(String, String)>)
        ensures
            r.deep_view() == edit_fields(*self),
    {
        let mut p: Vec<(String, String)> = Vec::new();
        if let Some(topic) = &self.topic {
            p.push((String::from_str("topic"), topic.clone()));
        }
        let ghost s1 = p.deep_view();
        p.push((String::from_str("propagate_mode"), String::from_str(PropagateMode::ChangeOne.as_text())));
        let ghost s2 = p.deep_view();
        if let Some(b) = self.send_notification_to_old_thread {
            p.push((String::from_str("send_notification_to_old_thread"), bool_string(b)));
        }
        let ghost s3 = p.deep_view();
        if let Some(b) = self.send_notification_to_new_thread {
            p.push((String::from_str("send_notification_to_new_thread"), bool_string(b)));
        }
        let ghost s4 = p.deep_view();
        if let Some(content) = &self.content {
            p.push((String::from_str("content"), content.clone()));
        }
        let ghost s5 = p.deep_view();
        if let Some(n) = self.stream_id {
            p.push((String::from_str("stream_id"), decimal_string(n)));
        }
        proof {
            let e = *self;
            assert(s1 =~= optional_field("topic"@, match e.topic {
                Some(t) => Some(t@),
                None => None,
            }));
            assert(s2 =~= s1 + seq![("propagate_mode"@, propagate_mode_text(PropagateMode::ChangeOne))]);
            assert(s3 =~= s2 + optional_field("send_notification_to_old_thread"@, match e.send_notification_to_old_thread {
                Some(b) => Some(bool_text(b)),
                None => None,
            }));
            assert(s4 =~= s3 + optional_field("send_notification_to_new_thread"@, match e.send_notification_to_new_thread {
                Some(b) => Some(bool_text(b)),
                None => None,
            }));
            assert(s5 =~= s4 + optional_field("content"@, match e.content {
                Some(c) => Some(c@),
                None => None,
            }));
            assert(p.deep_view() =~= s5 + optional_field("stream_id"@, match e.stream_id {
                Some(n) => Some(decimal(n as nat)),
                None => None,
            }));
        }
        p
    }
}

/// What a reply to an edit of `id` comes to: the reply where it embeds no
/// error, and otherwise an edit failure that carries the number.
pub open spec fn edit_outcome(id: u64, resp: EditedMessageResponse, r: Result<EditedMessageResponse, ZulipError>) -> bool {
    match resp.error {
        None => r matches Ok(x) && x == resp,
        Some(e) => r matches Err(ZulipError::MessageError(m)) && reports(Operation::EditMessage { id }, e.text(), m),
    }
}

impl ApiBase {
    /// The request that makes `edit`: a `PATCH` of the message with the
    /// edit's fields.
    pub fn edit_message_request(&self, edit: &EditedMessage) -> (r: Result<Request, ZulipError>)
        ensures
            builds(self@, message_path(edit.message_id), Method::Patch, edit_fields(*edit), true, r),
    {
        let path = message_path_string(edit.message_id);
        self.request(path.as_str(), Method::Patch, edit.make_parameters(), true)
    }
}

/// Decides the reply to editing message `id`.
pub fn finish_edit_message(id: u64, resp: EditedMessageResponse) -> (r: Result<EditedMessageResponse, ZulipError>)
    ensures
        edit_outcome(id, resp, r),
{
    match check_reply(Operation::EditMessage { id }, &resp.error) {
        Ok(()) => Ok(resp),
        Err(e) => Err(e),
    }
}

} // verus!
