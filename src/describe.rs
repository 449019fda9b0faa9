//! Human-readable descriptions of the file and messaging errors.

use vstd::prelude::*;

use crate::error::{FileError, MessageError};
use crate::text::{decimal, decimal_string};

verus! {

/// `<text> (path: `<path>`)`-style text: `before`, the path in backquotes,
/// then `)`.
pub open spec fn with_path(before: Seq<char>, path: Seq<char>) -> Seq<char> {
    before + "(path: `"@ + path + "`)"@
}

/// The description of a file error.
pub open spec fn file_error_text(e: FileError) -> Seq<char> {
    match e {
        FileError::FileNotFound(p) => with_path("The given file was not found on disk. "@, p@),
        FileError::FileTooLarge { max, given } => "The file you attempted to upload was too large. (max: "@
            + decimal(max as nat) + " bytes, given: "@ + decimal(given as nat) + " bytes.)"@,
        FileError::DownloadFailTempFile =>
            "Failed to create temporary file for download! Permissions might be messed up..."@,
        FileError::FileNameNotFound(p) => with_path(
            "Unable to determine file name for the given path. "@,
            p@,
        ),
        FileError::AttachSerializeFailed(p) => with_path("Failed to attach file to request. "@, p@),
    }
}

/// The description of a messaging error; each names the call and ends with
/// the service's error text.
pub open spec fn message_error_text(e: MessageError) -> Seq<char> {
    match e {
        MessageError::SendFailed { content, error } => "Failed to send the given message. content: `"@
            + content@ + "`. "@ + error@,
        MessageError::EditFailed { id, error } => "Failed to edit the message with ID `"@ + decimal(
            id as nat,
        ) + "`. "@ + error@,
        MessageError::DeletionFailed { id, error } => "Failed to delete the message with ID `"@
            + decimal(id as nat) + "`. "@ + error@,
        MessageError::AddEmojiFailed { msg_id, emoji_name, error } =>
            "Couldn't add an emoji reaction to message `"@ + decimal(msg_id as nat)
            + "` with emoji name `"@ + emoji_name@ + "`. "@ + error@,
        MessageError::RemoveEmojiFailed { msg_id, emoji_name, error } =>
            "Couldn't remove an emoji reaction to message `"@ + decimal(msg_id as nat)
            + "` with emoji name `"@ + emoji_name@ + "`. "@ + error@,
        MessageError::FileUploadFailed { path, error } => "Failed to upload the given file. (path: "@
            + path@ + ", "@ + error@ + ")"@,
        MessageError::SingleMessageFetchFailed { msg_id, error } =>
            "Failed to fetch the message with ID `"@ + decimal(msg_id as nat) + "`. "@ + error@,
        MessageError::RenderMessageFailed { content, error } =>
            "The server failed to render the following message: `"@ + content@ + "`. "@ + error@,
        MessageError::ServerSettingsFetchFailed { error } => "Failed to fetch the server settings. "@
            + error@,
        MessageError::LinkifiersFetchFailed { error } => "Failed to fetch the linkifiers. "@ + error@,
    }
}

fn path_text(before: &str, path: &String) -> (r: String)
    ensures
        r@ == with_path(before@, path@),
{
    let mut s = String::from_str(before);
    s.append("(path: `");
    s.append(path.as_str());
    s.append("`)");
    s
}

/// `<before><n><after><error>`.
fn numbered(before: &str, n: u64, after: &str, error: &String) -> (r: String)
    ensures
        r@ == before@ + decimal(n as nat) + after@ + error@,
{
    let mut s = String::from_str(before);
    s.append(decimal_string(n).as_str());
    s.append(after);
    s.append(error.as_str());
    s
}

/// `<before><text><after><error>`.
fn quoted(before: &str, text: &String, after: &str, error: &String) -> (r: String)
    ensures
        r@ == before@ + text@ + after@ + error@,
{
    let mut s = String::from_str(before);
    s.append(text.as_str());
    s.append(after);
    s.append(error.as_str());
    s
}

/// The reaction failures: `<before><id>` with emoji name `<name>`. <error>`.
fn reaction_text(before: &str, msg_id: u64, emoji_name: &String, error: &String) -> (r: String)
    ensures
        r@ == before@ + decimal(msg_id as nat) + "` with emoji name `"@ + emoji_name@ + "`. "@
            + error@,
{
    let mut s = String::from_str(before);
    s.append(decimal_string(msg_id).as_str());
    s.append("` with emoji name `");
    s.append(emoji_name.as_str());
    s.append("`. ");
    s.append(error.as_str());
    s
}

impl FileError {
    /// A sentence that describes this error.
    pub fn describe(&self) -> (r: String)
        ensures
            r@ == file_error_text(*self),
    {
        match self {
            FileError::FileNotFound(p) => path_text("The given file was not found on disk. ", p),
            FileError::FileTooLarge { max, given } => {
                let mut s = String::from_str("The file you attempted to upload was too large. (max: ");
                s.append(decimal_string(*max).as_str());
                s.append(" bytes, given: ");
                s.append(decimal_string(*given).as_str());
                s.append(" bytes.)");
                s
            },
            FileError::DownloadFailTempFile => String::from_str(
                "Failed to create temporary file for download! Permissions might be messed up...",
            ),
            FileError::FileNameNotFound(p) => path_text(
                "Unable to determine file name for the given path. ",
                p,
            ),
            FileError::AttachSerializeFailed(p) => path_text("Failed to attach file to request. ", p),
        }
    }
}

impl MessageError {
    /// A sentence that describes this error.
    pub fn describe(&self) -> (r: String)
        ensures
            r@ == message_error_text(*self),
    {
        match self {
            MessageError::SendFailed { content, error } => quoted(
                "Failed to send the given message. content: `",
                content,
                "`. ",
                error,
            ),
            MessageError::EditFailed { id, error } => numbered(
                "Failed to edit the message with ID `",
                *id,
                "`. ",
                error,
            ),
            MessageError::DeletionFailed { id, error } => numbered(
                "Failed to delete the message with ID `",
                *id,
                "`. ",
                error,
            ),
            MessageError::AddEmojiFailed { msg_id, emoji_name, error } => reaction_text(
                "Couldn't add an emoji reaction to message `",
                *msg_id,
                emoji_name,
                error,
            ),
            MessageError::RemoveEmojiFailed { msg_id, emoji_name, error } => reaction_text(
                "Couldn't remove an emoji reaction to message `",
                *msg_id,
                emoji_name,
                error,
            ),
            MessageError::FileUploadFailed { path, error } => {
                let mut s = quoted("Failed to upload the given file. (path: ", path, ", ", error);
                s.append(")");
                s
            },
            MessageError::SingleMessageFetchFailed { msg_id, error } => numbered(
                "Failed to fetch the message with ID `",
                *msg_id,
                "`. ",
                error,
            ),
            MessageError::RenderMessageFailed { content, error } => quoted(
                "The server failed to render the following message: `",
                content,
                "`. ",
                error,
            ),
            MessageError::ServerSettingsFetchFailed { error } => {
                let mut s = String::from_str("Failed to fetch the server settings. ");
                s.append(error.as_str());
                s
            },
            MessageError::LinkifiersFetchFailed { error } => {
                let mut s = String::from_str("Failed to fetch the linkifiers. ");
                s.append(error.as_str());
                s
            },
        }
    }
}

} // verus!
