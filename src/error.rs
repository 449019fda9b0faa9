//! The error taxonomy, and the check that every reply goes through: an error
//! object embedded in a successful HTTP reply means the call failed.

use vstd::prelude::*;

use crate::text::concatenate;

verus! {

/// An error object that the service may embed in any reply, next to the
/// reply's own fields.
#[derive(Clone, Debug)]
pub struct ResponseError {
    code: String,
    msg: String,
    ignored_parameters_unsupported: Option<Vec<String>>,
}

/// The names of an optional list of names.
pub open spec fn names_view(names: Option<Vec<String>>) -> Option<Seq<Seq<char>>> {
    match names {
        Some(v) => Some(v.deep_view()),
        None => None,
    }
}

/// `err(<code>): <msg>`, the text that failures carry.
pub open spec fn error_text(code: Seq<char>, msg: Seq<char>) -> Seq<char> {
    "err("@ + code + "): "@ + msg
}

/// The names in `names`, separated by `, `.
pub open spec fn name_list(names: Seq<Seq<char>>) -> Seq<char>
    decreases names.len(),
{
    if names.len() == 0 {
        Seq::empty()
    } else if names.len() == 1 {
        names[0]
    } else {
        name_list(names.drop_last()) + ", "@ + names.last()
    }
}

/// The warning given where the service ignored some of the parameters.
pub open spec fn ignored_warning_text(names: Seq<Seq<char>>) -> Seq<char> {
    "some given parameters were ignored! these are: "@ + name_list(names)
}

/// Joins `names` with `, `.
pub fn join_names(names: &Vec<String>) -> (r: String)
    ensures
        r@ == name_list(names.deep_view()),
{
    let mut out = String::new();
    let mut i: usize = 0;
    while i < names.len()
        invariant
            i <= names.len(),
            out@ == name_list(names.deep_view().take(i as int)),
        decreases names.len() - i,
    {
        proof {
            let dv = names.deep_view();
            assert(dv.take(i + 1).drop_last() =~= dv.take(i as int));
            assert(dv.take(i + 1).last() == names[i as int]@);
        }
        if i > 0 {
            out.append(", ");
        }
        out.append(names[i].as_str());
        i = i + 1;
    }
    assert(names.deep_view().take(names.len() as int) =~= names.deep_view());
    out
}

/// The warning to raise for the parameters that the service ignored, if it
/// names any.
pub fn ignored_parameters_warning(ignored: &Option<Vec<String>>) -> (r: Option<String>)
    ensures
        ignored is None <==> r is None,
        ignored matches Some(v) ==> r.unwrap()@ == ignored_warning_text(v.deep_view()),
{
    match ignored {
        Some(v) => {
            let names = join_names(v);
            Some(concatenate("some given parameters were ignored! these are: ", names.as_str()))
        },
        None => None,
    }
}

impl ResponseError {
    pub fn new(code: String, msg: String, ignored_parameters_unsupported: Option<Vec<String>>) -> (r: Self)
        ensures
            r.code() == code@,
            r.msg() == msg@,
            r.ignored() == names_view(ignored_parameters_unsupported),
    {
        ResponseError { code, msg, ignored_parameters_unsupported }
    }

    pub closed spec fn code(&self) -> Seq<char> {
        self.code@
    }

    pub closed spec fn msg(&self) -> Seq<char> {
        self.msg@
    }

    pub closed spec fn ignored(&self) -> Option<Seq<Seq<char>>> {
        names_view(self.ignored_parameters_unsupported)
    }

    /// The text of this error: `err(<code>): <msg>`.
    pub open spec fn text(&self) -> Seq<char> {
        error_text(self.code(), self.msg())
    }

    /// The error code the service gave.
    pub fn error_code(&self) -> (r: String)
        ensures
            r@ == self.code(),
    {
        self.code.clone()
    }

    /// The message the service gave.
    pub fn message(&self) -> (r: String)
        ensures
            r@ == self.msg(),
    {
        self.msg.clone()
    }

    /// Renders this error as `err(<code>): <msg>`.
    pub fn to_text(&self) -> (r: String)
        ensures
            r@ == self.text(),
    {
        let mut s = concatenate("err(", self.code.as_str());
        s.append("): ");
        s.append(self.msg.as_str());
        s
    }

    /// The warning to raise if the service ignored some of the parameters.
    pub fn warn_ignored(&self) -> (r: Option<String>)
        ensures
            self.ignored() is None <==> r is None,
            self.ignored() matches Some(v) ==> r.unwrap()@ == ignored_warning_text(v),
    {
        ignored_parameters_warning(&self.ignored_parameters_unsupported)
    }
}

/// The error object embedded in a reply, from the reply's `code`, `msg` and
/// `ignored_parameters_unsupported` fields: there is one exactly where both
/// `code` and `msg` are present.
pub fn response_error_from_fields(code: Option<String>, msg: Option<String>, ignored: Option<Vec<String>>) -> (r:
    Option<ResponseError>)
    ensures
        (code is Some && msg is Some) <==> r is Some,
        r is Some ==> r.unwrap().code() == code.unwrap()@ && r.unwrap().msg() == msg.unwrap()@
            && r.unwrap().ignored() == names_view(ignored),
{
    match (code, msg) {
        (Some(c), Some(m)) => Some(ResponseError::new(c, m, ignored)),
        _ => None,
    }
}

/// The main error type for this crate.
#[derive(Debug)]
pub enum ZulipError {
    /// The transport failed.
    ReqwestError(reqwest::Error),
    /// A reply did not decode.
    SerdeJsonError(serde_json::Error),
    /// A file could not be read, named or written.
    FileError(FileError),
    /// An address did not parse or join.
    UrlParseError(url::ParseError),
    /// The service reported that the operation failed.
    MessageError(MessageError),
}

/// Errors from file upload and download.
#[derive(Clone, Debug)]
pub enum FileError {
    FileNotFound(String),
    FileTooLarge { max: u64, given: u64 },
    DownloadFailTempFile,
    FileNameNotFound(String),
    AttachSerializeFailed(String),
}

/// Errors when performing messaging tasks, each with what identifies the
/// failed call and the service's error text.
#[derive(Clone, Debug)]
pub enum MessageError {
    SendFailed { content: String, error: String },
    EditFailed { id: u64, error: String },
    DeletionFailed { id: u64, error: String },
    AddEmojiFailed { msg_id: u64, emoji_name: String, error: String },
    RemoveEmojiFailed { msg_id: u64, emoji_name: String, error: String },
    FileUploadFailed { path: String, error: String },
    SingleMessageFetchFailed { msg_id: u64, error: String },
    RenderMessageFailed { content: String, error: String },
    ServerSettingsFetchFailed { error: String },
    LinkifiersFetchFailed { error: String },
}

/// The endpoint operation that a reply answers, with what identifies the call.
#[derive(Clone, Debug)]
pub enum Operation {
    SendMessage { content: String },
    EditMessage { id: u64 },
    DeleteMessage { id: u64 },
    AddEmojiReaction { msg_id: u64, emoji_name: String },
    RemoveEmojiReaction { msg_id: u64, emoji_name: String },
    UploadFile { path: String },
    FetchSingleMessage { msg_id: u64 },
    RenderMessage { content: String },
    ServerSettings,
    Linkifiers,
}

/// `e` is the failure of `op` with the error text `error`.
pub open spec fn reports(op: Operation, error: Seq<char>, e: MessageError) -> bool {
    match op {
        Operation::SendMessage { content } => e matches MessageError::SendFailed { content: c, error: t }
            && c@ == content@ && t@ == error,
        Operation::EditMessage { id } => e matches MessageError::EditFailed { id: i, error: t } && i
            == id && t@ == error,
        Operation::DeleteMessage { id } => e matches MessageError::DeletionFailed { id: i, error: t }
            && i == id && t@ == error,
        Operation::AddEmojiReaction { msg_id, emoji_name } => e matches MessageError::AddEmojiFailed {
            msg_id: i,
            emoji_name: n,
            error: t,
        } && i == msg_id && n@ == emoji_name@ && t@ == error,
        Operation::RemoveEmojiReaction { msg_id, emoji_name } =>
            e matches MessageError::RemoveEmojiFailed { msg_id: i, emoji_name: n, error: t } && i
            == msg_id && n@ == emoji_name@ && t@ == error,
        Operation::UploadFile { path } => e matches MessageError::FileUploadFailed { path: p, error: t }
            && p@ == path@ && t@ == error,
        Operation::FetchSingleMessage { msg_id } =>
            e matches MessageError::SingleMessageFetchFailed { msg_id: i, error: t } && i == msg_id
            && t@ == error,
        Operation::RenderMessage { content } =>
            e matches MessageError::RenderMessageFailed { content: c, error: t } && c@ == content@
            && t@ == error,
        Operation::ServerSettings => e matches MessageError::ServerSettingsFetchFailed { error: t }
            && t@ == error,
        Operation::Linkifiers => e matches MessageError::LinkifiersFetchFailed { error: t } && t@
            == error,
    }
}

/// What a reply to `op` that carries `error` comes to: success where no error
/// object is embedded, and otherwise the failure of `op` with the error's text.
pub open spec fn reply_outcome(op: Operation, error: Option<ResponseError>, r: Result<(), ZulipError>) -> bool {
    match error {
        None => r is Ok,
        Some(e) => r matches Err(ZulipError::MessageError(m)) && reports(op, e.text(), m),
    }
}

/// The failure of `op` with the error text `error`.
pub fn failure(op: Operation, error: String) -> (r: MessageError)
    ensures
        reports(op, error@, r),
{
    match op {
        Operation::SendMessage { content } => MessageError::SendFailed { content, error },
        Operation::EditMessage { id } => MessageError::EditFailed { id, error },
        Operation::DeleteMessage { id } => MessageError::DeletionFailed { id, error },
        Operation::AddEmojiReaction { msg_id, emoji_name } => MessageError::AddEmojiFailed {
            msg_id,
            emoji_name,
            error,
        },
        Operation::RemoveEmojiReaction { msg_id, emoji_name } => MessageError::RemoveEmojiFailed {
            msg_id,
            emoji_name,
            error,
        },
        Operation::UploadFile { path } => MessageError::FileUploadFailed { path, error },
        Operation::FetchSingleMessage { msg_id } => MessageError::SingleMessageFetchFailed {
            msg_id,
            error,
        },
        Operation::RenderMessage { content } => MessageError::RenderMessageFailed { content, error },
        Operation::ServerSettings => MessageError::ServerSettingsFetchFailed { error },
        Operation::Linkifiers => MessageError::LinkifiersFetchFailed { error },
    }
}

/// Inspects the error object of a reply to `op`: the call succeeded exactly
/// where the reply embeds none.
pub fn check_reply(op: Operation, error: &Option<ResponseError>) -> (r: Result<(), ZulipError>)
    ensures
        reply_outcome(op, *error, r),
{
    match error {
        None => Ok(()),
        Some(e) => Err(ZulipError::MessageError(failure(op, e.to_text()))),
    }
}

} // verus!
