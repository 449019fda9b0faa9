//! Adding and removing emoji reactions: the same fields on the same path,
//! with `POST` to add and `DELETE` to remove.

use vstd::prelude::*;
use vstd::utf8::encode_utf8;

use crate::error::{check_reply, reply_outcome, Operation, ResponseError, ZulipError};
use crate::messages::message_path;
use crate::request::{builds, fields_view, optional_field, ApiBase, Method, Request};
use crate::text::{concatenate, decimal_string};
use crate::wire::{percent_encode, percent_encoded};

verus! {

/// Selects which emoji to react with. Only the name identifies it; the code
/// and the type tell apart emoji that share a name.
#[derive(Clone, Debug, PartialEq, Eq, PartialOrd, Ord)]
pub struct EmojiSelector {
    /// The emoji's human-readable name.
    pub emoji_name: String,
    /// The emoji's code within the namespace of its reaction type.
    pub emoji_code: Option<String>,
    /// The namespace of `emoji_code`.
    pub reaction_type: Option<ReactionType>,
}

/// The namespace of an emoji's code.
#[derive(Clone, Copy, Debug, PartialEq, Eq, PartialOrd, Ord, Structural)]
pub enum ReactionType {
    /// Codes are dash-separated hex Unicode code points.
    UnicodeEmoji,
    /// Codes are the numbers of uploaded custom emoji.
    RealmEmoji,
    /// Codes are the names of the service's own extra emoji.
    ZulipExtraEmoji,
}

/// The reply to adding or removing a reaction.
#[derive(Clone, Debug)]
pub struct EmojiReactionResponse {
    pub error: Option<ResponseError>,
}

/// The wire name of a reaction type.
pub open spec fn reaction_type_text(t: ReactionType) -> Seq<char> {
    match t {
        ReactionType::UnicodeEmoji => "unicode_emoji"@,
        ReactionType::RealmEmoji => "realm_emoji"@,
        ReactionType::ZulipExtraEmoji => "zulip_extra_emoji"@,
    }
}

/// The form fields of a selector: the percent-encoded name, then the code and
/// the type where they are given.
pub open spec fn selector_fields(s: EmojiSelector) -> Seq<(Seq<char>, Seq<char>)> {
    seq![("emoji_name"@, percent_encoded(encode_utf8(s.emoji_name@)))]
        + optional_field("emoji_code"@, match s.emoji_code {
            Some(c) => Some(c@),
            None => None,
        })
        + optional_field("reaction_type"@, match s.reaction_type {
            Some(t) => Some(reaction_type_text(t)),
            None => None,
        })
}

/// The path of the reactions of message `id`: `messages/<id>/reactions`.
pub open spec fn reactions_path(id: u64) -> Seq<char> {
    message_path(id) + "/reactions"@
}

impl ReactionType {
    /// The wire name of this reaction type.
    pub fn as_text(&self) -> (r: &'static str)
        ensures
            r@ == reaction_type_text(*self),
    {
        match self {
            ReactionType::UnicodeEmoji => "unicode_emoji",
            ReactionType::RealmEmoji => "realm_emoji",
            ReactionType::ZulipExtraEmoji => "zulip_extra_emoji",
        }
    }
}

impl EmojiSelector {
    /// A selector by name alone, which is what most clients use.
    pub fn new_from_name(name: &str) -> (r: Self)
        ensures
            r.emoji_name@ == name@,
            r.emoji_code is None,
            r.reaction_type is None,
    {
        EmojiSelector { emoji_name: String::from_str(name), emoji_code: None, reaction_type: None }
    }

    /// The form fields this selector is sent with.
    pub fn make_parameters(&self) -> (r: Vec<(String, String)>)
        ensures
            r.deep_view() == selector_fields(*self),
    {
        let mut parameters: Vec<(String, String)> = Vec::new();
        parameters.push((String::from_str("emoji_name"), percent_encode(self.emoji_name.as_str())));
        let ghost first = parameters.deep_view();
        if let Some(code) = &self.emoji_code {
            parameters.push((String::from_str("emoji_code"), code.clone()));
        }
        let ghost second = parameters.deep_view();
        assert(second =~= first + optional_field("emoji_code"@, match self.emoji_code {
            Some(c) => Some(c@),
            None => None,
        }));
        if let Some(t) = &self.reaction_type {
            parameters.push((String::from_str("reaction_type"), String::from_str(t.as_text())));
        }
        assert(parameters.deep_view() =~= second + optional_field("reaction_type"@, match self.reaction_type {
            Some(t) => Some(reaction_type_text(t)),
            None => None,
        }));
        parameters
    }
}

/// Builds `messages/<id>/reactions`.
fn reactions_path_string(id: u64) -> (r: String)
    ensures
        r@ == reactions_path(id),
{
    let n = decimal_string(id);
    let mut s = concatenate("messages/", n.as_str());
    s.append("/reactions");
    s
}

impl ApiBase {
    /// The request that adds the selected reaction to message `msg_id`.
    pub fn add_emoji_reaction_request(&self, msg_id: u64, selector: &EmojiSelector) -> (r: Result<
        Request,
        ZulipError,
    >)
        ensures
            builds(self@, reactions_path(msg_id), Method::Post, selector_fields(*selector), true, r),
    {
        let path = reactions_path_string(msg_id);
        self.request(path.as_str(), Method::Post, selector.make_parameters(), true)
    }

    /// The request that removes the selected reaction from message `msg_id`.
    pub fn remove_emoji_reaction_request(&self, msg_id: u64, selector: &EmojiSelector) -> (r: Result<
        Request,
        ZulipError,
    >)
        ensures
            builds(self@, reactions_path(msg_id), Method::Delete, selector_fields(*selector), true, r),
    {
        let path = reactions_path_string(msg_id);
        self.request(path.as_str(), Method::Delete, selector.make_parameters(), true)
    }
}

/// Adding and removing a reaction send the same fields to the same address;
/// only the method differs, `POST` to add and `DELETE` to remove.
pub proof fn reactions_differ_only_in_method(
    base: Seq<char>,
    msg_id: u64,
    selector: EmojiSelector,
    add: Result<Request, ZulipError>,
    remove: Result<Request, ZulipError>,
)
    requires
        builds(base, reactions_path(msg_id), Method::Post, selector_fields(selector), true, add),
        builds(base, reactions_path(msg_id), Method::Delete, selector_fields(selector), true, remove),
    ensures
        add is Ok <==> remove is Ok,
        add matches Ok(a) ==> (remove matches Ok(d) && a.url@ == d.url@ && fields_view(a.form)
            == fields_view(d.form) && a.method == Method::Post && d.method == Method::Delete),
{
}

/// Decides the reply to adding a reaction to `msg_id`.
pub fn finish_add_emoji_reaction(msg_id: u64, selector: &EmojiSelector, resp: EmojiReactionResponse) -> (r:
    Result<(), ZulipError>)
    ensures
        reply_outcome(
            Operation::AddEmojiReaction { msg_id, emoji_name: selector.emoji_name },
            resp.error,
            r,
        ),
{
    check_reply(
        Operation::AddEmojiReaction { msg_id, emoji_name: selector.emoji_name.clone() },
        &resp.error,
    )
}

/// Decides the reply to removing a reaction from `msg_id`.
pub fn finish_remove_emoji_reaction(
    msg_id: u64,
    selector: &EmojiSelector,
    resp: EmojiReactionResponse,
) -> (r: Result<(), ZulipError>)
    ensures
        reply_outcome(
            Operation::RemoveEmojiReaction { msg_id, emoji_name: selector.emoji_name },
            resp.error,
            r,
        ),
{
    check_reply(
        Operation::RemoveEmojiReaction { msg_id, emoji_name: selector.emoji_name.clone() },
        &resp.error,
    )
}

} // verus!
