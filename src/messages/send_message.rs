//! Sending a message: the message union, its wire fields, and the reply.

use vstd::prelude::*;

use crate::error::{check_reply, reports, Operation, ResponseError, ZulipError};
use crate::request::{builds, has_field, optional_field, ApiBase, Method, Request};
use crate::text::{decimal, decimal_string};
use crate::wire::{json_number_list, json_of_numbers, json_of_texts, json_text_list};

verus! {

/// The message being sent.
#[derive(Clone, Debug, PartialEq, Eq, PartialOrd, Ord)]
pub enum Message {
    Direct { to: DirectMessageTarget, content: String, queue_id: String, local_id: String },
    Stream { content: String, topic: String, queue_id: String, local_id: String },
    Channel {
        to: ChannelMessageTarget,
        content: String,
        topic: String,
        queue_id: String,
        local_id: String,
    },
}

/// The channel a message will be sent to.
#[derive(Clone, Debug, PartialEq, Eq, PartialOrd, Ord)]
pub enum ChannelMessageTarget {
    Name(String),
    Id(u64),
}

/// The people a direct message will be sent to.
#[derive(Clone, Debug, PartialEq, Eq, PartialOrd, Ord)]
pub enum DirectMessageTarget {
    Ids(Vec<u64>),
    Emails(Vec<String>),
}

/// The reply to a sent message.
#[derive(Clone, Debug)]
pub struct MessageResponse {
    pub id: u64,
    pub automatic_new_visibility_policy: Option<u8>,
    pub error: Option<ResponseError>,
    pub stream: Option<String>,
}

/// The `type` field of a message.
pub open spec fn type_text(m: Message) -> Seq<char> {
    match m {
        Message::Direct { .. } => "direct"@,
        Message::Stream { .. } => "stream"@,
        Message::Channel { .. } => "channel"@,
    }
}

/// The `to` field of a message: a channel's name or number, or a JSON list of
/// user numbers or emails; a stream message has none.
pub open spec fn to_text(m: Message) -> Option<Seq<char>> {
    match m {
        Message::Channel { to, .. } => match to {
            ChannelMessageTarget::Name(s) => Some(s@),
            ChannelMessageTarget::Id(n) => Some(decimal(n as nat)),
        },
        Message::Direct { to, .. } => match to {
            DirectMessageTarget::Ids(v) => Some(json_number_list(v@)),
            DirectMessageTarget::Emails(v) => Some(json_text_list(v.deep_view())),
        },
        Message::Stream { .. } => None,
    }
}

/// The content of a message.
pub open spec fn content_of(m: Message) -> String {
    match m {
        Message::Direct { content, .. } => content,
        Message::Stream { content, .. } => content,
        Message::Channel { content, .. } => content,
    }
}

/// The topic of a message; a direct message has none.
pub open spec fn topic_text(m: Message) -> Option<Seq<char>> {
    match m {
        Message::Direct { .. } => None,
        Message::Stream { topic, .. } => Some(topic@),
        Message::Channel { topic, .. } => Some(topic@),
    }
}

pub open spec fn queue_id_of(m: Message) -> Seq<char> {
    match m {
        Message::Direct { queue_id, .. } => queue_id@,
        Message::Stream { queue_id, .. } => queue_id@,
        Message::Channel { queue_id, .. } => queue_id@,
    }
}

pub open spec fn local_id_of(m: Message) -> Seq<char> {
    match m {
        Message::Direct { local_id, .. } => local_id@,
        Message::Stream { local_id, .. } => local_id@,
        Message::Channel { local_id, .. } => local_id@,
    }
}

/// The form fields of a message: the four that every variant has, then `to`
/// and `topic` where the variant has them.
pub open spec fn message_fields(m: Message) -> Seq<(Seq<char>, Seq<char>)> {
    seq![
        ("local_id"@, local_id_of(m)),
        ("queue_id"@, queue_id_of(m)),
        ("content"@, content_of(m)@),
        ("type"@, type_text(m)),
    ] + optional_field("to"@, to_text(m)) + optional_field("topic"@, topic_text(m))
}

/// Every message is sent with `local_id`, `queue_id`, `content` and `type`;
/// with `to` exactly when it is a direct or channel message, and with `topic`
/// exactly when it is a stream or channel message.
pub proof fn message_fields_follow_variant(m: Message)
    ensures
        has_field(message_fields(m), "local_id"@),
        has_field(message_fields(m), "queue_id"@),
        has_field(message_fields(m), "content"@),
        has_field(message_fields(m), "type"@),
        has_field(message_fields(m), "to"@) <==> (m is Direct || m is Channel),
        has_field(message_fields(m), "topic"@) <==> (m is Stream || m is Channel),
{
    reveal_strlit("local_id");
    reveal_strlit("queue_id");
    reveal_strlit("content");
    reveal_strlit("type");
    reveal_strlit("to");
    reveal_strlit("topic");
    let f = message_fields(m);
    assert(f[0].0 == "local_id"@);
    assert(f[1].0 == "queue_id"@);
    assert(f[2].0 == "content"@);
    assert(f[3].0 == "type"@);
    if m is Direct || m is Channel {
        assert(f[4].0 == "to"@);
    } else {
        assert(f.len() == 5);
        assert forall|i: int| 0 <= i < f.len() implies #[trigger] f[i].0 != "to"@ by {
            assert(f[i].0.len() != 2 || f[i].0[0] != 't' || f[i].0[1] != 'o');
        }
    }
    if m is Stream || m is Channel {
        assert(f[f.len() - 1].0 == "topic"@);
    } else {
        assert(f.len() == 5);
        assert forall|i: int| 0 <= i < f.len() implies #[trigger] f[i].0 != "topic"@ by {
            assert(f[i].0.len() != 5 || f[i].0[1] != 'o');
        }
    }
}

impl Message {
    /// The form fields this message is sent with.
    pub fn make_parameters(&self) -> (r: Vec<(String, String)>)
        ensures
            r.deep_view() == message_fields(*self),
    {
        let mut parameters: Vec<(String, String)> = Vec::new();
        parameters.push((String::from_str("local_id"), self.local_id()));
        parameters.push((String::from_str("queue_id"), self.queue_id()));
        parameters.push((String::from_str("content"), self.content()));
        parameters.push((String::from_str("type"), String::from_str(self.typ())));
        let ghost fixed = parameters.deep_view();
        if let Some(to) = self.to() {
            parameters.push((String::from_str("to"), to));
        }
        let ghost with_to = parameters.deep_view();
        assert(with_to =~= fixed + optional_field("to"@, to_text(*self)));
        if let Some(topic) = self.topic() {
            parameters.push((String::from_str("topic"), topic));
        }
        assert(parameters.deep_view() =~= with_to + optional_field("topic"@, topic_text(*self)));
        assert(fixed =~= seq![
            ("local_id"@, local_id_of(*self)),
            ("queue_id"@, queue_id_of(*self)),
            ("content"@, content_of(*self)@),
            ("type"@, type_text(*self)),
        ]);
        parameters
    }

    pub fn typ(&self) -> (r: &'static str)
        ensures
            r@ == type_text(*self),
    {
        match self {
            Message::Direct { .. } => "direct",
            Message::Stream { .. } => "stream",
            Message::Channel { .. } => "channel",
        }
    }

    pub fn to(&self) -> (r: Option<String>)
        ensures
            r is Some <==> to_text(*self) is Some,
            r is Some ==> r.unwrap()@ == to_text(*self).unwrap(),
    {
        match self {
            Message::Channel { to, .. } => match to {
                ChannelMessageTarget::Name(s) => Some(s.clone()),
                ChannelMessageTarget::Id(n) => Some(decimal_string(*n)),
            },
            Message::Direct { to, .. } => match to {
                DirectMessageTarget::Ids(v) => json_of_numbers(v),
                DirectMessageTarget::Emails(v) => json_of_texts(v),
            },
            Message::Stream { .. } => None,
        }
    }

    pub fn content(&self) -> (r: String)
        ensures
            r == content_of(*self),
    {
        match self {
            Message::Direct { content, .. } => content.clone(),
            Message::Stream { content, .. } => content.clone(),
            Message::Channel { content, .. } => content.clone(),
        }
    }

    pub fn topic(&self) -> (r: Option<String>)
        ensures
            r is Some <==> topic_text(*self) is Some,
            r is Some ==> r.unwrap()@ == topic_text(*self).unwrap(),
    {
        match self {
            Message::Direct { .. } => None,
            Message::Stream { topic, .. } => Some(topic.clone()),
            Message::Channel { topic, .. } => Some(topic.clone()),
        }
    }

    pub fn queue_id(&self) -> (r: String)
        ensures
            r@ == queue_id_of(*self),
    {
        match self {
            Message::Direct { queue_id, .. } => queue_id.clone(),
            Message::Stream { queue_id, .. } => queue_id.clone(),
            Message::Channel { queue_id, .. } => queue_id.clone(),
        }
    }

    pub fn local_id(&self) -> (r: String)
        ensures
            r@ == local_id_of(*self),
    {
        match self {
            Message::Direct { local_id, .. } => local_id.clone(),
            Message::Stream { local_id, .. } => local_id.clone(),
            Message::Channel { local_id, .. } => local_id.clone(),
        }
    }
}

/// What a reply to sending `msg` comes to: the reply itself where it embeds
/// no error, and otherwise a send failure that carries the content.
pub open spec fn send_outcome(msg: Message, resp: MessageResponse, r: Result<MessageResponse, ZulipError>) -> bool {
    match resp.error {
        None => r matches Ok(x) && x == resp,
        Some(e) => r matches Err(ZulipError::MessageError(m)) && reports(
            Operation::SendMessage { content: content_of(msg) },
            e.text(),
            m,
        ),
    }
}

impl ApiBase {
    /// The request that sends `msg`: a `POST` to `messages` with the message's
    /// fields.
    pub fn send_message_request(&self, msg: &Message) -> (r: Result<Request, ZulipError>)
        ensures
            builds(self@, "messages"@, Method::Post, message_fields(*msg), true, r),
    {
        self.request("messages", Method::Post, msg.make_parameters(), true)
    }
}

/// Decides the reply to sending `msg`.
pub fn finish_send_message(msg: &Message, resp: MessageResponse) -> (r: Result<MessageResponse, ZulipError>)
    ensures
        send_outcome(*msg, resp, r),
{
    match check_reply(Operation::SendMessage { content: msg.content() }, &resp.error) {
        Ok(()) => Ok(resp),
        Err(e) => Err(e),
    }
}

} // verus!
