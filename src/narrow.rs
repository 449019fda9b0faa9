//! Narrows: filters over messages (by channel, topic, sender, keyword, status
//! and more), each of which may be negated.

use vstd::prelude::*;

verus! {

/// A list of narrows: a query that has not been run yet.
pub type NarrowList = Vec<Narrow>;

/// A filter for messages: a kind of condition, and whether it is negated.
#[derive(Debug)]
pub struct Narrow {
    kind: NarrowKind,
    negation: NarrowNegation,
}

/// Whether a narrow's condition is taken as it is or negated.
#[derive(Clone, Copy, Debug, PartialEq, Eq, PartialOrd, Ord, Structural)]
pub enum NarrowNegation {
    /// The condition as it is; the default.
    Normal,
    /// The opposite of the condition.
    Negated,
}

/// The condition of a narrow.
#[derive(Clone, Debug, PartialEq, Eq, PartialOrd, Ord)]
pub enum NarrowKind {
    /// Messages or topics that contain the keywords.
    Keyword(String),
    /// Messages in a channel.
    Channel(NameOrId),
    /// Messages in one topic of a channel.
    ChannelWithTopic { channel: NameOrId, topic: NameOrId },
    /// Direct messages among exactly these people.
    DirectMessage(OneOrMany<NameOrId>),
    /// Direct messages that include these people.
    DirectMessageIncluding(OneOrMany<NameOrId>),
    /// Messages in channels with an attribute.
    Channels(ChannelAttribute),
    /// Messages by a sender.
    Sender(MessageSender),
    /// Messages with a kind of media.
    Has(MessageMediaKind),
    /// Messages with a status.
    Is(MessageStatusKind),
}

/// An object named either by its name or by its number.
#[derive(Clone, Debug, PartialEq, Eq, PartialOrd, Ord)]
pub enum NameOrId {
    Name(String),
    Id(u64),
}

/// One value, or several.
#[derive(Clone, Debug, PartialEq, Eq, PartialOrd, Ord)]
pub enum OneOrMany<T> {
    One(T),
    Many(Vec<T>),
}

/// An attribute of channels.
#[derive(Clone, Copy, Debug, PartialEq, Eq, PartialOrd, Ord, Structural)]
pub enum ChannelAttribute {
    /// Channels that anyone can access.
    Public,
}

/// The sender of a message: someone else, or the current user.
#[derive(Clone, Debug, PartialEq, Eq, PartialOrd, Ord)]
pub enum MessageSender {
    Other(NameOrId),
    Me,
}

/// Media that a message can hold.
#[derive(Clone, Copy, Debug, PartialEq, Eq, PartialOrd, Ord, Structural)]
pub enum MessageMediaKind {
    /// A URL.
    Link,
    /// An uploaded file.
    Attachment,
    /// An uploaded or linked image or video.
    Image,
    /// A reaction.
    Reaction,
}

/// A status that a message can have.
#[derive(Clone, Copy, Debug, PartialEq, Eq, PartialOrd, Ord, Structural)]
pub enum MessageStatusKind {
    /// It holds one of the user's alert words.
    Alerted,
    /// It mentions the user.
    Mentioned,
    /// The user starred it.
    Starred,
    /// It is in a topic the user follows.
    Followed,
    /// It is in a resolved topic.
    Resolved,
    /// The user has not read it.
    Unread,
}

/// Two lists of names hold the same values.
pub open spec fn same_names(a: OneOrMany<NameOrId>, b: OneOrMany<NameOrId>) -> bool {
    match (a, b) {
        (OneOrMany::One(x), OneOrMany::One(y)) => x == y,
        (OneOrMany::Many(x), OneOrMany::Many(y)) => x@ == y@,
        _ => false,
    }
}

/// Two narrow kinds state the same condition.
pub open spec fn same_kind(a: NarrowKind, b: NarrowKind) -> bool {
    match (a, b) {
        (NarrowKind::DirectMessage(x), NarrowKind::DirectMessage(y)) => same_names(x, y),
        (NarrowKind::DirectMessageIncluding(x), NarrowKind::DirectMessageIncluding(y)) => same_names(x, y),
        _ => a == b,
    }
}

impl NameOrId {
    /// A copy of this name or number.
    pub fn duplicate(&self) -> (r: Self)
        ensures
            r == *self,
    {
        match self {
            NameOrId::Name(s) => NameOrId::Name(s.clone()),
            NameOrId::Id(n) => NameOrId::Id(*n),
        }
    }
}

/// A copy of a list of names.
pub fn duplicate_names(names: &OneOrMany<NameOrId>) -> (r: OneOrMany<NameOrId>)
    ensures
        same_names(r, *names),
{
    match names {
        OneOrMany::One(x) => OneOrMany::One(x.duplicate()),
        OneOrMany::Many(v) => {
            let mut out: Vec<NameOrId> = Vec::new();
            let mut i: usize = 0;
            while i < v.len()
                invariant
                    i <= v.len(),
                    out@ == v@.take(i as int),
                decreases v.len() - i,
            {
                out.push(v[i].duplicate());
                assert(out@ =~= v@.take(i + 1));
                i = i + 1;
            }
            assert(v@.take(v.len() as int) =~= v@);
            OneOrMany::Many(out)
        },
    }
}

impl NarrowKind {
    /// A copy of this condition.
    pub fn duplicate(&self) -> (r: Self)
        ensures
            same_kind(r, *self),
    {
        match self {
            NarrowKind::Keyword(s) => NarrowKind::Keyword(s.clone()),
            NarrowKind::Channel(c) => NarrowKind::Channel(c.duplicate()),
            NarrowKind::ChannelWithTopic { channel, topic } => NarrowKind::ChannelWithTopic {
                channel: channel.duplicate(),
                topic: topic.duplicate(),
            },
            NarrowKind::DirectMessage(n) => NarrowKind::DirectMessage(duplicate_names(n)),
            NarrowKind::DirectMessageIncluding(n) => NarrowKind::DirectMessageIncluding(duplicate_names(n)),
            NarrowKind::Channels(a) => NarrowKind::Channels(*a),
            NarrowKind::Sender(s) => NarrowKind::Sender(
                match s {
                    MessageSender::Other(o) => MessageSender::Other(o.duplicate()),
                    MessageSender::Me => MessageSender::Me,
                },
            ),
            NarrowKind::Has(m) => NarrowKind::Has(*m),
            NarrowKind::Is(m) => NarrowKind::Is(*m),
        }
    }
}

impl Narrow {
    /// The condition of this narrow.
    pub closed spec fn condition(&self) -> NarrowKind {
        self.kind
    }

    /// Whether this narrow is negated.
    pub closed spec fn negated(&self) -> NarrowNegation {
        self.negation
    }

    /// A narrow on `kind`, negated where `negation` says so.
    pub fn new(kind: NarrowKind, negation: NarrowNegation) -> (r: Self)
        ensures
            r.condition() == kind,
            r.negated() == negation,
    {
        Narrow { kind, negation }
    }

    /// The condition of this narrow.
    pub fn kind(&self) -> (r: NarrowKind)
        ensures
            same_kind(r, self.condition()),
    {
        self.kind.duplicate()
    }

    /// Whether this narrow is negated.
    pub fn negation(&self) -> (r: NarrowNegation)
        ensures
            r == self.negated(),
    {
        self.negation
    }
}

} // verus!
