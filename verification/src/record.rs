//! The record that is forwarded for a chat message.

use vstd::prelude::*;
use crate::event::{PrivateMessage, PrivateMessageView};
use crate::json::{
    encoded, member_value, new_object, object_members, pretty_text, put_integer, put_text, render_pretty,
    EncodeError, JsonScalar, Members,
};

verus! {

/// A chat message as the endpoint receives it.
#[derive(Clone, Debug, PartialEq, Eq)]
pub struct ChatMessage {
    /// Seconds since the epoch, as the server assigned them.
    pub timestamp: i64,
    /// Channel, with the leading marker.
    pub channel: String,
    /// Login handle of the sender.
    pub user: String,
    /// The text as it was written.
    pub content: String,
    /// Name of the sender as it is displayed.
    pub display_name: String,
}

/// Mathematical value of a `ChatMessage`.
pub struct ChatMessageView {
    pub timestamp: int,
    pub channel: Seq<char>,
    pub user: Seq<char>,
    pub content: Seq<char>,
    pub display_name: Seq<char>,
}

impl View for ChatMessage {
    type V = ChatMessageView;

    open spec fn view(&self) -> ChatMessageView {
        ChatMessageView {
            timestamp: self.timestamp as int,
            channel: self.channel@,
            user: self.user@,
            content: self.content@,
            display_name: self.display_name@,
        }
    }
}

/// Name of a channel: the marker `#`, then the channel's login.
pub open spec fn channel_name_of(channel_login: Seq<char>) -> Seq<char> {
    seq!['#'] + channel_login
}

/// The record of a message: every field is taken from the message as it came.
pub open spec fn record_of(message: PrivateMessageView) -> ChatMessageView {
    ChatMessageView {
        timestamp: message.server_timestamp,
        channel: channel_name_of(message.channel_login),
        user: message.sender_login,
        content: message.message_text,
        display_name: message.sender_name,
    }
}

/// The members of the JSON object that stands for a record, in the order of writing.
pub open spec fn record_members(record: ChatMessageView) -> Members {
    seq![
        ("timestamp"@, JsonScalar::Int(record.timestamp)),
        ("channel"@, JsonScalar::Text(record.channel)),
        ("user"@, JsonScalar::Text(record.user)),
        ("content"@, JsonScalar::Text(record.content)),
        ("display_name"@, JsonScalar::Text(record.display_name)),
    ]
}

/// The record that an object's members stand for: each field is the value of the member
/// named after it, where all five are there and of the field's kind.
pub open spec fn record_from_members(members: Members) -> Option<ChatMessageView> {
    match (
        member_value(members, "timestamp"@),
        member_value(members, "channel"@),
        member_value(members, "user"@),
        member_value(members, "content"@),
        member_value(members, "display_name"@),
    ) {
        (
            Some(JsonScalar::Int(timestamp)),
            Some(JsonScalar::Text(channel)),
            Some(JsonScalar::Text(user)),
            Some(JsonScalar::Text(content)),
            Some(JsonScalar::Text(display_name)),
        ) => Some(ChatMessageView { timestamp, channel, user, content, display_name }),
        _ => None,
    }
}

/// The JSON text of a record, or none where the JSON writer gives none for its members.
pub open spec fn record_text(record: ChatMessageView) -> Option<Seq<char>> {
    pretty_text(record_members(record))
}

/// Puts the marker `#` before a channel's login.
pub fn channel_name(channel_login: &str) -> (name: String)
    ensures
        name@ == channel_name_of(channel_login@),
{
    proof {
        reveal_strlit("#");
    }
    let mut name = String::from_str("#");
    name.append(channel_login);
    assert(name@ =~= channel_name_of(channel_login@));
    name
}

impl ChatMessage {
    /// Builds the record of a message.
    pub fn from_privmsg(message: &PrivateMessage) -> (record: ChatMessage)
        ensures
            record@ == record_of(message@),
    {
        ChatMessage {
            timestamp: message.server_timestamp,
            channel: channel_name(message.channel_login.as_str()),
            user: message.sender_login.clone(),
            content: message.message_text.clone(),
            display_name: message.sender_name.clone(),
        }
    }

    /// Writes the record as pretty-printed JSON: an object of five members, named after the
    /// fields and in their order. The text is what the JSON writer gives for these members,
    /// and there is an error only where the writer gives none for them.
    pub fn to_json(&self) -> (text: Result<String, EncodeError>)
        ensures
            match text {
                Ok(t) => record_text(self@) == Some(t@),
                Err(_) => record_text(self@) is None,
            },
    {
        let mut object = new_object();
        proof {
            lemma_member_names_differ();
        }
        put_integer(&mut object, "timestamp", self.timestamp);
        put_text(&mut object, "channel", self.channel.as_str());
        put_text(&mut object, "user", self.user.as_str());
        put_text(&mut object, "content", self.content.as_str());
        put_text(&mut object, "display_name", self.display_name.as_str());
        assert(object_members(object) =~= record_members(self@));
        encoded(render_pretty(&object))
    }
}

/// The five member names of a record are pairwise different.
pub proof fn lemma_member_names_differ()
    ensures
        "timestamp"@ != "channel"@,
        "timestamp"@ != "user"@,
        "timestamp"@ != "content"@,
        "timestamp"@ != "display_name"@,
        "channel"@ != "user"@,
        "channel"@ != "content"@,
        "channel"@ != "display_name"@,
        "user"@ != "content"@,
        "user"@ != "display_name"@,
        "content"@ != "display_name"@,
{
    reveal_strlit("timestamp");
    reveal_strlit("channel");
    reveal_strlit("user");
    reveal_strlit("content");
    reveal_strlit("display_name");
    assert("timestamp"@.len() == 9);
    assert("channel"@.len() == 7);
    assert("user"@.len() == 4);
    assert("content"@.len() == 7);
    assert("display_name"@.len() == 12);
    assert("channel"@[1] != "content"@[1]);
}

/// The object that is written for a record gives the record back: read by their names, its
/// members hold the field values that the record was made of.
pub proof fn lemma_members_give_record_back(record: ChatMessageView)
    ensures
        record_from_members(record_members(record)) == Some(record),
{
    lemma_member_names_differ();
    let members = record_members(record);
    assert(members[0].0 == "timestamp"@);
    assert(members[1].0 == "channel"@);
    assert(members[2].0 == "user"@);
    assert(members[3].0 == "content"@);
    assert(members[4].0 == "display_name"@);
    assert(member_value(members, "timestamp"@) == Some(members[0].1));
    assert(member_value(members, "channel"@) == Some(members[1].1));
    assert(member_value(members, "user"@) == Some(members[2].1));
    assert(member_value(members, "content"@) == Some(members[3].1));
    assert(member_value(members, "display_name"@) == Some(members[4].1));
}

/// What is written for a message holds the message's own values: the time, the sender's
/// login and name and the text as they came, and the channel's login behind its marker.
pub proof fn lemma_written_members_are_the_message(message: PrivateMessageView)
    ensures
        record_members(record_of(message)) == seq![
            ("timestamp"@, JsonScalar::Int(message.server_timestamp)),
            ("channel"@, JsonScalar::Text(seq!['#'] + message.channel_login)),
            ("user"@, JsonScalar::Text(message.sender_login)),
            ("content"@, JsonScalar::Text(message.message_text)),
            ("display_name"@, JsonScalar::Text(message.sender_name)),
        ],
        record_from_members(record_members(record_of(message))) == Some(record_of(message)),
{
    lemma_members_give_record_back(record_of(message));
}

} // verus!
