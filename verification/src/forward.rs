//! The decision on each chat event, and the request that forwards a record.

use vstd::prelude::*;
use crate::event::{ChatEvent, PrivateMessageView, RgbColor};
use crate::json::EncodeError;
use crate::record::{record_of, record_text, ChatMessage, ChatMessageView};
use crate::watch::{is_watched, watched};

verus! {

/// What is to be done for a message of a watched sender.
#[derive(Clone, Debug, PartialEq, Eq)]
pub struct Forward {
    /// The record to send.
    pub record: ChatMessage,
    /// Colour of the sender's name; `None` where the message came without one.
    pub color: Option<RgbColor>,
}

/// The record that an event calls for: that of a channel text message whose sender is
/// watched, and none for anything else.
pub open spec fn forwarded(
    message: Option<PrivateMessageView>,
    look_for: Seq<Seq<char>>,
) -> Option<ChatMessageView> {
    match message {
        Some(m) => if watched(m.sender_login, look_for) {
            Some(record_of(m))
        } else {
            None
        },
        None => None,
    }
}

impl ChatEvent {
    /// The channel text message that the event carries, if it is one.
    pub open spec fn privmsg(&self) -> Option<PrivateMessageView> {
        match self {
            ChatEvent::Privmsg(m) => Some(m@),
            ChatEvent::Other => None,
        }
    }

    /// Colour of the sender's name, if the event is a channel text message that has one.
    pub open spec fn name_color(&self) -> Option<RgbColor> {
        match self {
            ChatEvent::Privmsg(m) => m.name_color,
            ChatEvent::Other => None,
        }
    }
}

/// Decides on one event. A channel text message whose sender is in `look_for` gives the one
/// record to send, with the sender's colour as it came; any other event gives nothing.
pub fn handle_message(message: ChatEvent, look_for: &Vec<String>) -> (action: Option<Forward>)
    ensures
        match action {
            Some(f) => forwarded(message.privmsg(), look_for.deep_view()) == Some(f.record@)
                && f.color == message.name_color(),
            None => forwarded(message.privmsg(), look_for.deep_view()) is None,
        },
{
    match message {
        ChatEvent::Privmsg(msg) => {
            if is_watched(&msg.sender_login, look_for) {
                let record = ChatMessage::from_privmsg(&msg);
                Some(Forward { record, color: msg.name_color })
            } else {
                None
            }
        },
        ChatEvent::Other => None,
    }
}

/// Nothing is forwarded for an event that is no channel text message, nor for a message whose
/// sender is not in the watch-list.
pub proof fn lemma_unwatched_is_dropped(message: Option<PrivateMessageView>, look_for: Seq<Seq<char>>)
    requires
        message matches Some(m) ==> !watched(m.sender_login, look_for),
    ensures
        forwarded(message, look_for) is None,
{
}

/// A message whose sender is in the watch-list is forwarded as one record, and the record's
/// user is the sender's login.
pub proof fn lemma_watched_is_forwarded(message: PrivateMessageView, look_for: Seq<Seq<char>>)
    requires
        watched(message.sender_login, look_for),
    ensures
        forwarded(Some(message), look_for) == Some(record_of(message)),
        record_of(message).user == message.sender_login,
{
}

/// An HTTP POST, ready to be sent.
#[derive(Clone, Debug, PartialEq, Eq)]
pub struct PostRequest {
    /// Where to send it.
    pub url: String,
    /// Header names and values, in the order in which they are set.
    pub headers: Vec<(String, String)>,
    /// The body.
    pub body: String,
}

/// Mathematical value of a `PostRequest`.
pub struct PostRequestView {
    pub url: Seq<char>,
    pub headers: Seq<(Seq<char>, Seq<char>)>,
    pub body: Seq<char>,
}

impl View for PostRequest {
    type V = PostRequestView;

    open spec fn view(&self) -> PostRequestView {
        PostRequestView { url: self.url@, headers: self.headers.deep_view(), body: self.body@ }
    }
}

/// The request that carries `body` to `url`: the key authorizes it, and the body is
/// announced as JSON.
pub open spec fn request_for(body: Seq<char>, url: Seq<char>, api_key: Seq<char>)
    -> PostRequestView {
    PostRequestView {
        url,
        headers: seq![("authorization"@, api_key), ("content-type"@, "application/json"@)],
        body,
    }
}

/// Builds the request for a body that is already written.
pub fn request_with_body(body: String, url: &str, api_key: &str) -> (request: PostRequest)
    ensures
        request@ == request_for(body@, url@, api_key@),
{
    let mut headers: Vec<(String, String)> = Vec::new();
    headers.push((String::from_str("authorization"), String::from_str(api_key)));
    headers.push((String::from_str("content-type"), String::from_str("application/json")));
    let request = PostRequest { url: String::from_str(url), headers, body };
    assert(request@.headers =~= request_for(body@, url@, api_key@).headers);
    request
}

/// Builds the request that forwards `message`: its body is the record's JSON text. It fails
/// only where the JSON writer gives no text for the record.
pub fn post_request(message: &ChatMessage, url: &str, api_key: &str) -> (request: Result<
    PostRequest,
    EncodeError,
>)
    ensures
        match request {
            Ok(r) => record_text(message@) matches Some(body) && r@ == request_for(
                body,
                url@,
                api_key@,
            ),
            Err(_) => record_text(message@) is None,
        },
{
    match message.to_json() {
        Ok(body) => Ok(request_with_body(body, url, api_key)),
        Err(e) => Err(e),
    }
}

} // verus!
