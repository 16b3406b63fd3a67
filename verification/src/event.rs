//! Chat events as plain values.

use vstd::prelude::*;

verus! {

/// Colour of a sender's name, as the chat network reports it.
#[derive(Clone, Copy, Debug, PartialEq, Eq, Structural)]
pub struct RgbColor {
    pub r: u8,
    pub g: u8,
    pub b: u8,
}

/// A plain text message that somebody wrote in a channel.
#[derive(Clone, Debug, PartialEq, Eq)]
pub struct PrivateMessage {
    /// Login of the channel, without the leading marker.
    pub channel_login: String,
    /// Login handle of the sender.
    pub sender_login: String,
    /// Name of the sender as it is displayed.
    pub sender_name: String,
    /// The text as it was written.
    pub message_text: String,
    /// Time the server assigned to the message, in seconds since the epoch.
    pub server_timestamp: i64,
    /// Colour of the sender's name, where the server gave one.
    pub name_color: Option<RgbColor>,
}

/// Mathematical value of a `PrivateMessage`.
pub struct PrivateMessageView {
    pub channel_login: Seq<char>,
    pub sender_login: Seq<char>,
    pub sender_name: Seq<char>,
    pub message_text: Seq<char>,
    pub server_timestamp: int,
    pub name_color: Option<RgbColor>,
}

impl View for PrivateMessage {
    type V = PrivateMessageView;

    open spec fn view(&self) -> PrivateMessageView {
        PrivateMessageView {
            channel_login: self.channel_login@,
            sender_login: self.sender_login@,
            sender_name: self.sender_name@,
            message_text: self.message_text@,
            server_timestamp: self.server_timestamp as int,
            name_color: self.name_color,
        }
    }
}

/// What the chat network delivers: a channel text message, or anything else.
#[derive(Clone, Debug, PartialEq, Eq)]
pub enum ChatEvent {
    Privmsg(PrivateMessage),
    Other,
}

} // verus!
