//! What a bot command answers, and how an answer becomes a channel message.

use vstd::prelude::*;
use crate::text::cat;

verus! {

/// How a message's text is rendered.
#[derive(PartialEq, Eq, Structural, Clone, Copy, Debug)]
pub enum MessageFormat {
    Plain,
    Markdown,
    Html,
}

/// A message to send through a channel adapter.
pub struct ChannelMessage {
    pub text: String,
    pub format: MessageFormat,
}

impl ChannelMessage {
    /// A plain-text message.
    pub fn text(text: String) -> (m: Self)
        ensures
            m.text == text,
            m.format == MessageFormat::Plain,
    {
        ChannelMessage { text, format: MessageFormat::Plain }
    }

    /// A Markdown message.
    pub fn markdown(text: String) -> (m: Self)
        ensures
            m.text == text,
            m.format == MessageFormat::Markdown,
    {
        ChannelMessage { text, format: MessageFormat::Markdown }
    }
}

/// The response a bot command produces.
///
/// The runtime sends the appropriate message(s) back through the channel adapter.
pub enum BotResponse {
    /// A plain text reply to the originating room.
    Text(String),
    /// A formatted message to a specific room (or the originating room if `None`).
    Message { room: Option<String>, text: String, format: MessageFormat },
    /// An interactive menu sent to a specific room.
    Menu { room: Option<String>, text: String, buttons: Vec<String> },
    /// A direct message to a specific user.
    Dm { user: String, text: String },
    /// Multiple responses sent in sequence.
    Many(Vec<BotResponse>),
    /// An error reply to the originating room (shown prefixed with "Error:").
    Error(String),
    /// No reply (command handled silently).
    Silent,
}

/// Whether `r` is a text reply whose text is `t`.
pub open spec fn is_text(r: BotResponse, t: Seq<char>) -> bool {
    r matches BotResponse::Text(s) && s@ == t
}

/// Whether `r` is an error reply whose text is `t`.
pub open spec fn is_error(r: BotResponse, t: Seq<char>) -> bool {
    r matches BotResponse::Error(s) && s@ == t
}

impl BotResponse {
    /// Create a plain-text response.
    pub fn text(msg: &str) -> (r: Self)
        ensures
            is_text(r, msg@),
    {
        BotResponse::Text(msg.to_owned())
    }

    /// Create an error response.
    pub fn error(msg: &str) -> (r: Self)
        ensures
            is_error(r, msg@),
    {
        BotResponse::Error(msg.to_owned())
    }

    /// Convert into a channel message, or `None` for the variants that need a bot channel
    /// (menus, DMs), that cannot be sent as one message (`Many`), or that send nothing
    /// (`Silent`). Errors are prefixed with `Error: `.
    pub fn into_channel_message(self) -> (m: Option<ChannelMessage>)
        ensures
            match self {
                BotResponse::Message { text, format, .. } => m matches Some(c) && c.text == text
                    && c.format == (if format == MessageFormat::Markdown {
                    MessageFormat::Markdown
                } else {
                    MessageFormat::Plain
                }),
                BotResponse::Error(text) => m matches Some(c) && c.text@ == "Error: "@ + text@
                    && c.format == MessageFormat::Plain,
                BotResponse::Text(text) => m matches Some(c) && c.text == text && c.format
                    == MessageFormat::Plain,
                BotResponse::Menu { .. } => m is None,
                BotResponse::Dm { .. } => m is None,
                BotResponse::Many(_) => m is None,
                BotResponse::Silent => m is None,
            },
    {
        match self {
            BotResponse::Message { text, format, .. } => Some(
                match format {
                    MessageFormat::Markdown => ChannelMessage::markdown(text),
                    _ => ChannelMessage::text(text),
                },
            ),
            BotResponse::Error(text) => Some(ChannelMessage::text(cat("Error: ", text.as_str()))),
            BotResponse::Text(text) => Some(ChannelMessage::text(text)),
            BotResponse::Menu { .. } => None,
            BotResponse::Dm { .. } => None,
            BotResponse::Many(_) => None,
            BotResponse::Silent => None,
        }
    }
}

} // verus!
