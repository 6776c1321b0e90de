//! Plain-value pictures of the chat service's objects, holding what the
//! bot's decisions read of them.

use vstd::prelude::*;

verus! {

/// How a request to the chat service failed.
#[derive(Clone, Copy, Debug, PartialEq, Eq)]
pub enum HttpFailure {
    /// The service answered with an error.
    Api,
    /// The request could not be carried out.
    HttpRequest,
    /// The answer could not be decoded.
    Serialization,
}

/// A failed request to the chat service: how it failed, and the service
/// client's own description of the error.
#[derive(Clone, Debug, PartialEq, Eq)]
pub struct ServiceError {
    pub kind: HttpFailure,
    pub message: String,
}

/// A channel, as far as the bot tells channels apart.
#[derive(Clone, Debug, PartialEq, Eq)]
pub enum ChannelInfo {
    /// A text channel of a server, with its optional description.
    TextChannel { id: String, server: String, description: Option<String> },
    /// A direct conversation with one user.
    DirectMessage { id: String },
    /// The account's own notes.
    SavedMessages { id: String },
    /// Any other kind of channel.
    Other,
}

/// An invite, as far as the bot reads it.
#[derive(Clone, Debug, PartialEq, Eq)]
pub enum InviteInfo {
    /// An invite to a server.
    Server { server_id: String, server_name: String },
    /// Any other invite.
    Other,
}

/// A category of a server: its title and its channels' identifiers.
#[derive(Clone, Debug, PartialEq, Eq)]
pub struct Category {
    pub title: String,
    pub channels: Vec<String>,
}

/// A server, as far as the bot reads it.
#[derive(Clone, Debug, PartialEq, Eq)]
pub struct ServerInfo {
    pub categories: Option<Vec<Category>>,
}

/// A chat message: who wrote it, where, and its text if it has one.
#[derive(Clone, Debug, PartialEq, Eq)]
pub struct MessageInfo {
    pub author: String,
    pub channel: String,
    pub content: Option<String>,
}

/// The characters of an optional string.
pub open spec fn opt_text(o: Option<String>) -> Option<Seq<char>> {
    match o {
        Some(s) => Some(s@),
        None => None,
    }
}

} // verus!
