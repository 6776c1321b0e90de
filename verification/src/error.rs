//! Why a message or an indexing run came to nothing.

use vstd::prelude::*;

use crate::model::ServiceError;

verus! {

/// Why indexing the invite in a text failed.
#[derive(Clone, Debug, PartialEq, Eq)]
pub enum IndexError {
    /// The text holds no invite link.
    NoInvites,
    /// The invite does not lead to a server.
    NotServerInvite,
    /// The directory server has no categories.
    NoCategories,
    /// No index channel could be found or made.
    Unresolved,
    /// A request to the chat service failed.
    Http(ServiceError),
}

/// Why a received message was not acted upon.
#[derive(Clone, Debug, PartialEq, Eq)]
pub enum BotError {
    /// The message comes from a source that is never scanned.
    BlacklistedSource,
    /// The message has no text.
    NoMessage,
    /// A direct message from someone other than the owner.
    NotOwner,
    /// The message was posted in a kind of channel the bot does not serve.
    InvalidChannelSource,
    /// Indexing the invite of the message failed.
    Index(IndexError),
}

/// The text that describes an indexing failure; a failed request is
/// described by the service client's own message.
pub open spec fn index_error_text(e: IndexError) -> Seq<char> {
    match e {
        IndexError::NoInvites => "No invites!"@,
        IndexError::NotServerInvite => "Not a server invite!"@,
        IndexError::NoCategories => "No categories found in the Index server!"@,
        IndexError::Unresolved => "Fetching invite failed somehow?!"@,
        IndexError::Http(e) => e.message@,
    }
}

/// The text that describes why a message was not acted upon.
pub open spec fn bot_error_text(e: BotError) -> Seq<char> {
    match e {
        BotError::BlacklistedSource => "Blacklisted Source"@,
        BotError::NoMessage => "No message!"@,
        BotError::NotOwner => "Not the owner"@,
        BotError::InvalidChannelSource => "Not a valid channel source"@,
        BotError::Index(i) => index_error_text(i),
    }
}

impl IndexError {
    /// A sentence describing the failure.
    pub fn describe(&self) -> (res: String)
        ensures
            res@ == index_error_text(*self),
    {
        match self {
            IndexError::NoInvites => "No invites!".to_owned(),
            IndexError::NotServerInvite => "Not a server invite!".to_owned(),
            IndexError::NoCategories => "No categories found in the Index server!".to_owned(),
            IndexError::Unresolved => "Fetching invite failed somehow?!".to_owned(),
            IndexError::Http(e) => e.message.clone(),
        }
    }
}

impl BotError {
    /// A sentence describing why the message was not acted upon.
    pub fn describe(&self) -> (res: String)
        ensures
            res@ == bot_error_text(*self),
    {
        match self {
            BotError::BlacklistedSource => "Blacklisted Source".to_owned(),
            BotError::NoMessage => "No message!".to_owned(),
            BotError::NotOwner => "Not the owner".to_owned(),
            BotError::InvalidChannelSource => "Not a valid channel source".to_owned(),
            BotError::Index(i) => i.describe(),
        }
    }
}

} // verus!
