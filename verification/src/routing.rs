//! Where a received message goes, which messages are scanned for invites,
//! and where notices are delivered.

use vstd::prelude::*;

use crate::config::{
    blocked_channels, is_blocked_channel, BLOCKED_DISCOVER_CHANNEL, BLOCKED_LFG_CHANNEL, BLOCKED_TEST_CHANNEL,
    INDEX_SERVER, OWNER_ID,
};
use crate::error::{BotError, IndexError};
use crate::model::{ChannelInfo, MessageInfo};
use crate::text::same_text;

verus! {

/// The accounts the bot runs as: the observer that reads the servers and
/// the bot that writes the directory.
#[derive(Clone, Debug, PartialEq, Eq)]
pub struct Identity {
    pub observer_id: String,
    pub bot_id: String,
}

/// The note filed when a message arrives in a channel the cache does not know.
pub const UNKNOWN_CHANNEL_NOTE: &'static str = "A message was found in a null channel!";

/// What to do with a received message.
#[derive(Clone, Debug, PartialEq, Eq)]
pub enum Route {
    /// Scan it for invites; it was posted in a text channel of `server`.
    ScanInvites { server: String },
    /// Obey it as a command of the owner, received in direct channel `channel`.
    Command { channel: String },
    /// Nothing: the observer's own direct message.
    Done,
    /// Turn it down.
    Refused(BotError),
    /// File `note`: the message's channel is unknown.
    UnknownChannel { note: String },
}

/// Routes a message written by `author` in `channel` (`None` when the
/// channel is unknown); `observer_id` is the observing account.
pub fn route_message(channel: &Option<ChannelInfo>, author: &str, observer_id: &str) -> (res: Route)
    ensures
        match *channel {
            None => res matches Route::UnknownChannel { note } && note@ == UNKNOWN_CHANNEL_NOTE@,
            Some(ChannelInfo::TextChannel { server, .. }) =>
                res matches Route::ScanInvites { server: s } && s@ == server@,
            Some(ChannelInfo::DirectMessage { id }) =>
                if author@ == OWNER_ID@ {
                    res matches Route::Command { channel: c } && c@ == id@
                } else if author@ == observer_id@ {
                    res == Route::Done
                } else {
                    res == Route::Refused(BotError::NotOwner)
                },
            Some(_) => res == Route::Refused(BotError::InvalidChannelSource),
        },
{
    match channel {
        None => Route::UnknownChannel { note: UNKNOWN_CHANNEL_NOTE.to_owned() },
        Some(ChannelInfo::TextChannel { server, .. }) => Route::ScanInvites { server: server.clone() },
        Some(ChannelInfo::DirectMessage { id }) => {
            if same_text(author, OWNER_ID) {
                Route::Command { channel: id.clone() }
            } else if same_text(author, observer_id) {
                Route::Done
            } else {
                Route::Refused(BotError::NotOwner)
            }
        },
        Some(_) => Route::Refused(BotError::InvalidChannelSource),
    }
}

/// A message in a text channel of `server` may be scanned: the server is not
/// the directory, neither bot account wrote it, and the channel is not blocked.
pub open spec fn scannable(server: Seq<char>, message: MessageInfo, ids: Identity) -> bool {
    &&& server != INDEX_SERVER@
    &&& message.author@ != ids.observer_id@
    &&& message.author@ != ids.bot_id@
    &&& !blocked_channels().contains(message.channel@)
}

/// A message is never scanned when it was posted in the directory server,
/// written by the observer or the bot, or posted in the test, "Submit to
/// Discover" or "Looking for Group" channel; every other message in a server
/// may be scanned.
pub proof fn lemma_scanned_sources(server: Seq<char>, message: MessageInfo, ids: Identity)
    ensures
        message.channel@ == BLOCKED_TEST_CHANNEL@ ==> !scannable(server, message, ids),
        message.channel@ == BLOCKED_DISCOVER_CHANNEL@ ==> !scannable(server, message, ids),
        message.channel@ == BLOCKED_LFG_CHANNEL@ ==> !scannable(server, message, ids),
        server == INDEX_SERVER@ ==> !scannable(server, message, ids),
        message.author@ == ids.observer_id@ ==> !scannable(server, message, ids),
        message.author@ == ids.bot_id@ ==> !scannable(server, message, ids),
        ({
            &&& server != INDEX_SERVER@
            &&& message.author@ != ids.observer_id@
            &&& message.author@ != ids.bot_id@
            &&& message.channel@ != BLOCKED_TEST_CHANNEL@
            &&& message.channel@ != BLOCKED_DISCOVER_CHANNEL@
            &&& message.channel@ != BLOCKED_LFG_CHANNEL@
        }) ==> scannable(server, message, ids),
{
    let b = blocked_channels();
    assert(b[0] == BLOCKED_TEST_CHANNEL@);
    assert(b[1] == BLOCKED_DISCOVER_CHANNEL@);
    assert(b[2] == BLOCKED_LFG_CHANNEL@);
    if b.contains(message.channel@) {
        let i = choose|i: int| 0 <= i < b.len() && b[i] == message.channel@;
        assert(i == 0 || i == 1 || i == 2);
    }
}

/// Whether to scan a message for invites.
#[derive(Clone, Debug, PartialEq, Eq)]
pub enum ScanDecision {
    /// Scan `text`.
    Scan(String),
    /// Do not scan.
    Refuse(BotError),
}

/// Decides whether `message`, posted in a text channel of `server`, is
/// scanned for invites, and which text.
pub fn check_for_invites(server: &str, message: &MessageInfo, ids: &Identity) -> (res: ScanDecision)
    ensures
        !scannable(server@, *message, *ids) ==> res == ScanDecision::Refuse(BotError::BlacklistedSource),
        scannable(server@, *message, *ids) && message.content is None
            ==> res == ScanDecision::Refuse(BotError::NoMessage),
        scannable(server@, *message, *ids) && message.content is Some ==>
            (res matches ScanDecision::Scan(t) && t@ == message.content->Some_0@),
{
    if !same_text(server, INDEX_SERVER)
        && !same_text(message.author.as_str(), ids.observer_id.as_str())
        && !same_text(message.author.as_str(), ids.bot_id.as_str())
        && !is_blocked_channel(message.channel.as_str())
    {
        match &message.content {
            Some(text) => ScanDecision::Scan(text.clone()),
            None => ScanDecision::Refuse(BotError::NoMessage),
        }
    } else {
        ScanDecision::Refuse(BotError::BlacklistedSource)
    }
}

/// The answer to a scanned message, given how indexing its invite went: the
/// failure when it failed, and the blacklisted-source refusal when it succeeded.
pub fn finish_invite_check(indexed: Result<(), IndexError>) -> (res: Result<(), BotError>)
    ensures
        res is Err,
        indexed matches Err(e) ==> res == Err::<(), BotError>(BotError::Index(e)),
        indexed is Ok ==> res == Err::<(), BotError>(BotError::BlacklistedSource),
{
    match indexed {
        Err(e) => Err(BotError::Index(e)),
        Ok(()) => Err(BotError::BlacklistedSource),
    }
}

/// The channel in which notes are filed, given the account's own conversation.
pub fn notes_channel(channel: &ChannelInfo) -> (res: Option<String>)
    ensures
        opt_matches_saved(*channel, res),
{
    match channel {
        ChannelInfo::SavedMessages { id } => Some(id.clone()),
        _ => None,
    }
}

/// `res` names the channel exactly when `channel` is the account's notes.
pub open spec fn opt_matches_saved(channel: ChannelInfo, res: Option<String>) -> bool {
    match channel {
        ChannelInfo::SavedMessages { id } => res matches Some(r) && r@ == id@,
        _ => res is None,
    }
}

/// `res` names the channel exactly when `channel` is a direct conversation.
pub open spec fn opt_matches_direct(channel: ChannelInfo, res: Option<String>) -> bool {
    match channel {
        ChannelInfo::DirectMessage { id } => res matches Some(r) && r@ == id@,
        _ => res is None,
    }
}

/// The channel in which the owner is told things, given the conversation
/// opened with the owner.
pub fn owner_channel(channel: &ChannelInfo) -> (res: Option<String>)
    ensures
        opt_matches_direct(*channel, res),
{
    match channel {
        ChannelInfo::DirectMessage { id } => Some(id.clone()),
        _ => None,
    }
}

} // verus!
