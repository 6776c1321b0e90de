//! The owner's commands: what a command asks for, and what the owner and
//! the notes are told of its outcome.

use vstd::prelude::*;

use crate::config::{LINK_GROUP, LINK_ID_PATTERN, ULID_PATTERN};
use crate::error::IndexError;
use crate::model::{opt_text, HttpFailure};
use crate::ripper::{group_capture, Rippers};
use crate::text::{ends_with, has_prefix, join_text, lemma_ends_with, starts_with};

verus! {

/// What a command of the owner asks for.
#[derive(Clone, Debug, PartialEq, Eq)]
pub enum Command {
    /// Answer that the bot is alive.
    Ping,
    /// Join the server behind the invite code `invite` with the observer.
    Observe { invite: String },
    /// Leave the server `server` with the observer.
    Leave { server: String },
    /// File the invite found in `text` in the directory.
    ForceIndex { text: String },
    /// Nothing.
    Nothing,
}

/// Keyword of the liveness check.
pub const PING: &'static str = "ping";

/// Keyword of joining a server.
pub const OBSERVE: &'static str = "observe";

/// Keyword of leaving a server.
pub const LEAVE: &'static str = "leave";

/// Keyword of filing an invite by hand.
pub const FORCE_INDEX: &'static str = "forceIndex";

/// What the command `text` asks for, given the invite code `code` and the
/// server identifier `id` found in it: the first keyword the text starts
/// with decides; joining needs a code and leaving an identifier, else the
/// command asks for nothing.
pub open spec fn command_read(text: Seq<char>, code: Option<Seq<char>>, id: Option<Seq<char>>, c: Command) -> bool {
    if starts_with(text, PING@) {
        c == Command::Ping
    } else if starts_with(text, OBSERVE@) {
        match code {
            Some(code) => c matches Command::Observe { invite } && invite@ == code,
            None => c == Command::Nothing,
        }
    } else if starts_with(text, LEAVE@) {
        match id {
            Some(id) => c matches Command::Leave { server } && server@ == id,
            None => c == Command::Nothing,
        }
    } else if starts_with(text, FORCE_INDEX@) {
        c matches Command::ForceIndex { text: t } && t@ == text
    } else {
        c == Command::Nothing
    }
}

/// What the command `text` asks for, with the invite code that
/// `LINK_ID_PATTERN` and the identifier that `ULID_PATTERN` find in it.
pub open spec fn command_matches(text: Seq<char>, c: Command) -> bool {
    command_read(
        text,
        group_capture(LINK_ID_PATTERN@, LINK_GROUP@, text),
        group_capture(ULID_PATTERN@, LINK_GROUP@, text),
        c,
    )
}

/// Reads the command `text`, given the invite code `code` and the server
/// identifier `id` found in it (see `command_read`).
pub fn read_command(text: &str, code: Option<String>, id: Option<String>) -> (res: Command)
    ensures
        command_read(text@, opt_text(code), opt_text(id), res),
{
    if has_prefix(text, PING) {
        Command::Ping
    } else if has_prefix(text, OBSERVE) {
        match code {
            Some(invite) => Command::Observe { invite },
            None => Command::Nothing,
        }
    } else if has_prefix(text, LEAVE) {
        match id {
            Some(server) => Command::Leave { server },
            None => Command::Nothing,
        }
    } else if has_prefix(text, FORCE_INDEX) {
        Command::ForceIndex { text: text.to_owned() }
    } else {
        Command::Nothing
    }
}

/// Reads the command in a message of the owner with text `content`; the
/// code and the identifier are only looked for when the keyword needs them.
pub fn plan_command(rippers: &Rippers, content: &Option<String>) -> (res: Command)
    ensures
        match *content {
            None => res == Command::Nothing,
            Some(text) => command_matches(text@, res),
        },
{
    match content {
        None => Command::Nothing,
        Some(text) => {
            let t = text.as_str();
            let ping = has_prefix(t, PING);
            let observe = has_prefix(t, OBSERVE);
            let code = if !ping && observe { rippers.invite_code(t) } else { None };
            let id = if !ping && !observe && has_prefix(t, LEAVE) { rippers.identifier(t) } else { None };
            read_command(t, code, id)
        },
    }
}

/// What the owner and the notes are told.
#[derive(Clone, Debug, PartialEq, Eq)]
pub struct Notices {
    pub owner: String,
    pub notes: String,
}

/// The answer to `ping`.
pub const PONG: &'static str = "Aye, pong!";

/// Told to the owner when a command filed an invite.
pub const INDEXED: &'static str = "Aye, server indexed.";

/// What the owner and the notes are told after trying to join with `invite`.
pub open spec fn observe_notices_spec(invite: Seq<char>, joined: bool) -> (Seq<char>, Seq<char>) {
    if joined {
        ("Aye, observing..."@, "Started listening via invite: "@ + invite)
    } else {
        ("Nah! Can't join!"@, "Failed to join invite: "@ + invite)
    }
}

/// What the owner and the notes are told after trying to leave `server`.
/// A request that failed on its way is taken to have worked; an error of the
/// service means the observer was not there.
pub open spec fn leave_notices_spec(server: Seq<char>, left: Result<(), HttpFailure>) -> (Seq<char>, Seq<char>) {
    match left {
        Ok(()) => ("Aye, stopped observing."@, "Stopped listening in: "@ + server),
        Err(HttpFailure::Serialization) => ("Nah! I'm stuck!"@, "Failed to leave: "@ + server),
        Err(HttpFailure::HttpRequest) => ("Aye, I think that worked."@, "Left: "@ + server),
        Err(HttpFailure::Api) => ("Nah! I'm not there!"@, "Already left: "@ + server),
    }
}

/// The note filed after joining or leaving ends with the invite code or
/// server identifier it was about.
pub proof fn lemma_notes_name_the_target(target: Seq<char>, joined: bool, left: Result<(), HttpFailure>)
    ensures
        ends_with(observe_notices_spec(target, joined).1, target),
        ends_with(leave_notices_spec(target, left).1, target),
{
    lemma_ends_with("Started listening via invite: "@, target);
    lemma_ends_with("Failed to join invite: "@, target);
    lemma_ends_with("Stopped listening in: "@, target);
    lemma_ends_with("Failed to leave: "@, target);
    lemma_ends_with("Left: "@, target);
    lemma_ends_with("Already left: "@, target);
}

/// The notices after joining with invite code `invite` (`joined`: how it went).
pub fn observe_notices(invite: &str, joined: &Result<(), HttpFailure>) -> (res: Notices)
    ensures
        (res.owner@, res.notes@) == observe_notices_spec(invite@, joined is Ok),
{
    match joined {
        Ok(()) => Notices {
            owner: "Aye, observing...".to_owned(),
            notes: join_text("Started listening via invite: ", invite),
        },
        Err(_) => Notices {
            owner: "Nah! Can't join!".to_owned(),
            notes: join_text("Failed to join invite: ", invite),
        },
    }
}

/// The notices after leaving `server` (`left`: how it went).
pub fn leave_notices(server: &str, left: &Result<(), HttpFailure>) -> (res: Notices)
    ensures
        (res.owner@, res.notes@) == leave_notices_spec(server@, *left),
{
    match left {
        Ok(()) => Notices {
            owner: "Aye, stopped observing.".to_owned(),
            notes: join_text("Stopped listening in: ", server),
        },
        Err(HttpFailure::Serialization) => Notices {
            owner: "Nah! I'm stuck!".to_owned(),
            notes: join_text("Failed to leave: ", server),
        },
        Err(HttpFailure::HttpRequest) => Notices {
            owner: "Aye, I think that worked.".to_owned(),
            notes: join_text("Left: ", server),
        },
        Err(HttpFailure::Api) => Notices {
            owner: "Nah! I'm not there!".to_owned(),
            notes: join_text("Already left: ", server),
        },
    }
}

/// What the owner is told after a command filed an invite: the success,
/// or nothing when it failed.
pub fn force_index_notice(indexed: &Result<(), IndexError>) -> (res: Option<String>)
    ensures
        indexed is Ok ==> (res matches Some(t) && t@ == INDEXED@),
        indexed is Err ==> res is None,
{
    match indexed {
        Ok(()) => Some(INDEXED.to_owned()),
        Err(_) => None,
    }
}

} // verus!
