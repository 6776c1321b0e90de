//! Filing the server behind an invite link in the directory server.
//!
//! The run alternates requests to the chat service with decisions, so it is
//! written as a state machine: `start_indexing` reads the text and names the
//! first request; each answer goes to `index_step`, which names the next
//! request, until the run ends with `IndexAction::Finish`.

use vstd::prelude::*;

use crate::config::{INDEX_CATEGORY, INDEX_SERVER, LINK_GROUP, LINK_PATTERN};
use crate::error::IndexError;
use crate::model::{opt_text, Category, ChannelInfo, InviteInfo, ServerInfo, ServiceError};
use crate::ripper::{group_capture, Rippers};
use crate::text::{join_text, same_text};

verus! {

/// Where an indexing run stands: the request it waits on, and what it has
/// learnt. `link` is the invite link being filed.
pub enum IndexState {
    /// Waiting for the invite behind `link`.
    FetchingInvite { link: String },
    /// Waiting for the directory server; the invite leads to `server_id`.
    FetchingServer { link: String, server_id: String, server_name: String },
    /// Waiting for channel `channel` of category `category` of the directory.
    FetchingChannel {
        link: String,
        server_id: String,
        server_name: String,
        categories: Vec<Category>,
        category: usize,
        channel: usize,
    },
    /// Waiting for the link to be posted in the server's existing channel.
    SendingExisting { link: String },
    /// Waiting for a new index channel, made after category `category` was searched.
    CreatingChannel {
        link: String,
        server_id: String,
        server_name: String,
        categories: Vec<Category>,
        category: usize,
    },
    /// Waiting for the link to be posted in the new index channel.
    SendingNew { link: String },
    /// The run is over.
    Finished,
}

/// The next thing to do.
#[derive(Debug, PartialEq, Eq)]
pub enum IndexAction {
    /// Ask for the invite behind `link`.
    FetchInvite { link: String },
    /// Ask for the server `server_id`.
    FetchServer { server_id: String },
    /// Ask for the channel `channel_id`.
    FetchChannel { channel_id: String },
    /// Post `content` in `channel_id`, as the directory bot.
    SendMessage { channel_id: String, content: String },
    /// Make a text channel in `server_id`, called `name`, described by `description`.
    CreateChannel { server_id: String, name: String, description: String },
    /// End the run with `result`; first, when `report` is given, file it in
    /// the notes and tell it to the owner.
    Finish { report: Option<String>, result: Result<(), IndexError> },
}

/// The chat service's answer to the last request.
#[derive(Debug, PartialEq, Eq)]
pub enum IndexEvent {
    InviteFetched(Result<InviteInfo, ServiceError>),
    ServerFetched(Result<ServerInfo, ServiceError>),
    ChannelFetched(Result<ChannelInfo, ServiceError>),
    ChannelCreated(Result<ChannelInfo, ServiceError>),
    MessageSent(Result<(), ServiceError>),
}

/// The model of `IndexState`: strings as their characters.
pub enum IndexStateModel {
    FetchingInvite { link: Seq<char> },
    FetchingServer { link: Seq<char>, server_id: Seq<char>, server_name: Seq<char> },
    FetchingChannel {
        link: Seq<char>,
        server_id: Seq<char>,
        server_name: Seq<char>,
        categories: Seq<Category>,
        category: nat,
        channel: nat,
    },
    SendingExisting { link: Seq<char> },
    CreatingChannel {
        link: Seq<char>,
        server_id: Seq<char>,
        server_name: Seq<char>,
        categories: Seq<Category>,
        category: nat,
    },
    SendingNew { link: Seq<char> },
    Finished,
}

/// The model of `IndexAction`: strings as their characters.
pub enum IndexActionModel {
    FetchInvite { link: Seq<char> },
    FetchServer { server_id: Seq<char> },
    FetchChannel { channel_id: Seq<char> },
    SendMessage { channel_id: Seq<char>, content: Seq<char> },
    CreateChannel { server_id: Seq<char>, name: Seq<char>, description: Seq<char> },
    Finish { report: Option<Seq<char>>, result: Result<(), IndexError> },
}

impl View for IndexState {
    type V = IndexStateModel;

    open spec fn view(&self) -> IndexStateModel {
        match self {
            IndexState::FetchingInvite { link } => IndexStateModel::FetchingInvite { link: link@ },
            IndexState::FetchingServer { link, server_id, server_name } =>
                IndexStateModel::FetchingServer {
                    link: link@,
                    server_id: server_id@,
                    server_name: server_name@,
                },
            IndexState::FetchingChannel { link, server_id, server_name, categories, category, channel } =>
                IndexStateModel::FetchingChannel {
                    link: link@,
                    server_id: server_id@,
                    server_name: server_name@,
                    categories: categories@,
                    category: *category as nat,
                    channel: *channel as nat,
                },
            IndexState::SendingExisting { link } => IndexStateModel::SendingExisting { link: link@ },
            IndexState::CreatingChannel { link, server_id, server_name, categories, category } =>
                IndexStateModel::CreatingChannel {
                    link: link@,
                    server_id: server_id@,
                    server_name: server_name@,
                    categories: categories@,
                    category: *category as nat,
                },
            IndexState::SendingNew { link } => IndexStateModel::SendingNew { link: link@ },
            IndexState::Finished => IndexStateModel::Finished,
        }
    }
}

impl View for IndexAction {
    type V = IndexActionModel;

    open spec fn view(&self) -> IndexActionModel {
        match self {
            IndexAction::FetchInvite { link } => IndexActionModel::FetchInvite { link: link@ },
            IndexAction::FetchServer { server_id } => IndexActionModel::FetchServer { server_id: server_id@ },
            IndexAction::FetchChannel { channel_id } =>
                IndexActionModel::FetchChannel { channel_id: channel_id@ },
            IndexAction::SendMessage { channel_id, content } =>
                IndexActionModel::SendMessage { channel_id: channel_id@, content: content@ },
            IndexAction::CreateChannel { server_id, name, description } =>
                IndexActionModel::CreateChannel {
                    server_id: server_id@,
                    name: name@,
                    description: description@,
                },
            IndexAction::Finish { report, result } =>
                IndexActionModel::Finish {
                    report: match report {
                        Some(r) => Some(r@),
                        None => None,
                    },
                    result: *result,
                },
        }
    }
}

/// Report when the invite cannot be fetched.
pub const INVITE_FAILED: &'static str = "Failed to fetch invite: ";

/// Report when the directory server, or one of its channels, cannot be fetched.
pub const DIRECTORY_FAILED: &'static str = "Failed to get index server when fetching: ";

/// Report when the directory server has no categories.
pub const NO_CATEGORIES: &'static str = "Failed to index because idx server has no categories: ";

/// Report when the link cannot be posted in an existing index channel.
pub const EXISTING_FAILED: &'static str = "Failed to index existing: ";

/// Report when no index channel can be made.
pub const CREATE_FAILED: &'static str = "Failed to create new index for: ";

/// Report when the link cannot be posted in a new index channel.
pub const NEW_FAILED: &'static str = "Failed to index new: ";

/// The run ends with `result`, reporting `report` if given.
pub open spec fn finish(report: Option<Seq<char>>, result: Result<(), IndexError>) -> (IndexStateModel, IndexActionModel) {
    (IndexStateModel::Finished, IndexActionModel::Finish { report, result })
}

/// The run ends with the failed request `f`, reporting `prefix` and the link.
pub open spec fn fail(prefix: Seq<char>, link: Seq<char>, f: ServiceError) -> (IndexStateModel, IndexActionModel) {
    finish(Some(prefix + link), Err(IndexError::Http(f)))
}

/// The search for the server's index channel, resumed at channel `channel`
/// of category `category`: categories not titled `INDEX_CATEGORY` are
/// skipped; in one that is, each channel is fetched in turn, and when they
/// are exhausted a new index channel is made; with no category left the
/// run ends unresolved.
pub open spec fn scan_from(
    link: Seq<char>,
    server_id: Seq<char>,
    server_name: Seq<char>,
    categories: Seq<Category>,
    category: nat,
    channel: nat,
) -> (IndexStateModel, IndexActionModel)
    decreases categories.len() - category,
{
    if category >= categories.len() {
        finish(None, Err(IndexError::Unresolved))
    } else if categories[category as int].title@ == INDEX_CATEGORY@ {
        if channel < categories[category as int].channels@.len() {
            (
                IndexStateModel::FetchingChannel { link, server_id, server_name, categories, category, channel },
                IndexActionModel::FetchChannel {
                    channel_id: categories[category as int].channels@[channel as int]@,
                },
            )
        } else {
            (
                IndexStateModel::CreatingChannel { link, server_id, server_name, categories, category },
                IndexActionModel::CreateChannel { server_id, name: server_name, description: server_id },
            )
        }
    } else {
        scan_from(link, server_id, server_name, categories, category + 1, 0)
    }
}

/// How a run starts with the invite link `link` found in a text: by asking
/// for its invite, or, when there is none, at once with `NoInvites`.
pub open spec fn index_start_with(link: Option<Seq<char>>) -> (IndexStateModel, IndexActionModel) {
    match link {
        Some(link) => (IndexStateModel::FetchingInvite { link }, IndexActionModel::FetchInvite { link }),
        None => finish(None, Err(IndexError::NoInvites)),
    }
}

/// How a run starts on `text`: with the invite link that `LINK_PATTERN`
/// finds in it.
pub open spec fn index_start(text: Seq<char>) -> (IndexStateModel, IndexActionModel) {
    index_start_with(group_capture(LINK_PATTERN@, LINK_GROUP@, text))
}

/// `e` answers the request that `s` waits on.
pub open spec fn accepts(s: IndexStateModel, e: IndexEvent) -> bool {
    match s {
        IndexStateModel::FetchingInvite { .. } => e is InviteFetched,
        IndexStateModel::FetchingServer { .. } => e is ServerFetched,
        IndexStateModel::FetchingChannel { .. } => e is ChannelFetched,
        IndexStateModel::SendingExisting { .. } => e is MessageSent,
        IndexStateModel::CreatingChannel { .. } => e is ChannelCreated,
        IndexStateModel::SendingNew { .. } => e is MessageSent,
        IndexStateModel::Finished => false,
    }
}

/// The search position of `s`, if any, lies in a category titled
/// `INDEX_CATEGORY`, and when a channel is awaited, it is one of that category's.
pub open spec fn index_state_wf(s: IndexStateModel) -> bool {
    match s {
        IndexStateModel::FetchingChannel { categories, category, channel, .. } => {
            &&& category < categories.len()
            &&& categories[category as int].title@ == INDEX_CATEGORY@
            &&& channel < categories[category as int].channels@.len()
        },
        IndexStateModel::CreatingChannel { categories, category, .. } => {
            &&& category < categories.len()
            &&& categories[category as int].title@ == INDEX_CATEGORY@
        },
        _ => true,
    }
}

/// Wherever the search stops, the position it stops at is well formed.
pub proof fn lemma_scan_from_wf(
    link: Seq<char>,
    server_id: Seq<char>,
    server_name: Seq<char>,
    categories: Seq<Category>,
    category: nat,
    channel: nat,
)
    ensures
        index_state_wf(scan_from(link, server_id, server_name, categories, category, channel).0),
    decreases categories.len() - category,
{
    if category < categories.len() && categories[category as int].title@ != INDEX_CATEGORY@ {
        lemma_scan_from_wf(link, server_id, server_name, categories, category + 1, 0);
    }
}

/// What the run does on answer `e` in state `s` (meaningful when `accepts(s, e)`).
#[verifier::opaque]
pub open spec fn index_transition(s: IndexStateModel, e: IndexEvent) -> (IndexStateModel, IndexActionModel) {
    match s {
        IndexStateModel::FetchingInvite { link } => match e {
            IndexEvent::InviteFetched(Ok(InviteInfo::Server { server_id, server_name })) => (
                IndexStateModel::FetchingServer { link, server_id: server_id@, server_name: server_name@ },
                IndexActionModel::FetchServer { server_id: INDEX_SERVER@ },
            ),
            IndexEvent::InviteFetched(Ok(InviteInfo::Other)) => finish(None, Err(IndexError::NotServerInvite)),
            IndexEvent::InviteFetched(Err(f)) => fail(INVITE_FAILED@, link, f),
            _ => finish(None, Err(IndexError::Unresolved)),
        },
        IndexStateModel::FetchingServer { link, server_id, server_name } => match e {
            IndexEvent::ServerFetched(Ok(server)) => match server.categories {
                Some(categories) => scan_from(link, server_id, server_name, categories@, 0, 0),
                None => finish(Some(NO_CATEGORIES@ + link), Err(IndexError::NoCategories)),
            },
            IndexEvent::ServerFetched(Err(f)) => fail(DIRECTORY_FAILED@, link, f),
            _ => finish(None, Err(IndexError::Unresolved)),
        },
        IndexStateModel::FetchingChannel { link, server_id, server_name, categories, category, channel } =>
            match e {
                IndexEvent::ChannelFetched(Ok(found)) => match found {
                    ChannelInfo::TextChannel { description: Some(d), .. } if d@ == server_id => (
                        IndexStateModel::SendingExisting { link },
                        IndexActionModel::SendMessage { channel_id: d@, content: link },
                    ),
                    _ => scan_from(link, server_id, server_name, categories, category, channel + 1),
                },
                IndexEvent::ChannelFetched(Err(f)) => fail(DIRECTORY_FAILED@, link, f),
                _ => finish(None, Err(IndexError::Unresolved)),
            },
        IndexStateModel::SendingExisting { link } => match e {
            IndexEvent::MessageSent(Ok(())) => finish(None, Ok(())),
            IndexEvent::MessageSent(Err(f)) => fail(EXISTING_FAILED@, link, f),
            _ => finish(None, Err(IndexError::Unresolved)),
        },
        IndexStateModel::CreatingChannel { link, server_id, server_name, categories, category } =>
            match e {
                IndexEvent::ChannelCreated(Ok(made)) => match made {
                    ChannelInfo::TextChannel { id, .. } => (
                        IndexStateModel::SendingNew { link },
                        IndexActionModel::SendMessage { channel_id: id@, content: link },
                    ),
                    _ => scan_from(link, server_id, server_name, categories, category + 1, 0),
                },
                IndexEvent::ChannelCreated(Err(f)) => fail(CREATE_FAILED@, link, f),
                _ => finish(None, Err(IndexError::Unresolved)),
            },
        IndexStateModel::SendingNew { link } => match e {
            IndexEvent::MessageSent(Ok(())) => finish(None, Ok(())),
            IndexEvent::MessageSent(Err(f)) => fail(NEW_FAILED@, link, f),
            _ => finish(None, Err(IndexError::Unresolved)),
        },
        IndexStateModel::Finished => finish(None, Err(IndexError::Unresolved)),
    }
}

/// The run ends with the failed request `f`, reporting `prefix` and `link`.
fn fail_with(prefix: &str, link: &str, f: ServiceError) -> (res: (IndexState, IndexAction))
    ensures
        (res.0@, res.1@) == fail(prefix@, link@, f),
{
    (IndexState::Finished, IndexAction::Finish { report: Some(join_text(prefix, link)), result: Err(IndexError::Http(f)) })
}

/// Resumes the search for the index channel (see `scan_from`).
fn scan_categories(
    link: String,
    server_id: String,
    server_name: String,
    categories: Vec<Category>,
    category: usize,
    channel: usize,
) -> (res: (IndexState, IndexAction))
    ensures
        (res.0@, res.1@) == scan_from(link@, server_id@, server_name@, categories@, category as nat, channel as nat),
{
    let ghost target = scan_from(link@, server_id@, server_name@, categories@, category as nat, channel as nat);
    let mut cat = category;
    let mut chan = channel;
    while cat < categories.len()
        invariant
            target == scan_from(link@, server_id@, server_name@, categories@, category as nat, channel as nat),
            target == scan_from(link@, server_id@, server_name@, categories@, cat as nat, chan as nat),
        decreases categories.len() - cat,
    {
        let is_directory = same_text(categories[cat].title.as_str(), INDEX_CATEGORY);
        if is_directory {
            if chan < categories[cat].channels.len() {
                let channel_id = categories[cat].channels[chan].clone();
                return (
                    IndexState::FetchingChannel { link, server_id, server_name, categories, category: cat, channel: chan },
                    IndexAction::FetchChannel { channel_id },
                );
            } else {
                let made_in = server_id.clone();
                let name = server_name.clone();
                let description = server_id.clone();
                return (
                    IndexState::CreatingChannel { link, server_id, server_name, categories, category: cat },
                    IndexAction::CreateChannel { server_id: made_in, name, description },
                );
            }
        }
        cat = cat + 1;
        chan = 0;
    }
    (IndexState::Finished, IndexAction::Finish { report: None, result: Err(IndexError::Unresolved) })
}

/// Starts a run with the invite link `link` found in a text (see `index_start_with`).
pub fn start_with_link(link: Option<String>) -> (res: (IndexState, IndexAction))
    ensures
        (res.0@, res.1@) == index_start_with(opt_text(link)),
        index_state_wf(res.0@),
{
    match link {
        Some(link) => {
            let asked = link.clone();
            (IndexState::FetchingInvite { link }, IndexAction::FetchInvite { link: asked })
        },
        None => (IndexState::Finished, IndexAction::Finish { report: None, result: Err(IndexError::NoInvites) }),
    }
}

/// Starts a run on `text` (see `index_start`).
pub fn start_indexing(rippers: &Rippers, text: &str) -> (res: (IndexState, IndexAction))
    ensures
        (res.0@, res.1@) == index_start(text@),
        index_state_wf(res.0@),
{
    start_with_link(rippers.invite_link(text))
}

/// Whether `event` answers the request that `state` waits on.
pub fn accepts_event(state: &IndexState, event: &IndexEvent) -> (res: bool)
    ensures
        res == accepts(state@, *event),
{
    match state {
        IndexState::FetchingInvite { .. } => matches!(event, IndexEvent::InviteFetched(_)),
        IndexState::FetchingServer { .. } => matches!(event, IndexEvent::ServerFetched(_)),
        IndexState::FetchingChannel { .. } => matches!(event, IndexEvent::ChannelFetched(_)),
        IndexState::SendingExisting { .. } => matches!(event, IndexEvent::MessageSent(_)),
        IndexState::CreatingChannel { .. } => matches!(event, IndexEvent::ChannelCreated(_)),
        IndexState::SendingNew { .. } => matches!(event, IndexEvent::MessageSent(_)),
        IndexState::Finished => false,
    }
}

/// Takes the answer `event` to the request the run waits on (see `index_transition`).
pub fn index_step(state: IndexState, event: IndexEvent) -> (res: (IndexState, IndexAction))
    requires
        accepts(state@, event),
        index_state_wf(state@),
    ensures
        (res.0@, res.1@) == index_transition(state@, event),
        index_state_wf(res.0@),
{
    proof {
        reveal(index_transition);
    }
    match state {
        IndexState::FetchingInvite { link } => match event {
            IndexEvent::InviteFetched(Ok(InviteInfo::Server { server_id, server_name })) => (
                IndexState::FetchingServer { link, server_id, server_name },
                IndexAction::FetchServer { server_id: INDEX_SERVER.to_owned() },
            ),
            IndexEvent::InviteFetched(Ok(InviteInfo::Other)) =>
                (IndexState::Finished, IndexAction::Finish { report: None, result: Err(IndexError::NotServerInvite) }),
            IndexEvent::InviteFetched(Err(f)) => fail_with(INVITE_FAILED, link.as_str(), f),
            _ => (IndexState::Finished, IndexAction::Finish { report: None, result: Err(IndexError::Unresolved) }),
        },
        IndexState::FetchingServer { link, server_id, server_name } => match event {
            IndexEvent::ServerFetched(Ok(server)) => match server.categories {
                Some(categories) => {
                    proof {
                        lemma_scan_from_wf(link@, server_id@, server_name@, categories@, 0, 0);
                    }
                    scan_categories(link, server_id, server_name, categories, 0, 0)
                },
                None => (
                    IndexState::Finished,
                    IndexAction::Finish {
                        report: Some(join_text(NO_CATEGORIES, link.as_str())),
                        result: Err(IndexError::NoCategories),
                    },
                ),
            },
            IndexEvent::ServerFetched(Err(f)) => fail_with(DIRECTORY_FAILED, link.as_str(), f),
            _ => (IndexState::Finished, IndexAction::Finish { report: None, result: Err(IndexError::Unresolved) }),
        },
        IndexState::FetchingChannel { link, server_id, server_name, categories, category, channel } =>
            match event {
                IndexEvent::ChannelFetched(Ok(found)) => {
                    let ours = match &found {
                        ChannelInfo::TextChannel { description: Some(d), .. } => same_text(d.as_str(), server_id.as_str()),
                        _ => false,
                    };
                    if ours {
                        match found {
                            ChannelInfo::TextChannel { description: Some(d), .. } => {
                                let channel_id = d.clone();
                                (
                                    IndexState::SendingExisting { link: link.clone() },
                                    IndexAction::SendMessage { channel_id, content: link },
                                )
                            },
                            _ => (IndexState::Finished, IndexAction::Finish { report: None, result: Err(IndexError::Unresolved) }),
                        }
                    } else {
                        let count = categories[category].channels.len();
                        assert(channel < count);
                        proof {
                            lemma_scan_from_wf(link@, server_id@, server_name@, categories@, category as nat, (channel + 1) as nat);
                        }
                        scan_categories(link, server_id, server_name, categories, category, channel + 1)
                    }
                },
                IndexEvent::ChannelFetched(Err(f)) => fail_with(DIRECTORY_FAILED, link.as_str(), f),
                _ => (IndexState::Finished, IndexAction::Finish { report: None, result: Err(IndexError::Unresolved) }),
            },
        IndexState::SendingExisting { link } => match event {
            IndexEvent::MessageSent(Ok(())) => (IndexState::Finished, IndexAction::Finish { report: None, result: Ok(()) }),
            IndexEvent::MessageSent(Err(f)) => fail_with(EXISTING_FAILED, link.as_str(), f),
            _ => (IndexState::Finished, IndexAction::Finish { report: None, result: Err(IndexError::Unresolved) }),
        },
        IndexState::CreatingChannel { link, server_id, server_name, categories, category } => match event {
            IndexEvent::ChannelCreated(Ok(made)) => match made {
                ChannelInfo::TextChannel { id, .. } => (
                    IndexState::SendingNew { link: link.clone() },
                    IndexAction::SendMessage { channel_id: id, content: link },
                ),
                _ => {
                    let count = categories.len();
                    assert(category < count);
                    proof {
                        lemma_scan_from_wf(link@, server_id@, server_name@, categories@, (category + 1) as nat, 0);
                    }
                    scan_categories(link, server_id, server_name, categories, category + 1, 0)
                },
            },
            IndexEvent::ChannelCreated(Err(f)) => fail_with(CREATE_FAILED, link.as_str(), f),
            _ => (IndexState::Finished, IndexAction::Finish { report: None, result: Err(IndexError::Unresolved) }),
        },
        IndexState::SendingNew { link } => match event {
            IndexEvent::MessageSent(Ok(())) => (IndexState::Finished, IndexAction::Finish { report: None, result: Ok(()) }),
            IndexEvent::MessageSent(Err(f)) => fail_with(NEW_FAILED, link.as_str(), f),
            _ => (IndexState::Finished, IndexAction::Finish { report: None, result: Err(IndexError::Unresolved) }),
        },
        IndexState::Finished => (IndexState::Finished, IndexAction::Finish { report: None, result: Err(IndexError::Unresolved) }),
    }
}

} // verus!
