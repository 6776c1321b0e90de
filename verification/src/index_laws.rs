//! Properties that every step of an indexing run keeps.

use vstd::prelude::*;

use crate::config::{INDEX_CATEGORY, INDEX_SERVER, LINK_GROUP, LINK_PATTERN};
use crate::ripper::group_capture;
use crate::text::{ends_with, lemma_ends_with};
use crate::error::IndexError;
use crate::indexing::{
    accepts, index_start, index_state_wf, index_transition, scan_from, IndexActionModel, IndexEvent, IndexStateModel,
    CREATE_FAILED, DIRECTORY_FAILED, EXISTING_FAILED, INVITE_FAILED, NEW_FAILED, NO_CATEGORIES,
};
use crate::model::{Category, ChannelInfo};

verus! {

/// The invite link a run is filing (empty once it is over).
pub open spec fn link_of(s: IndexStateModel) -> Seq<char> {
    match s {
        IndexStateModel::FetchingInvite { link } => link,
        IndexStateModel::FetchingServer { link, .. } => link,
        IndexStateModel::FetchingChannel { link, .. } => link,
        IndexStateModel::SendingExisting { link } => link,
        IndexStateModel::CreatingChannel { link, .. } => link,
        IndexStateModel::SendingNew { link } => link,
        IndexStateModel::Finished => Seq::empty(),
    }
}

/// The identifier and name of the invited server, once the invite is known
/// and until a message is posted.
pub open spec fn invited_server(s: IndexStateModel) -> Option<(Seq<char>, Seq<char>)> {
    match s {
        IndexStateModel::FetchingServer { server_id, server_name, .. } => Some((server_id, server_name)),
        IndexStateModel::FetchingChannel { server_id, server_name, .. } => Some((server_id, server_name)),
        IndexStateModel::CreatingChannel { server_id, server_name, .. } => Some((server_id, server_name)),
        _ => None,
    }
}

/// How many search positions lie in categories `category` onwards: each
/// channel of a category, and the creation of a channel after them.
pub open spec fn positions_from(categories: Seq<Category>, category: nat) -> nat
    decreases categories.len() - category,
{
    if category >= categories.len() {
        0
    } else {
        categories[category as int].channels@.len() + 1 + positions_from(categories, category + 1)
    }
}

/// How far a run is from its end: the stage, then the search positions left.
pub open spec fn index_measure(s: IndexStateModel) -> (nat, int) {
    match s {
        IndexStateModel::FetchingInvite { .. } => (4, 0),
        IndexStateModel::FetchingServer { .. } => (3, 0),
        IndexStateModel::FetchingChannel { categories, category, channel, .. } =>
            (2, positions_from(categories, category) - channel),
        IndexStateModel::CreatingChannel { categories, category, .. } =>
            (2, (positions_from(categories, category + 1) + 1) as int),
        IndexStateModel::SendingExisting { .. } => (1, 0),
        IndexStateModel::SendingNew { .. } => (1, 0),
        IndexStateModel::Finished => (0, 0),
    }
}

/// `a` comes strictly before `b` in the order of stages, then of positions,
/// and the positions are never negative.
pub open spec fn measure_below(a: (nat, int), b: (nat, int)) -> bool {
    &&& a.1 >= 0
    &&& b.1 >= 0
    &&& (a.0 < b.0 || (a.0 == b.0 && a.1 < b.1))
}

/// Where the search for the index channel stops: awaiting a channel of a
/// category titled `INDEX_CATEGORY`, making a channel in the invited server
/// named after it and described by its identifier, or, with no category
/// left, ending unresolved; it never goes back, and carries the link and the
/// invited server along.
proof fn lemma_scan_from(
    link: Seq<char>,
    server_id: Seq<char>,
    server_name: Seq<char>,
    categories: Seq<Category>,
    category: nat,
    channel: nat,
)
    requires
        category < categories.len() ==> channel <= categories[category as int].channels@.len(),
    ensures
        ({
            let (t, a) = scan_from(link, server_id, server_name, categories, category, channel);
            ||| (t == IndexStateModel::Finished
                && a == IndexActionModel::Finish { report: None, result: Err(IndexError::Unresolved) })
            ||| (t matches IndexStateModel::FetchingChannel { link: l, server_id: i, server_name: n, categories: c, category: k, channel: h }
                && l == link && i == server_id && n == server_name && c == categories
                && k < categories.len() && categories[k as int].title@ == INDEX_CATEGORY@
                && h < categories[k as int].channels@.len()
                && a == IndexActionModel::FetchChannel { channel_id: categories[k as int].channels@[h as int]@ }
                && positions_from(categories, k) - h <= positions_from(categories, category) - channel)
            ||| (t matches IndexStateModel::CreatingChannel { link: l, server_id: i, server_name: n, categories: c, category: k }
                && l == link && i == server_id && n == server_name && c == categories
                && k < categories.len() && categories[k as int].title@ == INDEX_CATEGORY@
                && a == IndexActionModel::CreateChannel { server_id, name: server_name, description: server_id }
                && positions_from(categories, k + 1) + 1 <= positions_from(categories, category) - channel)
        }),
        category < categories.len() ==> positions_from(categories, category) >= channel,
    decreases categories.len() - category,
{
    if category < categories.len() {
        assert(positions_from(categories, category) == categories[category as int].channels@.len() + 1
            + positions_from(categories, category + 1));
        if categories[category as int].title@ != INDEX_CATEGORY@ {
            lemma_scan_from(link, server_id, server_name, categories, category + 1, 0);
        }
    }
}

/// Every message a run posts carries exactly the invite link it is filing,
/// and the link a run files never changes while it runs.
pub proof fn lemma_posts_only_the_link(s: IndexStateModel, e: IndexEvent)
    requires
        accepts(s, e),
        index_state_wf(s),
    ensures
        index_transition(s, e).1 matches IndexActionModel::SendMessage { content, .. } ==> content == link_of(s),
        index_transition(s, e).0 != IndexStateModel::Finished ==> link_of(index_transition(s, e).0) == link_of(s),
{
    step_facts(s, e);
}

/// A run that fails after its link is known reports it with a message that
/// ends with the link, and every failed request is reported; a run succeeds
/// only on a message posted, and then reports nothing.
pub proof fn lemma_failures_are_reported_with_the_link(s: IndexStateModel, e: IndexEvent)
    requires
        accepts(s, e),
        index_state_wf(s),
    ensures
        index_transition(s, e).1 matches IndexActionModel::Finish { report: Some(r), .. } ==> ends_with(r, link_of(s)),
        index_transition(s, e).1 matches IndexActionModel::Finish { result: Err(IndexError::Http(_)), report }
            ==> report is Some,
        index_transition(s, e).1 matches IndexActionModel::Finish { result: Ok(()), report } ==> {
            &&& report is None
            &&& e == IndexEvent::MessageSent(Ok(()))
            &&& (s is SendingExisting || s is SendingNew)
        },
{
    step_facts(s, e);
}

/// Every step of a run brings it strictly closer to its end, so every run ends.
pub proof fn lemma_every_step_progresses(s: IndexStateModel, e: IndexEvent)
    requires
        accepts(s, e),
        index_state_wf(s),
    ensures
        measure_below(index_measure(index_transition(s, e).0), index_measure(s)),
{
    step_facts(s, e);
}

/// A run asks only for the directory server, and only for channels of its
/// categories titled `INDEX_CATEGORY`; a channel it makes is made in the
/// invited server, named after it, and described by its identifier.
pub proof fn lemma_search_stays_in_the_directory(s: IndexStateModel, e: IndexEvent)
    requires
        accepts(s, e),
        index_state_wf(s),
    ensures
        index_transition(s, e).1 matches IndexActionModel::FetchServer { server_id } ==> server_id == INDEX_SERVER@,
        index_transition(s, e).1 matches IndexActionModel::FetchChannel { channel_id } ==> {
            &&& index_transition(s, e).0 matches IndexStateModel::FetchingChannel { categories, category, channel, .. }
            &&& categories[category as int].title@ == INDEX_CATEGORY@
            &&& channel_id == categories[category as int].channels@[channel as int]@
        },
        index_transition(s, e).1 matches IndexActionModel::CreateChannel { server_id, name, description } ==> {
            &&& invited_server(s) == Some((server_id, name))
            &&& description == server_id
        },
        index_state_wf(index_transition(s, e).0),
{
    step_facts(s, e);
}

/// The steps a run takes from `s` on the answers `events`, each the state
/// reached and the action named, as long as the answers fit.
pub open spec fn run_from(s: IndexStateModel, events: Seq<IndexEvent>) -> Seq<(IndexStateModel, IndexActionModel)>
    decreases events.len(),
{
    if events.len() == 0 || !accepts(s, events[0]) {
        Seq::empty()
    } else {
        let step = index_transition(s, events[0]);
        seq![step] + run_from(step.0, events.drop_first())
    }
}

/// The state a run from `s` on the answers `events` is in before its step `k`.
#[verifier::opaque]
pub open spec fn state_before(s: IndexStateModel, events: Seq<IndexEvent>, k: int) -> IndexStateModel {
    if k == 0 {
        s
    } else {
        run_from(s, events)[k - 1].0
    }
}

proof fn lemma_state_before(s: IndexStateModel, events: Seq<IndexEvent>, k: int)
    ensures
        k == 0 ==> state_before(s, events, k) == s,
        k != 0 ==> state_before(s, events, k) == run_from(s, events)[k - 1].0,
{
    reveal(state_before);
}

/// Step `k` of a run is the transition on its answer from the state before
/// it, and that state is well formed and files the run's link.
proof fn lemma_run_step_k(s: IndexStateModel, events: Seq<IndexEvent>, k: int)
    requires
        index_state_wf(s),
        0 <= k < run_from(s, events).len(),
    ensures
        accepts(state_before(s, events, k), events[k]),
        run_from(s, events)[k] == index_transition(state_before(s, events, k), events[k]),
        index_state_wf(state_before(s, events, k)),
        link_of(state_before(s, events, k)) == link_of(s),
    decreases k,
{
    let run = run_from(s, events);
    lemma_run_stops(s, events);
    assert(events.len() > 0 && accepts(s, events[0]));
    let step = index_transition(s, events[0]);
    step_facts(s, events[0]);
    let rest_events = events.drop_first();
    let rest = run_from(step.0, rest_events);
    assert(run == seq![step] + rest);
    lemma_state_before(s, events, k);
    if k > 0 {
        assert(run[k] == rest[k - 1]);
        if step.0 == IndexStateModel::Finished {
            assert(rest.len() == 0);
        }
        lemma_run_step_k(step.0, rest_events, k - 1);
        lemma_state_before(step.0, rest_events, k - 1);
        if k - 1 > 0 {
            assert(run[k - 1] == rest[k - 2]);
        }
        assert(events[k] == rest_events[k - 1]);
    }
}

/// A run takes at most one step per answer, and stops early only on an
/// answer that does not fit.
proof fn lemma_run_stops(s: IndexStateModel, events: Seq<IndexEvent>)
    requires
        index_state_wf(s),
    ensures
        run_from(s, events).len() <= events.len(),
        run_from(s, events).len() < events.len() ==> !accepts(
            state_before(s, events, run_from(s, events).len() as int),
            events[run_from(s, events).len() as int],
        ),
    decreases events.len(),
{
    let run = run_from(s, events);
    if events.len() == 0 || !accepts(s, events[0]) {
        assert(run.len() == 0);
        lemma_state_before(s, events, 0);
    } else {
        let step = index_transition(s, events[0]);
        step_facts(s, events[0]);
        let rest_events = events.drop_first();
        let rest = run_from(step.0, rest_events);
        lemma_run_stops(step.0, rest_events);
        assert(run == seq![step] + rest);
        if run.len() < events.len() {
            let n = run.len() as int;
            lemma_state_before(s, events, n);
            lemma_state_before(step.0, rest_events, n - 1);
            if n - 1 > 0 {
                assert(run[n - 1] == rest[n - 2]);
            }
            assert(events[n] == rest_events[n - 1]);
        }
    }
}

/// What one step `k` of a run from a well-formed `s0` is, and what it keeps.
proof fn lemma_step_at(s0: IndexStateModel, events: Seq<IndexEvent>, k: int)
    requires
        index_state_wf(s0),
        0 <= k < run_from(s0, events).len(),
    ensures
        ({
            let run = run_from(s0, events);
            let b = state_before(s0, events, k);
            let (t, a) = run[k];
            &&& accepts(b, events[k])
            &&& run[k] == index_transition(b, events[k])
            &&& link_of(b) == link_of(s0)
            &&& (k == 0 ==> b == s0)
            &&& (k > 0 ==> b == run[k - 1].0)
            &&& a matches IndexActionModel::Finish { report: Some(r), .. } ==> ends_with(r, link_of(s0))
            &&& a matches IndexActionModel::Finish { result: Ok(()), report } ==> {
                &&& report is None
                &&& events[k] == IndexEvent::MessageSent(Ok(()))
                &&& (b is SendingExisting || b is SendingNew)
            }
            &&& !(a is FetchInvite)
            &&& ((t is SendingExisting || t is SendingNew) <==> a is SendMessage)
            &&& (t is CreatingChannel <==> a is CreateChannel)
            &&& (t == IndexStateModel::Finished <==> a is Finish)
            &&& (b is SendingExisting || b is SendingNew) ==> t == IndexStateModel::Finished
            &&& (b is SendingExisting || b is SendingNew) && events[k] == IndexEvent::MessageSent(Ok(()))
                ==> a == IndexActionModel::Finish { report: None, result: Ok(()) }
            &&& (b is CreatingChannel && !(events[k] matches IndexEvent::ChannelCreated(Ok(made)) && !(made is TextChannel)))
                ==> (t == IndexStateModel::Finished || t is SendingNew)
        }),
{
    lemma_run_step_k(s0, events, k);
    lemma_state_before(s0, events, k);
    step_facts(state_before(s0, events, k), events[k]);
}

/// Over a whole run started on `text`, whatever the chat service answers:
/// every report ends with the invite link found in `text`; the invite is
/// never asked for again; the run ends at its first `Finish`; it succeeds
/// only right after a message it posted was accepted, and then reports
/// nothing, and an accepted post always ends it in success; it posts at
/// most once; and it asks for a second new channel only after the service
/// answered the first request with something other than a text channel.
pub proof fn lemma_run_laws(text: Seq<char>, events: Seq<IndexEvent>)
    ensures
        ({
            let run = run_from(index_start(text).0, events);
            let link = group_capture(LINK_PATTERN@, LINK_GROUP@, text);
            &&& forall|k: int| 0 <= k < run.len() ==>
                ((#[trigger] run[k]).1 matches IndexActionModel::Finish { report: Some(r), .. }
                ==> (link matches Some(l) && ends_with(r, l)))
            &&& forall|k: int| 0 <= k < run.len() ==> !((#[trigger] run[k]).1 is FetchInvite)
            &&& forall|k: int| 0 <= k < run.len() && (#[trigger] run[k]).1 is Finish ==> k == run.len() - 1
            &&& forall|k: int| 0 <= k < run.len() ==>
                ((#[trigger] run[k]).1 matches IndexActionModel::Finish { result: Ok(()), report } ==> {
                    &&& report is None
                    &&& 1 <= k
                    &&& run[k - 1].1 is SendMessage
                    &&& events[k] == IndexEvent::MessageSent(Ok(()))
                })
            &&& forall|k: int|
                0 <= k < run.len() && (#[trigger] run[k]).1 is SendMessage && k + 1 < events.len()
                    && events[k + 1] == IndexEvent::MessageSent(Ok(())) ==> {
                    &&& k + 1 < run.len()
                    &&& run[k + 1].1 == IndexActionModel::Finish { report: None, result: Ok(()) }
                }
            &&& forall|i: int, j: int|
                0 <= i < j < run.len() && (#[trigger] run[i]).1 is SendMessage ==> !((#[trigger] run[j]).1 is SendMessage)
            &&& forall|i: int, j: int|
                0 <= i < j < run.len() && (#[trigger] run[i]).1 is CreateChannel
                    && (#[trigger] run[j]).1 is CreateChannel ==> (events[i + 1] matches IndexEvent::ChannelCreated(
                    Ok(made),
                ) && !(made is TextChannel))
        }),
{
    let s0 = index_start(text).0;
    let run = run_from(s0, events);
    let link = group_capture(LINK_PATTERN@, LINK_GROUP@, text);
    lemma_run_stops(s0, events);
    if link is None {
        assert(s0 == IndexStateModel::Finished);
        assert(run.len() == 0);
    } else {
        assert(link_of(s0) == link->Some_0);
        assert(s0 is FetchingInvite);
    }
    assert forall|k: int| 0 <= k < run.len() implies
        ((#[trigger] run[k]).1 matches IndexActionModel::Finish { report: Some(r), .. }
        ==> (link matches Some(l) && ends_with(r, l))) by {
        lemma_step_at(s0, events, k);
    }
    assert forall|k: int| 0 <= k < run.len() implies !((#[trigger] run[k]).1 is FetchInvite) by {
        lemma_step_at(s0, events, k);
    }
    assert forall|k: int| 0 <= k < run.len() && (#[trigger] run[k]).1 is Finish implies k == run.len() - 1 by {
        lemma_step_at(s0, events, k);
        if k + 1 < run.len() {
            lemma_step_at(s0, events, k + 1);
        }
    }
    assert forall|k: int| 0 <= k < run.len() implies
        ((#[trigger] run[k]).1 matches IndexActionModel::Finish { result: Ok(()), report } ==> {
            &&& report is None
            &&& 1 <= k
            &&& run[k - 1].1 is SendMessage
            &&& events[k] == IndexEvent::MessageSent(Ok(()))
        }) by {
        lemma_step_at(s0, events, k);
        if k >= 1 {
            lemma_step_at(s0, events, k - 1);
        }
    }
    assert forall|k: int|
        0 <= k < run.len() && (#[trigger] run[k]).1 is SendMessage && k + 1 < events.len()
            && events[k + 1] == IndexEvent::MessageSent(Ok(())) implies {
            &&& k + 1 < run.len()
            &&& run[k + 1].1 == IndexActionModel::Finish { report: None, result: Ok(()) }
        } by {
        lemma_step_at(s0, events, k);
        lemma_state_before(s0, events, k + 1);
        if k + 1 < run.len() {
            lemma_step_at(s0, events, k + 1);
        }
    }
    assert forall|i: int, j: int|
        0 <= i < j < run.len() && (#[trigger] run[i]).1 is SendMessage implies !((#[trigger] run[j]).1 is SendMessage) by {
        lemma_step_at(s0, events, i);
        lemma_step_at(s0, events, i + 1);
        lemma_step_at(s0, events, j);
        if i + 1 < j {
            lemma_step_at(s0, events, i + 2);
        }
    }
    assert forall|i: int, j: int|
        0 <= i < j < run.len() && (#[trigger] run[i]).1 is CreateChannel && (#[trigger] run[j]).1 is CreateChannel
        implies (events[i + 1] matches IndexEvent::ChannelCreated(Ok(made)) && !(made is TextChannel)) by {
        lemma_step_at(s0, events, i);
        lemma_step_at(s0, events, i + 1);
        lemma_step_at(s0, events, j);
        if i + 2 < run.len() {
            lemma_step_at(s0, events, i + 2);
        }
        if i + 3 < run.len() {
            lemma_step_at(s0, events, i + 3);
        }
    }
}

/// Whatever the chat service answers, a run started on `text` posts
/// nothing but the invite link that `LINK_PATTERN` finds in `text`.
pub proof fn lemma_run_posts_the_link_of_the_text(text: Seq<char>, events: Seq<IndexEvent>)
    ensures
        ({
            let run = run_from(index_start(text).0, events);
            forall|i: int| 0 <= i < run.len() ==>
                ((#[trigger] run[i]).1 matches IndexActionModel::SendMessage { content, .. }
                ==> group_capture(LINK_PATTERN@, LINK_GROUP@, text) == Some(content))
        }),
{
    let s0 = index_start(text).0;
    match group_capture(LINK_PATTERN@, LINK_GROUP@, text) {
        Some(link) => lemma_run_keeps_link(s0, link, events),
        None => {
            assert(s0 == IndexStateModel::Finished);
            assert(run_from(s0, events) =~= Seq::<(IndexStateModel, IndexActionModel)>::empty());
        },
    }
}

proof fn lemma_run_keeps_link(s: IndexStateModel, link: Seq<char>, events: Seq<IndexEvent>)
    requires
        index_state_wf(s),
        s != IndexStateModel::Finished ==> link_of(s) == link,
    ensures
        ({
            let run = run_from(s, events);
            forall|i: int| 0 <= i < run.len() ==>
                ((#[trigger] run[i]).1 matches IndexActionModel::SendMessage { content, .. }
                ==> content == link)
        }),
    decreases events.len(),
{
    let run = run_from(s, events);
    if events.len() > 0 && accepts(s, events[0]) {
        step_facts(s, events[0]);
        let step = index_transition(s, events[0]);
        lemma_run_keeps_link(step.0, link, events.drop_first());
        let rest = run_from(step.0, events.drop_first());
        assert(run == seq![step] + rest);
        assert forall|i: int| 0 <= i < run.len() implies
            ((#[trigger] run[i]).1 matches IndexActionModel::SendMessage { content, .. } ==> content == link) by {
            if i > 0 {
                assert(run[i] == rest[i - 1]);
            }
        }
    }
}

/// `found` is a text channel whose description is `server_id`.
pub open spec fn described_by(found: ChannelInfo, server_id: Seq<char>) -> bool {
    match found {
        ChannelInfo::TextChannel { description: Some(d), .. } => d@ == server_id,
        _ => false,
    }
}

/// While the directory is searched, a fetched channel is taken as the
/// invited server's index channel exactly when it is a text channel
/// described by the invited server's identifier, and the link is then posted
/// there. Any other channel lets the search go on with the next channel of
/// the category, or, after the last one, with making a new channel in the
/// invited server.
pub proof fn lemma_index_channel_is_the_one_described_by_the_server(s: IndexStateModel, found: ChannelInfo)
    requires
        index_state_wf(s),
        s is FetchingChannel,
    ensures
        s matches IndexStateModel::FetchingChannel { link, server_id, server_name, categories, category, channel } ==> {
            let (t, a) = index_transition(s, IndexEvent::ChannelFetched(Ok(found)));
            let count = categories[category as int].channels@.len();
            &&& (a is SendMessage <==> described_by(found, server_id))
            &&& described_by(found, server_id) ==> {
                &&& t == IndexStateModel::SendingExisting { link }
                &&& a == IndexActionModel::SendMessage { channel_id: server_id, content: link }
            }
            &&& !described_by(found, server_id) && channel + 1 < count ==> {
                &&& t == IndexStateModel::FetchingChannel {
                    link,
                    server_id,
                    server_name,
                    categories,
                    category,
                    channel: channel + 1,
                }
                &&& a == IndexActionModel::FetchChannel {
                    channel_id: categories[category as int].channels@[channel + 1 as int]@,
                }
            }
            &&& !described_by(found, server_id) && channel + 1 >= count ==> {
                &&& t == IndexStateModel::CreatingChannel { link, server_id, server_name, categories, category }
                &&& a == IndexActionModel::CreateChannel {
                    server_id,
                    name: server_name,
                    description: server_id,
                }
            }
        },
{
    reveal(index_transition);
}

/// The answer a request is answered with.
pub open spec fn answers(a: IndexActionModel, e: IndexEvent) -> bool {
    match a {
        IndexActionModel::FetchInvite { .. } => e is InviteFetched,
        IndexActionModel::FetchServer { .. } => e is ServerFetched,
        IndexActionModel::FetchChannel { .. } => e is ChannelFetched,
        IndexActionModel::SendMessage { .. } => e is MessageSent,
        IndexActionModel::CreateChannel { .. } => e is ChannelCreated,
        IndexActionModel::Finish { .. } => false,
    }
}

/// A run started on any text waits for exactly the answer to the request
/// it names first, and nothing once it has ended.
pub proof fn lemma_start_awaits_the_answer_to_its_request(text: Seq<char>, e: IndexEvent)
    ensures
        accepts(index_start(text).0, e) <==> answers(index_start(text).1, e),
{
}

/// After every step, a run waits for exactly the answer to the request the
/// step named: the invite, the directory server, a channel, a new channel
/// or a posted message, and for nothing once it has ended.
pub proof fn lemma_step_awaits_the_answer_to_its_request(s: IndexStateModel, e: IndexEvent, next: IndexEvent)
    requires
        accepts(s, e),
        index_state_wf(s),
    ensures
        accepts(index_transition(s, e).0, next) <==> answers(index_transition(s, e).1, next),
{
    reveal(index_transition);
    match s {
        IndexStateModel::FetchingServer { link, server_id, server_name } => {
            if let IndexEvent::ServerFetched(Ok(server)) = e {
                if let Some(categories) = server.categories {
                    lemma_scan_from(link, server_id, server_name, categories@, 0, 0);
                }
            }
        },
        IndexStateModel::FetchingChannel { link, server_id, server_name, categories, category, channel } => {
            lemma_scan_from(link, server_id, server_name, categories, category, channel + 1);
        },
        IndexStateModel::CreatingChannel { link, server_id, server_name, categories, category } => {
            lemma_scan_from(link, server_id, server_name, categories, category + 1, 0);
        },
        _ => {},
    }
}

/// The facts about one step that the laws above are read from.
proof fn step_facts(s: IndexStateModel, e: IndexEvent)
    requires
        accepts(s, e),
        index_state_wf(s),
    ensures
        ({
            let (t, a) = index_transition(s, e);
            &&& a matches IndexActionModel::SendMessage { content, .. } ==> content == link_of(s)
            &&& t != IndexStateModel::Finished ==> link_of(t) == link_of(s)
            &&& a matches IndexActionModel::Finish { report: Some(r), .. } ==> ends_with(r, link_of(s))
            &&& a matches IndexActionModel::Finish { result: Err(IndexError::Http(_)), report } ==> report is Some
            &&& a matches IndexActionModel::Finish { result: Ok(()), report } ==> {
                &&& report is None
                &&& e == IndexEvent::MessageSent(Ok(()))
                &&& (s is SendingExisting || s is SendingNew)
            }
            &&& measure_below(index_measure(t), index_measure(s))
            &&& a matches IndexActionModel::FetchServer { server_id } ==> server_id == INDEX_SERVER@
            &&& a matches IndexActionModel::FetchChannel { channel_id } ==> {
                &&& t matches IndexStateModel::FetchingChannel { categories, category, channel, .. }
                &&& categories[category as int].title@ == INDEX_CATEGORY@
                &&& channel_id == categories[category as int].channels@[channel as int]@
            }
            &&& a matches IndexActionModel::CreateChannel { server_id, name, description } ==> {
                &&& invited_server(s) == Some((server_id, name))
                &&& description == server_id
            }
            &&& index_state_wf(t)
            &&& !(a is FetchInvite)
            &&& ((t is SendingExisting || t is SendingNew) <==> a is SendMessage)
            &&& (t is CreatingChannel <==> a is CreateChannel)
            &&& (t == IndexStateModel::Finished <==> a is Finish)
            &&& (s is SendingExisting || s is SendingNew) ==> t == IndexStateModel::Finished
            &&& (s is SendingExisting || s is SendingNew) && e == IndexEvent::MessageSent(Ok(()))
                ==> a == IndexActionModel::Finish { report: None, result: Ok(()) }
            &&& (s is CreatingChannel && !(e matches IndexEvent::ChannelCreated(Ok(made)) && !(made is TextChannel)))
                ==> (t == IndexStateModel::Finished || t is SendingNew)
        }),
{
    reveal(index_transition);
    let (t, a) = index_transition(s, e);
    match s {
        IndexStateModel::FetchingInvite { link } => {
            if let IndexEvent::InviteFetched(Err(f)) = e {
                lemma_ends_with(INVITE_FAILED@, link);
                assert(a == IndexActionModel::Finish { report: Some(INVITE_FAILED@ + link), result: Err(IndexError::Http(f)) });
            }
        },
        IndexStateModel::FetchingServer { link, server_id, server_name } => {
            match e {
                IndexEvent::ServerFetched(Ok(server)) => {
                    match server.categories {
                        Some(categories) => {
                            lemma_scan_from(link, server_id, server_name, categories@, 0, 0);
                        },
                        None => {
                            lemma_ends_with(NO_CATEGORIES@, link);
                assert(a == IndexActionModel::Finish { report: Some(NO_CATEGORIES@ + link), result: Err(IndexError::NoCategories) });
                        },
                    }
                },
                IndexEvent::ServerFetched(Err(f)) => {
                    lemma_ends_with(DIRECTORY_FAILED@, link);
                assert(a == IndexActionModel::Finish { report: Some(DIRECTORY_FAILED@ + link), result: Err(IndexError::Http(f)) });
                },
                _ => {},
            }
        },
        IndexStateModel::FetchingChannel { link, server_id, server_name, categories, category, channel } => {
            lemma_scan_from(link, server_id, server_name, categories, category, channel);
            lemma_scan_from(link, server_id, server_name, categories, category, channel + 1);
            if let IndexEvent::ChannelFetched(Err(f)) = e {
                lemma_ends_with(DIRECTORY_FAILED@, link);
                assert(a == IndexActionModel::Finish { report: Some(DIRECTORY_FAILED@ + link), result: Err(IndexError::Http(f)) });
            }
        },
        IndexStateModel::SendingExisting { link } => {
            if let IndexEvent::MessageSent(Ok(u)) = e {
                assert(e == IndexEvent::MessageSent(Ok(())));
            }
            if let IndexEvent::MessageSent(Err(f)) = e {
                lemma_ends_with(EXISTING_FAILED@, link);
                assert(a == IndexActionModel::Finish { report: Some(EXISTING_FAILED@ + link), result: Err(IndexError::Http(f)) });
            }
        },
        IndexStateModel::CreatingChannel { link, server_id, server_name, categories, category } => {
            assert(positions_from(categories, category) == categories[category as int].channels@.len() + 1
                + positions_from(categories, category + 1));
            lemma_scan_from(link, server_id, server_name, categories, category + 1, 0);
            if let IndexEvent::ChannelCreated(Err(f)) = e {
                lemma_ends_with(CREATE_FAILED@, link);
                assert(a == IndexActionModel::Finish { report: Some(CREATE_FAILED@ + link), result: Err(IndexError::Http(f)) });
            }
        },
        IndexStateModel::SendingNew { link } => {
            if let IndexEvent::MessageSent(Ok(u)) = e {
                assert(e == IndexEvent::MessageSent(Ok(())));
            }
            if let IndexEvent::MessageSent(Err(f)) = e {
                lemma_ends_with(NEW_FAILED@, link);
                assert(a == IndexActionModel::Finish { report: Some(NEW_FAILED@ + link), result: Err(IndexError::Http(f)) });
            }
        },
        IndexStateModel::Finished => {},
    }
}

} // verus!
