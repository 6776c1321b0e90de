use pit_indexer::config::INDEX_SERVER;
use pit_indexer::error::IndexError;
use pit_indexer::indexing::{index_step, start_indexing, start_with_link, IndexAction, IndexEvent, IndexState};
use pit_indexer::model::{Category, ChannelInfo, HttpFailure, InviteInfo, ServerInfo, ServiceError};
use pit_indexer::ripper::Rippers;

const LINK: &str = "rvlt.gg/AbCd1234";

/// Starts a run on `text` and answers each request with the next of `answers`;
/// returns every action named, the first one included.
fn drive(text: &str, answers: Vec<IndexEvent>) -> (Vec<IndexAction>, IndexState) {
    let rippers = Rippers::compile().unwrap();
    let (mut state, first) = start_indexing(&rippers, text);
    let mut actions = vec![first];
    for answer in answers {
        let (next, action) = index_step(state, answer);
        state = next;
        actions.push(action);
    }
    (actions, state)
}

fn svc(kind: HttpFailure) -> ServiceError {
    ServiceError { kind, message: "service said no".to_string() }
}

fn server_invite() -> IndexEvent {
    IndexEvent::InviteFetched(Ok(InviteInfo::Server { server_id: "SRV".to_string(), server_name: "Cool".to_string() }))
}

fn directory(categories: Vec<(&str, Vec<&str>)>) -> IndexEvent {
    IndexEvent::ServerFetched(Ok(ServerInfo {
        categories: Some(
            categories
                .into_iter()
                .map(|(title, chans)| Category {
                    title: title.to_string(),
                    channels: chans.into_iter().map(|c| c.to_string()).collect(),
                })
                .collect(),
        ),
    }))
}

fn text_channel(id: &str, description: Option<&str>) -> ChannelInfo {
    ChannelInfo::TextChannel {
        id: id.to_string(),
        server: INDEX_SERVER.to_string(),
        description: description.map(|d| d.to_string()),
    }
}

fn finish(report: Option<String>, result: Result<(), IndexError>) -> IndexAction {
    IndexAction::Finish { report, result }
}

fn fetch_channel(id: &str) -> IndexAction {
    IndexAction::FetchChannel { channel_id: id.to_string() }
}

fn send(channel: &str) -> IndexAction {
    IndexAction::SendMessage { channel_id: channel.to_string(), content: LINK.to_string() }
}

fn create() -> IndexAction {
    IndexAction::CreateChannel { server_id: "SRV".to_string(), name: "Cool".to_string(), description: "SRV".to_string() }
}

fn opening() -> Vec<IndexAction> {
    vec![
        IndexAction::FetchInvite { link: LINK.to_string() },
        IndexAction::FetchServer { server_id: INDEX_SERVER.to_string() },
    ]
}

#[test]
fn text_without_link_ends_at_once() {
    let (actions, state) = drive("hello there", vec![]);
    assert_eq!(actions, vec![finish(None, Err(IndexError::NoInvites))]);
    assert!(matches!(state, IndexState::Finished));
}

#[test]
fn existing_index_channel_gets_the_link() {
    let (actions, state) = drive(
        "come to rvlt.gg/AbCd1234 today",
        vec![
            server_invite(),
            directory(vec![("Other", vec!["X"]), ("Pit Directory", vec!["A", "B", "C"])]),
            IndexEvent::ChannelFetched(Ok(text_channel("A", Some("ELSEWHERE")))),
            IndexEvent::ChannelFetched(Ok(text_channel("B", Some("SRV")))),
            IndexEvent::MessageSent(Ok(())),
        ],
    );
    let mut expected = opening();
    expected.extend(vec![fetch_channel("A"), fetch_channel("B"), send("SRV"), finish(None, Ok(()))]);
    assert_eq!(actions, expected);
    assert!(matches!(state, IndexState::Finished));
}

#[test]
fn channels_without_matching_description_are_passed_over() {
    let (actions, _) = drive(
        LINK,
        vec![
            server_invite(),
            directory(vec![("Pit Directory", vec!["A", "B", "C"])]),
            IndexEvent::ChannelFetched(Ok(text_channel("A", None))),
            IndexEvent::ChannelFetched(Ok(ChannelInfo::Other)),
            IndexEvent::ChannelFetched(Ok(text_channel("C", Some("SRV2")))),
            IndexEvent::ChannelCreated(Ok(text_channel("NEW", Some("SRV")))),
            IndexEvent::MessageSent(Ok(())),
        ],
    );
    let mut expected = opening();
    expected.extend(vec![
        fetch_channel("A"),
        fetch_channel("B"),
        fetch_channel("C"),
        create(),
        send("NEW"),
        finish(None, Ok(())),
    ]);
    assert_eq!(actions, expected);
}

#[test]
fn empty_directory_category_gets_a_new_channel() {
    let (actions, _) = drive(
        LINK,
        vec![
            server_invite(),
            directory(vec![("Pit Directory", vec![])]),
            IndexEvent::ChannelCreated(Ok(text_channel("NEW", Some("SRV")))),
            IndexEvent::MessageSent(Ok(())),
        ],
    );
    let mut expected = opening();
    expected.extend(vec![create(), send("NEW"), finish(None, Ok(()))]);
    assert_eq!(actions, expected);
}

#[test]
fn non_text_new_channel_moves_on_to_later_categories() {
    let (actions, _) = drive(
        LINK,
        vec![
            server_invite(),
            directory(vec![("Pit Directory", vec![]), ("Misc", vec!["M"]), ("Pit Directory", vec!["Z"])]),
            IndexEvent::ChannelCreated(Ok(ChannelInfo::Other)),
            IndexEvent::ChannelFetched(Ok(text_channel("Z", Some("SRV")))),
            IndexEvent::MessageSent(Ok(())),
        ],
    );
    let mut expected = opening();
    expected.extend(vec![create(), fetch_channel("Z"), send("SRV"), finish(None, Ok(()))]);
    assert_eq!(actions, expected);
}

#[test]
fn search_without_directory_category_is_unresolved() {
    let (actions, _) = drive(LINK, vec![server_invite(), directory(vec![("Misc", vec!["M"])])]);
    let mut expected = opening();
    expected.push(finish(None, Err(IndexError::Unresolved)));
    assert_eq!(actions, expected);

    let (actions, _) = drive(
        LINK,
        vec![server_invite(), directory(vec![("Pit Directory", vec![])]), IndexEvent::ChannelCreated(Ok(ChannelInfo::Other))],
    );
    let mut expected = opening();
    expected.extend(vec![create(), finish(None, Err(IndexError::Unresolved))]);
    assert_eq!(actions, expected);
}

#[test]
fn directory_without_categories_is_reported() {
    let (actions, _) = drive(LINK, vec![server_invite(), IndexEvent::ServerFetched(Ok(ServerInfo { categories: None }))]);
    let mut expected = opening();
    expected.push(finish(
        Some(format!("Failed to index because idx server has no categories: {LINK}")),
        Err(IndexError::NoCategories),
    ));
    assert_eq!(actions, expected);
}

#[test]
fn invite_outcomes() {
    let (actions, _) = drive(LINK, vec![IndexEvent::InviteFetched(Ok(InviteInfo::Other))]);
    assert_eq!(actions[1], finish(None, Err(IndexError::NotServerInvite)));
    let (actions, _) = drive(LINK, vec![IndexEvent::InviteFetched(Err(svc(HttpFailure::Api)))]);
    assert_eq!(
        actions[1],
        finish(Some(format!("Failed to fetch invite: {LINK}")), Err(IndexError::Http(svc(HttpFailure::Api))))
    );
}

#[test]
fn failed_requests_are_reported_with_the_link() {
    let (actions, _) = drive(LINK, vec![server_invite(), IndexEvent::ServerFetched(Err(svc(HttpFailure::HttpRequest)))]);
    assert_eq!(
        actions[2],
        finish(
            Some(format!("Failed to get index server when fetching: {LINK}")),
            Err(IndexError::Http(svc(HttpFailure::HttpRequest)))
        )
    );

    let (actions, _) = drive(
        LINK,
        vec![
            server_invite(),
            directory(vec![("Pit Directory", vec!["A"])]),
            IndexEvent::ChannelFetched(Err(svc(HttpFailure::Serialization))),
        ],
    );
    assert_eq!(
        actions[3],
        finish(
            Some(format!("Failed to get index server when fetching: {LINK}")),
            Err(IndexError::Http(svc(HttpFailure::Serialization)))
        )
    );

    let (actions, _) = drive(
        LINK,
        vec![
            server_invite(),
            directory(vec![("Pit Directory", vec!["A"])]),
            IndexEvent::ChannelFetched(Ok(text_channel("A", Some("SRV")))),
            IndexEvent::MessageSent(Err(svc(HttpFailure::Api))),
        ],
    );
    assert_eq!(
        actions[4],
        finish(Some(format!("Failed to index existing: {LINK}")), Err(IndexError::Http(svc(HttpFailure::Api))))
    );

    let (actions, _) = drive(
        LINK,
        vec![
            server_invite(),
            directory(vec![("Pit Directory", vec![])]),
            IndexEvent::ChannelCreated(Err(svc(HttpFailure::Api))),
        ],
    );
    assert_eq!(
        actions[3],
        finish(Some(format!("Failed to create new index for: {LINK}")), Err(IndexError::Http(svc(HttpFailure::Api))))
    );

    let (actions, _) = drive(
        LINK,
        vec![
            server_invite(),
            directory(vec![("Pit Directory", vec![])]),
            IndexEvent::ChannelCreated(Ok(text_channel("NEW", None))),
            IndexEvent::MessageSent(Err(svc(HttpFailure::HttpRequest))),
        ],
    );
    assert_eq!(
        actions[4],
        finish(Some(format!("Failed to index new: {LINK}")), Err(IndexError::Http(svc(HttpFailure::HttpRequest))))
    );
}

#[test]
fn every_posted_message_is_the_link() {
    let (actions, _) = drive(
        "two links rvlt.gg/AbCd1234 rvlt.gg/ZZZZZZZZ",
        vec![
            server_invite(),
            directory(vec![("Pit Directory", vec!["A"])]),
            IndexEvent::ChannelFetched(Ok(text_channel("A", Some("SRV")))),
            IndexEvent::MessageSent(Ok(())),
        ],
    );
    for a in &actions {
        if let IndexAction::SendMessage { content, .. } = a {
            assert_eq!(content, LINK);
        }
    }
    assert_eq!(actions.len(), 5);
}

#[test]
fn answers_must_fit_the_request() {
    let rippers = Rippers::compile().unwrap();
    let (state, _) = start_indexing(&rippers, LINK);
    assert!(pit_indexer::indexing::accepts_event(&state, &server_invite()));
    assert!(!pit_indexer::indexing::accepts_event(&state, &IndexEvent::MessageSent(Ok(()))));
    assert!(!pit_indexer::indexing::accepts_event(&IndexState::Finished, &server_invite()));
}

#[test]
fn start_follows_the_captured_link() {
    let (state, action) = start_with_link(Some("rvlt.gg/Q1w2E3r4".to_string()));
    assert_eq!(action, IndexAction::FetchInvite { link: "rvlt.gg/Q1w2E3r4".to_string() });
    assert!(matches!(state, IndexState::FetchingInvite { .. }));
    let (state, action) = start_with_link(None);
    assert_eq!(action, finish(None, Err(IndexError::NoInvites)));
    assert!(matches!(state, IndexState::Finished));
}

#[test]
fn failure_keeps_the_service_message() {
    let (actions, _) = drive(LINK, vec![IndexEvent::InviteFetched(Err(svc(HttpFailure::Api)))]);
    match &actions[1] {
        IndexAction::Finish { result: Err(e), .. } => assert_eq!(e.describe(), "service said no"),
        other => panic!("unexpected {:?}", other),
    }
}
