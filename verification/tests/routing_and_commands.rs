use pit_indexer::command::{
    force_index_notice, leave_notices, observe_notices, plan_command, read_command, Command, Notices,
};
use pit_indexer::config::{INDEX_SERVER, OWNER_ID};
use pit_indexer::error::{BotError, IndexError};
use pit_indexer::model::{ChannelInfo, HttpFailure, MessageInfo, ServiceError};
use pit_indexer::ripper::Rippers;
use pit_indexer::routing::{
    check_for_invites, finish_invite_check, notes_channel, owner_channel, route_message, Identity, Route,
    ScanDecision,
};

fn ids() -> Identity {
    Identity { observer_id: "OBSERVER".to_string(), bot_id: "BOT".to_string() }
}

fn msg(author: &str, channel: &str, content: Option<&str>) -> MessageInfo {
    MessageInfo { author: author.to_string(), channel: channel.to_string(), content: content.map(|c| c.to_string()) }
}

#[test]
fn text_channel_messages_are_scanned() {
    let ch = Some(ChannelInfo::TextChannel { id: "C".to_string(), server: "S".to_string(), description: None });
    assert_eq!(route_message(&ch, "anyone", "OBSERVER"), Route::ScanInvites { server: "S".to_string() });
}

#[test]
fn direct_messages_from_owner_are_commands() {
    let ch = Some(ChannelInfo::DirectMessage { id: "D".to_string() });
    assert_eq!(route_message(&ch, OWNER_ID, "OBSERVER"), Route::Command { channel: "D".to_string() });
    assert_eq!(route_message(&ch, "OBSERVER", "OBSERVER"), Route::Done);
    assert_eq!(route_message(&ch, "stranger", "OBSERVER"), Route::Refused(BotError::NotOwner));
}

#[test]
fn other_channels_are_refused_and_unknown_ones_noted() {
    let saved = Some(ChannelInfo::SavedMessages { id: "N".to_string() });
    assert_eq!(route_message(&saved, OWNER_ID, "OBSERVER"), Route::Refused(BotError::InvalidChannelSource));
    assert_eq!(route_message(&Some(ChannelInfo::Other), OWNER_ID, "OBSERVER"), Route::Refused(BotError::InvalidChannelSource));
    assert_eq!(
        route_message(&None, OWNER_ID, "OBSERVER"),
        Route::UnknownChannel { note: "A message was found in a null channel!".to_string() }
    );
}

#[test]
fn scanning_skips_own_directory_and_blocked_sources() {
    let m = msg("user", "CH", Some("rvlt.gg/AbCd1234"));
    assert_eq!(check_for_invites("SERVER", &m, &ids()), ScanDecision::Scan("rvlt.gg/AbCd1234".to_string()));
    assert_eq!(check_for_invites(INDEX_SERVER, &m, &ids()), ScanDecision::Refuse(BotError::BlacklistedSource));
    let own = msg("OBSERVER", "CH", Some("x"));
    assert_eq!(check_for_invites("SERVER", &own, &ids()), ScanDecision::Refuse(BotError::BlacklistedSource));
    let bot = msg("BOT", "CH", Some("x"));
    assert_eq!(check_for_invites("SERVER", &bot, &ids()), ScanDecision::Refuse(BotError::BlacklistedSource));
    let blocked = msg("user", "01FD53QCD84PX7D2GBV5SBE09N", Some("x"));
    assert_eq!(check_for_invites("SERVER", &blocked, &ids()), ScanDecision::Refuse(BotError::BlacklistedSource));
    let empty = msg("user", "CH", None);
    assert_eq!(check_for_invites("SERVER", &empty, &ids()), ScanDecision::Refuse(BotError::NoMessage));
}

#[test]
fn invite_check_never_succeeds() {
    assert_eq!(finish_invite_check(Ok(())), Err(BotError::BlacklistedSource));
    assert_eq!(
        finish_invite_check(Err(IndexError::NoInvites)),
        Err(BotError::Index(IndexError::NoInvites))
    );
    assert_eq!(
        finish_invite_check(Err(IndexError::Http(ServiceError { kind: HttpFailure::Api, message: "x".to_string() }))),
        Err(BotError::Index(IndexError::Http(ServiceError { kind: HttpFailure::Api, message: "x".to_string() })))
    );
}

#[test]
fn notices_go_to_saved_notes_and_owner_conversation() {
    assert_eq!(notes_channel(&ChannelInfo::SavedMessages { id: "N".to_string() }), Some("N".to_string()));
    assert_eq!(notes_channel(&ChannelInfo::DirectMessage { id: "D".to_string() }), None);
    assert_eq!(owner_channel(&ChannelInfo::DirectMessage { id: "D".to_string() }), Some("D".to_string()));
    assert_eq!(owner_channel(&ChannelInfo::SavedMessages { id: "N".to_string() }), None);
    assert_eq!(owner_channel(&ChannelInfo::Other), None);
}

#[test]
fn commands_are_read_by_keyword() {
    let r = Rippers::compile().unwrap();
    let plan = |t: &str| plan_command(&r, &Some(t.to_string()));
    assert_eq!(plan("ping"), Command::Ping);
    assert_eq!(plan("ping observe"), Command::Ping);
    assert_eq!(plan("observe rvlt.gg/AbCd1234"), Command::Observe { invite: "AbCd1234".to_string() });
    assert_eq!(plan("observe something"), Command::Nothing);
    assert_eq!(
        plan("leave 01HQPN9X7TJPYR25X5XZQH5AAR"),
        Command::Leave { server: "01HQPN9X7TJPYR25X5XZQH5AAR".to_string() }
    );
    assert_eq!(plan("leave now"), Command::Nothing);
    assert_eq!(
        plan("forceIndex rvlt.gg/AbCd1234"),
        Command::ForceIndex { text: "forceIndex rvlt.gg/AbCd1234".to_string() }
    );
    assert_eq!(plan("hello"), Command::Nothing);
    assert_eq!(plan(" ping"), Command::Nothing);
    assert_eq!(plan_command(&r, &None), Command::Nothing);
}

#[test]
fn observe_outcomes_are_told() {
    assert_eq!(
        observe_notices("AbCd1234", &Ok(())),
        Notices { owner: "Aye, observing...".to_string(), notes: "Started listening via invite: AbCd1234".to_string() }
    );
    assert_eq!(
        observe_notices("AbCd1234", &Err(HttpFailure::Api)),
        Notices { owner: "Nah! Can't join!".to_string(), notes: "Failed to join invite: AbCd1234".to_string() }
    );
}

#[test]
fn leave_outcomes_are_told_by_failure_kind() {
    let id = "01HQPN9X7TJPYR25X5XZQH5AAR";
    assert_eq!(
        leave_notices(id, &Ok(())),
        Notices { owner: "Aye, stopped observing.".to_string(), notes: format!("Stopped listening in: {id}") }
    );
    assert_eq!(
        leave_notices(id, &Err(HttpFailure::Serialization)),
        Notices { owner: "Nah! I'm stuck!".to_string(), notes: format!("Failed to leave: {id}") }
    );
    assert_eq!(
        leave_notices(id, &Err(HttpFailure::HttpRequest)),
        Notices { owner: "Aye, I think that worked.".to_string(), notes: format!("Left: {id}") }
    );
    assert_eq!(
        leave_notices(id, &Err(HttpFailure::Api)),
        Notices { owner: "Nah! I'm not there!".to_string(), notes: format!("Already left: {id}") }
    );
}

#[test]
fn force_index_success_is_told() {
    assert_eq!(force_index_notice(&Ok(())), Some("Aye, server indexed.".to_string()));
    assert_eq!(force_index_notice(&Err(IndexError::NoInvites)), None);
}

#[test]
fn notes_end_with_the_target() {
    for r in [Ok(()), Err(HttpFailure::Api), Err(HttpFailure::HttpRequest), Err(HttpFailure::Serialization)] {
        assert!(leave_notices("TARGET", &r).notes.ends_with("TARGET"));
        assert!(observe_notices("TARGET", &r).notes.ends_with("TARGET"));
    }
}

#[test]
fn commands_are_read_from_given_captures() {
    let code = Some("C0DE1234".to_string());
    let id = Some("01HQPN9X7TJPYR25X5XZQH5AAR".to_string());
    assert_eq!(read_command("observe x", code.clone(), None), Command::Observe { invite: "C0DE1234".to_string() });
    assert_eq!(read_command("observe x", None, id.clone()), Command::Nothing);
    assert_eq!(read_command("leave x", code.clone(), id.clone()), Command::Leave { server: "01HQPN9X7TJPYR25X5XZQH5AAR".to_string() });
    assert_eq!(read_command("leave x", code.clone(), None), Command::Nothing);
    assert_eq!(read_command("ping", code.clone(), id.clone()), Command::Ping);
    assert_eq!(read_command("forceIndex y", None, None), Command::ForceIndex { text: "forceIndex y".to_string() });
    assert_eq!(read_command("other", code, id), Command::Nothing);
}
