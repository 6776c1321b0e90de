use pit_indexer::config::{is_blocked_channel, INDEX_SERVER, LINK_PATTERN, OWNER_ID};
use pit_indexer::error::{BotError, IndexError};
use pit_indexer::model::{HttpFailure, ServiceError};
use pit_indexer::ripper::{rip_pattern_from_text, LinkRipper, Rippers};
use pit_indexer::text::{has_prefix, join_text, same_text};

#[test]
fn prefix_checks_characters() {
    assert!(has_prefix("observe rvlt.gg/abc", "observe"));
    assert!(has_prefix("ping", "ping"));
    assert!(!has_prefix("pin", "ping"));
    assert!(!has_prefix("Ping", "ping"));
    assert!(has_prefix("anything", ""));
    assert!(has_prefix("épée", "ép"));
}

#[test]
fn same_text_compares_all_characters() {
    assert!(same_text(OWNER_ID, "01GV7GN0H4JT7EWG5GY64RA2VV"));
    assert!(!same_text(OWNER_ID, "01GV7GN0H4JT7EWG5GY64RA2VW"));
    assert!(!same_text("abc", "abcd"));
    assert!(same_text("", ""));
}

#[test]
fn join_text_appends() {
    assert_eq!(join_text("Left: ", "XYZ"), "Left: XYZ");
    assert_eq!(join_text("", ""), "");
}

#[test]
fn blocked_channels_are_the_three_public_ones() {
    assert!(is_blocked_channel("01HBPSCHW964KDCGF7RC4HCCSR"));
    assert!(is_blocked_channel("01FD53QCD84PX7D2GBV5SBE09N"));
    assert!(is_blocked_channel("01HC0P7QBKYPHH97D1ZMD9E9BC"));
    assert!(!is_blocked_channel(INDEX_SERVER));
    assert!(!is_blocked_channel(""));
}

#[test]
fn invite_link_is_found_inside_text() {
    let r = Rippers::compile().unwrap();
    assert_eq!(r.invite_link("join us at rvlt.gg/AbCd1234 now"), Some("rvlt.gg/AbCd1234".to_string()));
    assert_eq!(r.invite_link("https://rvlt.gg/Xy9_zz01 and rvlt.gg/22222222"), Some("rvlt.gg/Xy9_zz01".to_string()));
    assert_eq!(r.invite_link("rvlt.gg/short"), None);
    assert_eq!(r.invite_link("no invite here"), None);
}

#[test]
fn invite_code_is_the_eight_characters() {
    let r = Rippers::compile().unwrap();
    assert_eq!(r.invite_code("observe rvlt.gg/AbCd1234"), Some("AbCd1234".to_string()));
    assert_eq!(r.invite_code("observe rvlt.gg/AbCd123456"), Some("AbCd1234".to_string()));
    assert_eq!(r.invite_code("observe nothing"), None);
}

#[test]
fn identifier_is_twenty_six_characters() {
    let r = Rippers::compile().unwrap();
    assert_eq!(
        r.identifier("leave 01HQPN9X7TJPYR25X5XZQH5AAR please"),
        Some("01HQPN9X7TJPYR25X5XZQH5AAR".to_string())
    );
    assert_eq!(r.identifier("leave 01hqpn9x7tjpyr25x5xzqh5aar"), None);
    assert_eq!(r.identifier("leave ABC"), None);
}

#[test]
fn ripper_extracts_named_group_of_any_pattern() {
    let ripper = LinkRipper::compile("id=(?<link>[0-9]+)").unwrap();
    assert_eq!(rip_pattern_from_text(&ripper, "x id=42 y"), Some("42".to_string()));
    assert_eq!(rip_pattern_from_text(&ripper, "x id= y"), None);
    let no_group = LinkRipper::compile("[0-9]+").unwrap();
    assert_eq!(rip_pattern_from_text(&no_group, "123"), None);
}

#[test]
fn invalid_pattern_is_refused() {
    assert!(LinkRipper::compile("(unclosed").is_err());
    assert!(LinkRipper::compile(LINK_PATTERN).is_ok());
}

#[test]
fn errors_describe_themselves() {
    assert_eq!(BotError::BlacklistedSource.describe(), "Blacklisted Source");
    assert_eq!(BotError::NoMessage.describe(), "No message!");
    assert_eq!(BotError::NotOwner.describe(), "Not the owner");
    assert_eq!(BotError::InvalidChannelSource.describe(), "Not a valid channel source");
    assert_eq!(BotError::Index(IndexError::NoInvites).describe(), "No invites!");
    assert_eq!(IndexError::NotServerInvite.describe(), "Not a server invite!");
    assert_eq!(IndexError::NoCategories.describe(), "No categories found in the Index server!");
    assert_eq!(IndexError::Unresolved.describe(), "Fetching invite failed somehow?!");
    let failed = IndexError::Http(ServiceError { kind: HttpFailure::Api, message: "Error returned from API: NotFound".to_string() });
    assert_eq!(failed.describe(), "Error returned from API: NotFound");
    assert_eq!(BotError::Index(failed).describe(), "Error returned from API: NotFound");
}
