//! The fixed identities, names and patterns the bot works with.

use vstd::prelude::*;

use crate::text::same_text;

verus! {

/// The account whose direct messages are obeyed as commands.
pub const OWNER_ID: &'static str = "01GV7GN0H4JT7EWG5GY64RA2VV";

/// The directory server in which every discovered server gets a channel.
pub const INDEX_SERVER: &'static str = "01HQPN9X7TJPYR25X5XZQH5AAR";

/// Title of the category of the directory server that holds the index channels.
pub const INDEX_CATEGORY: &'static str = "Pit Directory";

/// A test channel that refuses invites.
pub const BLOCKED_TEST_CHANNEL: &'static str = "01HBPSCHW964KDCGF7RC4HCCSR";

/// The public "Submit to Discover" channel.
pub const BLOCKED_DISCOVER_CHANNEL: &'static str = "01FD53QCD84PX7D2GBV5SBE09N";

/// The public "Looking for Group" channel.
pub const BLOCKED_LFG_CHANNEL: &'static str = "01HC0P7QBKYPHH97D1ZMD9E9BC";

/// The name of the group that each pattern captures.
pub const LINK_GROUP: &'static str = "link";

/// A whole invite link: `rvlt.gg/` and an eight-character code, captured as `link`.
pub const LINK_PATTERN: &'static str = "(?<link>rvlt.gg\\/[\\w|\\d]{8})";

/// The eight-character code of an invite link, captured as `link`.
pub const LINK_ID_PATTERN: &'static str = "rvlt.gg\\/(?<link>[\\w|\\d]{8})";

/// A 26-character identifier (digits and capital letters), captured as `link`.
pub const ULID_PATTERN: &'static str = "(?<link>[\\dA-Z]{26})";

/// Channels whose messages are never scanned for invites.
pub open spec fn blocked_channels() -> Seq<Seq<char>> {
    seq![BLOCKED_TEST_CHANNEL@, BLOCKED_DISCOVER_CHANNEL@, BLOCKED_LFG_CHANNEL@]
}

/// Whether messages of `channel` are kept out of invite scanning.
pub fn is_blocked_channel(channel: &str) -> (res: bool)
    ensures
        res == blocked_channels().contains(channel@),
{
    let a = same_text(channel, BLOCKED_TEST_CHANNEL);
    let b = same_text(channel, BLOCKED_DISCOVER_CHANNEL);
    let c = same_text(channel, BLOCKED_LFG_CHANNEL);
    proof {
        let s = blocked_channels();
        assert(s[0] == BLOCKED_TEST_CHANNEL@);
        assert(s[1] == BLOCKED_DISCOVER_CHANNEL@);
        assert(s[2] == BLOCKED_LFG_CHANNEL@);
        if s.contains(channel@) {
            let i = choose|i: int| 0 <= i < s.len() && s[i] == channel@;
            assert(i == 0 || i == 1 || i == 2);
        }
    }
    a || b || c
}

} // verus!
