//! Pattern extraction with the `regex` crate.

use vstd::prelude::*;

use crate::config::{LINK_GROUP, LINK_ID_PATTERN, LINK_PATTERN, ULID_PATTERN};
use crate::model::opt_text;

verus! {

#[verifier::external_type_specification]
#[verifier::external_body]
pub struct ExRegex(regex::Regex);

#[verifier::external_type_specification]
#[verifier::external_body]
pub struct ExRegexError(regex::Error);

/// The text that the group named `group` matched, in the leftmost-first match
/// of the regular expression `pattern` in `text`, as `regex::Regex::captures`
/// and `Captures::name` report it; `None` when nothing matches or the group
/// takes no part.
pub uninterp spec fn group_capture(pattern: Seq<char>, group: Seq<char>, text: Seq<char>) -> Option<Seq<char>>;

/// Whether `regex::Regex::new` accepts `pattern`: it is valid syntax and
/// compiles within the crate's default size limit.
pub uninterp spec fn regex_accepts(pattern: Seq<char>) -> bool;

/// Calls `regex::Regex::new`. Claims only that it succeeds exactly on the
/// patterns it accepts (`regex_accepts`), which its documentation makes a
/// matter of the pattern alone; nothing is claimed of the regex or the error.
#[verifier::external_body]
fn compile_regex(pattern: &str) -> (res: Result<regex::Regex, regex::Error>)
    ensures
        res is Ok <==> regex_accepts(pattern@),
{
    regex::Regex::new(pattern)
}

/// A pattern that `regex::Regex::new` accepts, whose group `link` is
/// extracted from texts.
pub struct LinkRipper {
    pattern: String,
}

impl LinkRipper {
    #[verifier::type_invariant]
    spec fn accepted_pattern(self) -> bool {
        regex_accepts(self.pattern@)
    }

    /// The pattern this ripper was compiled from.
    pub closed spec fn pattern(&self) -> Seq<char> {
        self.pattern@
    }

    /// Checks that `regex::Regex::new` accepts `pattern`; the error is the one it gives.
    pub fn compile(pattern: &str) -> (res: Result<LinkRipper, regex::Error>)
        ensures
            res is Ok <==> regex_accepts(pattern@),
            res matches Ok(r) ==> r.pattern() == pattern@,
    {
        match compile_regex(pattern) {
            Ok(_) => Ok(LinkRipper { pattern: pattern.to_owned() }),
            Err(e) => Err(e),
        }
    }
}

/// Compiles `pattern` with `regex::Regex::new`, calls `Regex::captures` on
/// `text` and takes the group named `group` (`Captures::name`,
/// `Match::as_str`). Claims that the result is `group_capture` of `pattern`,
/// `group` and `text`; `pattern` is one that `Regex::new` accepts.
#[verifier::external_body]
fn capture_group(pattern: &str, group: &str, text: &str) -> (res: Option<String>)
    requires
        regex_accepts(pattern@),
    ensures
        opt_text(res) == group_capture(pattern@, group@, text@),
{
    let regex = regex::Regex::new(pattern).ok()?;
    let caps = regex.captures(text)?;
    let found = caps.name(group)?;
    Some(found.as_str().to_owned())
}

/// The text that the group `link` of `ripper` matches in `msg`, searched
/// for in the whole of `msg`.
pub fn rip_pattern_from_text(ripper: &LinkRipper, msg: &str) -> (res: Option<String>)
    ensures
        opt_text(res) == group_capture(ripper.pattern(), LINK_GROUP@, msg@),
{
    proof { use_type_invariant(ripper); }
    capture_group(ripper.pattern.as_str(), LINK_GROUP, msg)
}

/// The three patterns the bot extracts with, each checked once to compile.
pub struct Rippers {
    link: LinkRipper,
    link_id: LinkRipper,
    ulid: LinkRipper,
}

impl Rippers {
    #[verifier::type_invariant]
    spec fn compiled_from_fixed_patterns(self) -> bool {
        &&& self.link.pattern() == LINK_PATTERN@
        &&& self.link_id.pattern() == LINK_ID_PATTERN@
        &&& self.ulid.pattern() == ULID_PATTERN@
    }

    /// The pattern whole invite links are found with.
    pub closed spec fn link_pattern(&self) -> Seq<char> {
        self.link.pattern()
    }

    /// The pattern invite codes are found with.
    pub closed spec fn link_id_pattern(&self) -> Seq<char> {
        self.link_id.pattern()
    }

    /// The pattern server identifiers are found with.
    pub closed spec fn ulid_pattern(&self) -> Seq<char> {
        self.ulid.pattern()
    }

    /// Compiles the invite-link, invite-code and identifier patterns.
    pub fn compile() -> (res: Result<Rippers, regex::Error>)
        ensures
            res is Ok <==> {
                &&& regex_accepts(LINK_PATTERN@)
                &&& regex_accepts(LINK_ID_PATTERN@)
                &&& regex_accepts(ULID_PATTERN@)
            },
            res matches Ok(r) ==> {
                &&& r.link_pattern() == LINK_PATTERN@
                &&& r.link_id_pattern() == LINK_ID_PATTERN@
                &&& r.ulid_pattern() == ULID_PATTERN@
            },
    {
        let link = LinkRipper::compile(LINK_PATTERN)?;
        let link_id = LinkRipper::compile(LINK_ID_PATTERN)?;
        let ulid = LinkRipper::compile(ULID_PATTERN)?;
        Ok(Rippers { link, link_id, ulid })
    }

    /// The whole invite link in `text`.
    pub fn invite_link(&self, text: &str) -> (res: Option<String>)
        ensures
            opt_text(res) == group_capture(LINK_PATTERN@, LINK_GROUP@, text@),
    {
        proof { use_type_invariant(self); }
        rip_pattern_from_text(&self.link, text)
    }

    /// The code of the invite link in `text`.
    pub fn invite_code(&self, text: &str) -> (res: Option<String>)
        ensures
            opt_text(res) == group_capture(LINK_ID_PATTERN@, LINK_GROUP@, text@),
    {
        proof { use_type_invariant(self); }
        rip_pattern_from_text(&self.link_id, text)
    }

    /// The first 26-character identifier in `text`.
    pub fn identifier(&self, text: &str) -> (res: Option<String>)
        ensures
            opt_text(res) == group_capture(ULID_PATTERN@, LINK_GROUP@, text@),
    {
        proof { use_type_invariant(self); }
        rip_pattern_from_text(&self.ulid, text)
    }
}

} // verus!
