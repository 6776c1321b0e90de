//! Character-level string helpers with exact contracts.

use vstd::prelude::*;

verus! {

/// `prefix` is an initial segment of `s`.
pub open spec fn starts_with(s: Seq<char>, prefix: Seq<char>) -> bool {
    prefix.len() <= s.len() && s.subrange(0, prefix.len() as int) == prefix
}

/// `text` ends with `tail`.
pub open spec fn ends_with(text: Seq<char>, tail: Seq<char>) -> bool {
    tail.len() <= text.len() && text.subrange(text.len() - tail.len(), text.len() as int) == tail
}

/// A text ends with what was appended to it.
pub proof fn lemma_ends_with(head: Seq<char>, tail: Seq<char>)
    ensures
        ends_with(head + tail, tail),
{
    assert((head + tail).subrange(head.len() as int, (head + tail).len() as int) =~= tail);
}

/// Whether `s` starts with `prefix`, character by character.
pub fn has_prefix(s: &str, prefix: &str) -> (res: bool)
    ensures
        res == starts_with(s@, prefix@),
{
    let n = prefix.unicode_len();
    let m = s.unicode_len();
    if n > m {
        return false;
    }
    let mut i: usize = 0;
    while i < n
        invariant
            n == prefix@.len(),
            m == s@.len(),
            n <= m,
            i <= n,
            forall|j: int| 0 <= j < i ==> s@[j] == prefix@[j],
        decreases n - i,
    {
        if s.get_char(i) != prefix.get_char(i) {
            assert(s@.subrange(0, n as int)[i as int] != prefix@[i as int]);
            return false;
        }
        i += 1;
    }
    assert(s@.subrange(0, n as int) =~= prefix@);
    true
}

/// Whether `a` and `b` hold the same characters.
pub fn same_text(a: &str, b: &str) -> (res: bool)
    ensures
        res == (a@ == b@),
{
    let n = a.unicode_len();
    if n != b.unicode_len() {
        return false;
    }
    let mut i: usize = 0;
    while i < n
        invariant
            n == a@.len(),
            n == b@.len(),
            i <= n,
            forall|j: int| 0 <= j < i ==> a@[j] == b@[j],
        decreases n - i,
    {
        if a.get_char(i) != b.get_char(i) {
            return false;
        }
        i += 1;
    }
    assert(a@ =~= b@);
    true
}

/// `head` followed by `tail`, as a new string.
pub fn join_text(head: &str, tail: &str) -> (res: String)
    ensures
        res@ == head@ + tail@,
{
    let s = head.to_owned();
    s.concat(tail)
}

} // verus!
