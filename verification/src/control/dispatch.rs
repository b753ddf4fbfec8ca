//! The decisions of the bot's update loop: which command a message
//! names, and which registered pattern a callback query matches. The
//! loop itself is transport plumbing and lives outside this library;
//! it hands the text in and acts on what comes back.

use vstd::prelude::*;
use vstd::string::{StrSliceExecFns, StringExecFns};

verus! {

/// The whitespace that separates a command from its arguments.
pub open spec fn spec_is_space(c: char) -> bool {
    c == ' ' || c == '\t' || c == '\n' || c == '\r'
}

/// The first index at or after `from` holding a non-space character,
/// or the length when only spaces remain.
pub open spec fn spec_skip_spaces(s: Seq<char>, from: int) -> int
    decreases s.len() - from,
{
    if from < 0 || from >= s.len() {
        s.len() as int
    } else if !spec_is_space(s[from]) {
        from
    } else {
        spec_skip_spaces(s, from + 1)
    }
}

/// The first index at or after `from` holding a space, or the length
/// when none follows.
pub open spec fn spec_find_space(s: Seq<char>, from: int) -> int
    decreases s.len() - from,
{
    if from < 0 || from >= s.len() {
        s.len() as int
    } else if spec_is_space(s[from]) {
        from
    } else {
        spec_find_space(s, from + 1)
    }
}

/// The leading whitespace-delimited token of a text, if any: what a
/// command dispatcher looks up in its handler table.
pub open spec fn spec_command_token(s: Seq<char>) -> Option<Seq<char>> {
    let start = spec_skip_spaces(s, 0);
    if start >= s.len() {
        None
    } else {
        Some(s.subrange(start, spec_find_space(s, start)))
    }
}

/// Whether one character sequence begins the other.
pub open spec fn spec_is_prefix(prefix: Seq<char>, s: Seq<char>) -> bool {
    prefix.len() <= s.len() && s.subrange(0, prefix.len() as int) == prefix
}

fn is_space(c: char) -> (r: bool)
    ensures
        r == spec_is_space(c),
{
    c == ' ' || c == '\t' || c == '\n' || c == '\r'
}

/// Extract the leading whitespace-delimited token of a message text:
/// the command the dispatcher looks up.
pub fn command_token(text: &str) -> (r: Option<String>)
    ensures
        r is Some <==> spec_command_token(text@) is Some,
        r matches Some(t) ==> Some(t@) == spec_command_token(text@),
{
    let n = text.unicode_len();
    let mut start: usize = 0;
    while start < n && is_space(text.get_char(start))
        invariant
            0 <= start <= n,
            n == text@.len(),
            spec_skip_spaces(text@, 0) == spec_skip_spaces(text@, start as int),
        decreases n - start,
    {
        start = start + 1;
    }
    if start >= n {
        return None;
    }
    let mut end: usize = start;
    while end < n && !is_space(text.get_char(end))
        invariant
            start <= end <= n,
            n == text@.len(),
            spec_find_space(text@, start as int) == spec_find_space(text@, end as int),
        decreases n - end,
    {
        end = end + 1;
    }
    let token = text.substring_char(start, end);
    Some(token.to_owned())
}

/// Check whether a pattern begins the callback data.
pub fn starts_with(data: &str, pattern: &str) -> (r: bool)
    ensures
        r == spec_is_prefix(pattern@, data@),
{
    let pattern_len = pattern.unicode_len();
    if pattern_len > data.unicode_len() {
        return false;
    }
    let mut i: usize = 0;
    while i < pattern_len
        invariant
            0 <= i <= pattern_len,
            pattern_len == pattern@.len(),
            pattern_len <= data@.len(),
            forall|j: int| 0 <= j < i ==> data@[j] == pattern@[j],
        decreases pattern_len - i,
    {
        if data.get_char(i) != pattern.get_char(i) {
            proof {
                assert(data@.subrange(0, pattern@.len() as int)[i as int] != pattern@[i as int]);
            }
            return false;
        }
        i = i + 1;
    }
    proof {
        assert(data@.subrange(0, pattern@.len() as int) =~= pattern@);
    }
    true
}

/// Find the handler a callback query goes to: the index of the first
/// registered pattern that begins the data, if any.
pub fn match_callback(patterns: &Vec<String>, data: &str) -> (r: Option<usize>)
    ensures
        r matches Some(i) ==> {
            &&& i < patterns@.len()
            &&& spec_is_prefix(patterns@[i as int]@, data@)
            &&& forall|j: int| 0 <= j < i ==> !spec_is_prefix((#[trigger] patterns@[j])@, data@)
        },
        r is None ==> forall|j: int|
            0 <= j < patterns@.len() ==> !spec_is_prefix((#[trigger] patterns@[j])@, data@),
{
    let n = patterns.len();
    let mut i: usize = 0;
    while i < n
        invariant
            0 <= i <= n,
            n == patterns@.len(),
            forall|j: int| 0 <= j < i ==> !spec_is_prefix((#[trigger] patterns@[j])@, data@),
        decreases n - i,
    {
        if starts_with(data, patterns[i].as_str()) {
            return Some(i);
        }
        i = i + 1;
    }
    None
}

} // verus!
