//! Character-level scanners over the settings text: whitespace runs, tag
//! names, and element text. Each exec scanner returns exactly the position
//! that its spec counterpart defines.

use vstd::prelude::*;

verus! {

/// Whitespace as the settings grammar knows it.
pub open spec fn is_xml_ws(c: char) -> bool {
    c == ' ' || c == '\t' || c == '\r' || c == '\n'
}

/// The first position at or after `i` holding a character that is not
/// whitespace, or the end of the text.
pub open spec fn ws_end(s: Seq<char>, i: int) -> int
    decreases s.len() - i,
{
    if i < 0 || i >= s.len() {
        i
    } else if is_xml_ws(s[i]) {
        ws_end(s, i + 1)
    } else {
        i
    }
}

fn is_ws_char(c: char) -> (r: bool)
    ensures
        r == is_xml_ws(c),
{
    c == ' ' || c == '\t' || c == '\r' || c == '\n'
}

/// Characters a tag name may consist of: ASCII letters and digits, and the
/// punctuation XML allows in simple names.
pub open spec fn is_name_char(c: char) -> bool {
    ('a' <= c && c <= 'z') || ('A' <= c && c <= 'Z') || ('0' <= c && c <= '9') || c == '_' || c
        == '-' || c == '.' || c == ':'
}

/// The first position at or after `i` holding a character that cannot stand
/// in a tag name, or the end of the text.
pub open spec fn name_end(s: Seq<char>, i: int) -> int
    decreases s.len() - i,
{
    if i < 0 || i >= s.len() {
        i
    } else if is_name_char(s[i]) {
        name_end(s, i + 1)
    } else {
        i
    }
}

/// The first position at or after `i` holding exactly `c`, or the end of the
/// text.
pub open spec fn stop_at(s: Seq<char>, i: int, c: char) -> int
    decreases s.len() - i,
{
    if i < 0 || i >= s.len() {
        i
    } else if s[i] == c {
        i
    } else {
        stop_at(s, i + 1, c)
    }
}

pub proof fn lemma_ws_end_bounds(s: Seq<char>, i: int)
    requires
        0 <= i <= s.len(),
    ensures
        i <= ws_end(s, i) <= s.len(),
    decreases s.len() - i,
{
    if i < s.len() && is_xml_ws(s[i]) {
        lemma_ws_end_bounds(s, i + 1);
    }
}

pub proof fn lemma_name_end_bounds(s: Seq<char>, i: int)
    requires
        0 <= i <= s.len(),
    ensures
        i <= name_end(s, i) <= s.len(),
    decreases s.len() - i,
{
    if i < s.len() && is_name_char(s[i]) {
        lemma_name_end_bounds(s, i + 1);
    }
}

pub proof fn lemma_stop_at_bounds(s: Seq<char>, i: int, c: char)
    requires
        0 <= i <= s.len(),
    ensures
        i <= stop_at(s, i, c) <= s.len(),
    decreases s.len() - i,
{
    if i < s.len() && s[i] != c {
        lemma_stop_at_bounds(s, i + 1, c);
    }
}

fn is_name_char_exec(c: char) -> (r: bool)
    ensures
        r == is_name_char(c),
{
    ('a' <= c && c <= 'z') || ('A' <= c && c <= 'Z') || ('0' <= c && c <= '9') || c == '_' || c
        == '-' || c == '.' || c == ':'
}

/// Skips a whitespace run.
pub fn skip_ws(s: &str, i: usize, len: usize) -> (r: usize)
    requires
        len == s@.len(),
        i <= len,
    ensures
        r == ws_end(s@, i as int),
        i <= r <= len,
{
    let mut j = i;
    while j < len && is_ws_char(s.get_char(j))
        invariant
            len == s@.len(),
            i <= j <= len,
            ws_end(s@, i as int) == ws_end(s@, j as int),
        decreases len - j,
    {
        j = j + 1;
    }
    j
}

/// Scans a tag-name run.
pub fn scan_name(s: &str, i: usize, len: usize) -> (r: usize)
    requires
        len == s@.len(),
        i <= len,
    ensures
        r == name_end(s@, i as int),
        i <= r <= len,
{
    let mut j = i;
    while j < len && is_name_char_exec(s.get_char(j))
        invariant
            len == s@.len(),
            i <= j <= len,
            name_end(s@, i as int) == name_end(s@, j as int),
        decreases len - j,
    {
        j = j + 1;
    }
    j
}

/// Scans up to the next occurrence of `c`.
pub fn scan_to(s: &str, i: usize, len: usize, c: char) -> (r: usize)
    requires
        len == s@.len(),
        i <= len,
    ensures
        r == stop_at(s@, i as int, c),
        i <= r <= len,
        r < len ==> s@[r as int] == c,
{
    let mut j = i;
    while j < len && s.get_char(j) != c
        invariant
            len == s@.len(),
            i <= j <= len,
            stop_at(s@, i as int, c) == stop_at(s@, j as int, c),
        decreases len - j,
    {
        j = j + 1;
    }
    j
}

} // verus!
