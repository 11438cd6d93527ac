//! Shaping of the status line: the commit message to show, trimmed of
//! surrounding whitespace, with a fallback when the commit has none.

use vstd::prelude::*;

verus! {

/// Whitespace as `str::trim` removes it: the characters with the Unicode
/// `White_Space` property.
pub open spec fn is_trim_ws(c: char) -> bool {
    c == ' ' || c == '\t' || c == '\n' || c == '\r' || c == '\u{000B}' || c == '\u{000C}' || c
        == '\u{0085}' || c == '\u{00A0}' || c == '\u{1680}' || ('\u{2000}' <= c && c <= '\u{200A}')
        || c == '\u{2028}' || c == '\u{2029}' || c == '\u{202F}' || c == '\u{205F}' || c
        == '\u{3000}'
}

fn is_trim_ws_char(c: char) -> (r: bool)
    ensures
        r == is_trim_ws(c),
{
    c == ' ' || c == '\t' || c == '\n' || c == '\r' || c == '\u{000B}' || c == '\u{000C}' || c
        == '\u{0085}' || c == '\u{00A0}' || c == '\u{1680}' || ('\u{2000}' <= c && c <= '\u{200A}')
        || c == '\u{2028}' || c == '\u{2029}' || c == '\u{202F}' || c == '\u{205F}' || c
        == '\u{3000}'
}

/// The first position at or after `i` holding a character that is not
/// whitespace, or the end of the text.
pub open spec fn trim_start_idx(s: Seq<char>, i: int) -> int
    decreases s.len() - i,
{
    if i < 0 || i >= s.len() {
        i
    } else if is_trim_ws(s[i]) {
        trim_start_idx(s, i + 1)
    } else {
        i
    }
}

/// Where the whitespace run that ends at `i` begins: the position after the
/// last non-whitespace character left of `i`.
pub open spec fn trim_end_idx(s: Seq<char>, i: int) -> int
    decreases i,
{
    if i <= 0 || i > s.len() {
        i
    } else if is_trim_ws(s[i - 1]) {
        trim_end_idx(s, i - 1)
    } else {
        i
    }
}

/// `s` with leading and trailing whitespace removed.
pub open spec fn trimmed(s: Seq<char>) -> Seq<char> {
    let start = trim_start_idx(s, 0);
    if start == s.len() {
        Seq::empty()
    } else {
        s.subrange(start, trim_end_idx(s, s.len() as int))
    }
}

/// Removes leading and trailing whitespace, as `str::trim` does.
pub fn trim_text(s: &str) -> (r: String)
    ensures
        r@ == trimmed(s@),
{
    let len = s.unicode_len();
    let mut start: usize = 0;
    while start < len && is_trim_ws_char(s.get_char(start))
        invariant
            len == s@.len(),
            start <= len,
            trim_start_idx(s@, 0) == trim_start_idx(s@, start as int),
        decreases len - start,
    {
        start = start + 1;
    }
    if start == len {
        proof {
            assert(trimmed(s@) =~= Seq::<char>::empty());
        }
        return String::new();
    }
    let mut end: usize = len;
    while end > start && is_trim_ws_char(s.get_char(end - 1))
        invariant
            len == s@.len(),
            start < len,
            start < end <= len,
            start == trim_start_idx(s@, 0),
            !is_trim_ws(s@[start as int]),
            trim_end_idx(s@, len as int) == trim_end_idx(s@, end as int),
        decreases end,
    {
        end = end - 1;
    }
    assert(trim_end_idx(s@, end as int) == end as int);
    let piece = s.substring_char(start, end);
    proof {
        assert(trimmed(s@) =~= s@.subrange(start as int, end as int));
    }
    piece.to_owned()
}

/// The message the status line shows for the head commit: the commit's own
/// message trimmed of surrounding whitespace, or a fixed note when the commit
/// carries none.
pub fn choose_message(msg: Option<&str>) -> (r: String)
    ensures
        match msg {
            Some(m) => r@ == trimmed(m@),
            None => r@ == "No commit message"@,
        },
{
    match msg {
        Some(m) => trim_text(m),
        None => {
            proof {
                reveal_strlit("No commit message");
                assert(trimmed("No commit message"@) =~= "No commit message"@);
            }
            trim_text("No commit message")
        },
    }
}

} // verus!
