//! The settings file: its grammar, its parser, and the validity rule on the
//! parsed values.
//!
//! The settings text is a small XML document. After optional whitespace and
//! an optional `<?...>` declaration, a root element of any simple name holds
//! a sequence of simple elements `<name>text</name>`, separated by optional
//! whitespace. The elements named `url`, `path` and `branch` must each occur
//! exactly once; elements of other names are skipped. Names carry no
//! attributes, text runs up to the next `<`, and nothing but whitespace may
//! follow the closing root tag. The grammar is written out as spec functions
//! below, and the parser returns exactly what they define.

use vstd::prelude::*;

use crate::scan::is_xml_ws;
use crate::scan::lemma_name_end_bounds;
use crate::scan::lemma_stop_at_bounds;
use crate::scan::lemma_ws_end_bounds;
use crate::scan::name_end;
use crate::scan::scan_name;
use crate::scan::scan_to;
use crate::scan::skip_ws;
use crate::scan::stop_at;
use crate::scan::ws_end;

verus! {

/// The three configuration strings the tool runs on.
#[derive(Clone, Debug)]
pub struct Settings {
    pub url: String,
    pub path: String,
    pub branch: String,
}

/// Why a settings text was rejected.
#[derive(Clone, Copy, Debug, PartialEq, Eq, Structural)]
pub enum ParseError {
    /// The text is not a document of the settings grammar.
    Malformed,
    /// A closing tag does not repeat the name of its opening tag.
    MismatchedTag,
    /// One of the three settings elements occurs twice.
    DuplicateField,
    /// One of the three settings elements is absent.
    MissingField,
}

/// What parsing one element `<name>text</name>` at a position yields.
pub enum ElemParse {
    Found { name: Seq<char>, text: Seq<char>, next: int },
    Bad { err: ParseError },
}

/// What parsing a whole settings text yields.
pub enum SettingsParse {
    Parsed { url: Seq<char>, path: Seq<char>, branch: Seq<char> },
    Rejected { err: ParseError },
}

/// One element at position `i`: an opening tag, text free of `<`, and a
/// closing tag repeating the opening tag's name.
pub open spec fn spec_elem(s: Seq<char>, i: int) -> ElemParse {
    if !(0 <= i && i < s.len() && s[i] == '<') {
        ElemParse::Bad { err: ParseError::Malformed }
    } else {
        let ne = name_end(s, i + 1);
        if ne == i + 1 || ne >= s.len() || s[ne] != '>' {
            ElemParse::Bad { err: ParseError::Malformed }
        } else {
            let te = stop_at(s, ne + 1, '<');
            if te + 1 >= s.len() || s[te + 1] != '/' {
                ElemParse::Bad { err: ParseError::Malformed }
            } else {
                let ce = name_end(s, te + 2);
                if ce >= s.len() || s[ce] != '>' {
                    ElemParse::Bad { err: ParseError::Malformed }
                } else if s.subrange(te + 2, ce) != s.subrange(i + 1, ne) {
                    ElemParse::Bad { err: ParseError::MismatchedTag }
                } else {
                    ElemParse::Found {
                        name: s.subrange(i + 1, ne),
                        text: s.subrange(ne + 1, te),
                        next: ce + 1,
                    }
                }
            }
        }
    }
}

/// A found element lies within the text and makes progress.
proof fn lemma_spec_elem_next(s: Seq<char>, i: int)
    ensures
        spec_elem(s, i) matches ElemParse::Found { next, .. } ==> i < next <= s.len(),
{
    if 0 <= i && i < s.len() && s[i] == '<' {
        lemma_name_end_bounds(s, i + 1);
        let ne = name_end(s, i + 1);
        if !(ne == i + 1 || ne >= s.len() || s[ne] != '>') {
            lemma_stop_at_bounds(s, ne + 1, '<');
            let te = stop_at(s, ne + 1, '<');
            if !(te + 1 >= s.len() || s[te + 1] != '/') {
                lemma_name_end_bounds(s, te + 2);
            }
        }
    }
}

/// The elements inside the root, from position `i` on, with the fields seen
/// so far: either the closing root tag ends the document, or one more
/// element is read and recorded.
pub open spec fn spec_fields(
    s: Seq<char>,
    i: int,
    root: Seq<char>,
    url: Option<Seq<char>>,
    path: Option<Seq<char>>,
    branch: Option<Seq<char>>,
) -> SettingsParse
    decreases s.len() - i,
    when 0 <= i <= s.len()
    via spec_fields_decreases
{
    let j = ws_end(s, i);
    if j >= s.len() {
        SettingsParse::Rejected { err: ParseError::Malformed }
    } else if s[j] == '<' && j + 1 < s.len() && s[j + 1] == '/' {
        let ce = name_end(s, j + 2);
        if ce >= s.len() || s[ce] != '>' {
            SettingsParse::Rejected { err: ParseError::Malformed }
        } else if s.subrange(j + 2, ce) != root {
            SettingsParse::Rejected { err: ParseError::MismatchedTag }
        } else if ws_end(s, ce + 1) != s.len() {
            SettingsParse::Rejected { err: ParseError::Malformed }
        } else {
            match (url, path, branch) {
                (Some(u), Some(p), Some(b)) => SettingsParse::Parsed { url: u, path: p, branch: b },
                _ => SettingsParse::Rejected { err: ParseError::MissingField },
            }
        }
    } else {
        match spec_elem(s, j) {
            ElemParse::Bad { err } => SettingsParse::Rejected { err },
            ElemParse::Found { name, text, next } => {
                if name == "url"@ {
                    if url is Some {
                        SettingsParse::Rejected { err: ParseError::DuplicateField }
                    } else {
                        spec_fields(s, next, root, Some(text), path, branch)
                    }
                } else if name == "path"@ {
                    if path is Some {
                        SettingsParse::Rejected { err: ParseError::DuplicateField }
                    } else {
                        spec_fields(s, next, root, url, Some(text), branch)
                    }
                } else if name == "branch"@ {
                    if branch is Some {
                        SettingsParse::Rejected { err: ParseError::DuplicateField }
                    } else {
                        spec_fields(s, next, root, url, path, Some(text))
                    }
                } else {
                    spec_fields(s, next, root, url, path, branch)
                }
            },
        }
    }
}

#[via_fn]
proof fn spec_fields_decreases(
    s: Seq<char>,
    i: int,
    root: Seq<char>,
    url: Option<Seq<char>>,
    path: Option<Seq<char>>,
    branch: Option<Seq<char>>,
) {
    lemma_ws_end_bounds(s, i);
    let j = ws_end(s, i);
    if j < s.len() && !(s[j] == '<' && j + 1 < s.len() && s[j + 1] == '/') {
        lemma_spec_elem_next(s, j);
    }
}

/// The document from the root element on: an opening root tag of any simple
/// name, then its fields.
pub open spec fn spec_parse_root(s: Seq<char>, i: int) -> SettingsParse {
    if !(0 <= i && i < s.len() && s[i] == '<') {
        SettingsParse::Rejected { err: ParseError::Malformed }
    } else {
        let ne = name_end(s, i + 1);
        if ne == i + 1 || ne >= s.len() || s[ne] != '>' {
            SettingsParse::Rejected { err: ParseError::Malformed }
        } else {
            spec_fields(s, ne + 1, s.subrange(i + 1, ne), None, None, None)
        }
    }
}

/// A whole settings text: optional whitespace, an optional declaration
/// `<?...>` closed by the first `>`, optional whitespace, then the root
/// element.
pub open spec fn spec_parse(s: Seq<char>) -> SettingsParse {
    let i0 = ws_end(s, 0);
    if i0 < s.len() && i0 + 1 < s.len() && s[i0] == '<' && s[i0 + 1] == '?' {
        let g = stop_at(s, i0, '>');
        if g >= s.len() {
            SettingsParse::Rejected { err: ParseError::Malformed }
        } else {
            spec_parse_root(s, ws_end(s, g + 1))
        }
    } else {
        spec_parse_root(s, i0)
    }
}

/// Whether two ranges of the text hold the same characters.
fn ranges_equal(s: &str, a: usize, b: usize, c: usize, d: usize) -> (r: bool)
    requires
        a <= b <= s@.len(),
        c <= d <= s@.len(),
    ensures
        r == (s@.subrange(a as int, b as int) == s@.subrange(c as int, d as int)),
{
    let ghost left = s@.subrange(a as int, b as int);
    let ghost right = s@.subrange(c as int, d as int);
    if b - a != d - c {
        assert(left != right) by {
            assert(left.len() != right.len());
        }
        return false;
    }
    let n = b - a;
    let mut k: usize = 0;
    while k < n
        invariant
            n == b - a == d - c,
            b <= s@.len(),
            d <= s@.len(),
            k <= n,
            left == s@.subrange(a as int, b as int),
            right == s@.subrange(c as int, d as int),
            forall|m: int| 0 <= m < k ==> s@[a + m] == #[trigger] s@[c + m],
        decreases n - k,
    {
        if s.get_char(a + k) != s.get_char(c + k) {
            assert(left != right) by {
                if left == right {
                    assert(left[k as int] == right[k as int]);
                    assert(left[k as int] == s@[a + k]);
                    assert(right[k as int] == s@[c + k]);
                }
            }
            return false;
        }
        k = k + 1;
    }
    assert forall|m: int| 0 <= m < n implies left[m] == right[m] by {
        assert(left[m] == s@[a + m]);
        assert(right[m] == s@[c + m]);
    }
    assert(left =~= right);
    true
}

/// Whether a range of the text spells out the given name.
fn range_matches(s: &str, a: usize, b: usize, lit: &str) -> (r: bool)
    requires
        a <= b <= s@.len(),
    ensures
        r == (s@.subrange(a as int, b as int) == lit@),
{
    let ghost left = s@.subrange(a as int, b as int);
    let n = lit.unicode_len();
    if b - a != n {
        assert(left != lit@) by {
            assert(left.len() != lit@.len());
        }
        return false;
    }
    let mut k: usize = 0;
    while k < n
        invariant
            n == b - a == lit@.len(),
            b <= s@.len(),
            k <= n,
            left == s@.subrange(a as int, b as int),
            forall|m: int| 0 <= m < k ==> s@[a + m] == lit@[m],
        decreases n - k,
    {
        if s.get_char(a + k) != lit.get_char(k) {
            assert(left != lit@) by {
                if left == lit@ {
                    assert(left[k as int] == lit@[k as int]);
                    assert(left[k as int] == s@[a + k]);
                }
            }
            return false;
        }
        k = k + 1;
    }
    assert(left =~= lit@);
    true
}

/// Reads one element `<name>text</name>` at position `i`. On success the
/// result gives the name range, the text range, and the position after the
/// closing tag.
fn parse_element(s: &str, i: usize, len: usize) -> (r: Result<
    (usize, usize, usize, usize, usize),
    ParseError,
>)
    requires
        len == s@.len(),
        i < len,
    ensures
        match r {
            Ok(t) => spec_elem(s@, i as int) == (ElemParse::Found {
                name: s@.subrange(t.0 as int, t.1 as int),
                text: s@.subrange(t.2 as int, t.3 as int),
                next: t.4 as int,
            }) && t.0 <= t.1 <= len && t.2 <= t.3 <= len && i < t.4 && t.4 <= len,
            Err(e) => spec_elem(s@, i as int) == (ElemParse::Bad { err: e }),
        },
{
    if s.get_char(i) != '<' {
        return Err(ParseError::Malformed);
    }
    let ne = scan_name(s, i + 1, len);
    if ne == i + 1 || ne >= len {
        return Err(ParseError::Malformed);
    }
    if s.get_char(ne) != '>' {
        return Err(ParseError::Malformed);
    }
    let te = scan_to(s, ne + 1, len, '<');
    if te >= len || te + 1 >= len {
        return Err(ParseError::Malformed);
    }
    if s.get_char(te + 1) != '/' {
        return Err(ParseError::Malformed);
    }
    let ce = scan_name(s, te + 2, len);
    if ce >= len {
        return Err(ParseError::Malformed);
    }
    if s.get_char(ce) != '>' {
        return Err(ParseError::Malformed);
    }
    if !ranges_equal(s, te + 2, ce, i + 1, ne) {
        return Err(ParseError::MismatchedTag);
    }
    Ok((i + 1, ne, ne + 1, te, ce + 1))
}

/// The view of an optional owned string.
pub open spec fn opt_view(o: Option<String>) -> Option<Seq<char>> {
    match o {
        Some(v) => Some(v@),
        None => None,
    }
}

/// Parses a settings text. The result is exactly what the grammar's spec
/// functions define: the three field texts on success, and the first
/// rejection the grammar meets otherwise.
pub fn parse_settings(s: &str) -> (r: Result<Settings, ParseError>)
    ensures
        match r {
            Ok(st) => spec_parse(s@) == (SettingsParse::Parsed {
                url: st.url@,
                path: st.path@,
                branch: st.branch@,
            }),
            Err(e) => spec_parse(s@) == (SettingsParse::Rejected { err: e }),
        },
{
    let len = s.unicode_len();
    let i0 = skip_ws(s, 0, len);
    let mut i1 = i0;
    if i0 < len && i0 + 1 < len && s.get_char(i0) == '<' && s.get_char(i0 + 1) == '?' {
        let g = scan_to(s, i0, len, '>');
        if g >= len {
            return Err(ParseError::Malformed);
        }
        i1 = skip_ws(s, g + 1, len);
    }
    // The root element's opening tag.
    if i1 >= len || s.get_char(i1) != '<' {
        return Err(ParseError::Malformed);
    }
    let ne = scan_name(s, i1 + 1, len);
    if ne == i1 + 1 || ne >= len {
        return Err(ParseError::Malformed);
    }
    if s.get_char(ne) != '>' {
        return Err(ParseError::Malformed);
    }
    let root_from = i1 + 1;
    let root_to = ne;
    let ghost root = s@.subrange(root_from as int, root_to as int);
    let mut pos: usize = ne + 1;
    let mut url: Option<String> = None;
    let mut path: Option<String> = None;
    let mut branch: Option<String> = None;
    assert(spec_parse(s@) == spec_fields(s@, pos as int, root, None, None, None));
    loop
        invariant
            len == s@.len(),
            root_from <= root_to <= len,
            root == s@.subrange(root_from as int, root_to as int),
            pos <= len,
            spec_parse(s@) == spec_fields(
                s@,
                pos as int,
                root,
                opt_view(url),
                opt_view(path),
                opt_view(branch),
            ),
        decreases len - pos,
    {
        let j = skip_ws(s, pos, len);
        if j >= len {
            return Err(ParseError::Malformed);
        }
        if s.get_char(j) == '<' && j + 1 < len && s.get_char(j + 1) == '/' {
            // The closing root tag ends the document.
            let ce = scan_name(s, j + 2, len);
            if ce >= len {
                return Err(ParseError::Malformed);
            }
            if s.get_char(ce) != '>' {
                return Err(ParseError::Malformed);
            }
            if !ranges_equal(s, j + 2, ce, root_from, root_to) {
                return Err(ParseError::MismatchedTag);
            }
            let t = skip_ws(s, ce + 1, len);
            if t != len {
                return Err(ParseError::Malformed);
            }
            match (url, path, branch) {
                (Some(u), Some(p), Some(b)) => {
                    return Ok(Settings { url: u, path: p, branch: b });
                },
                _ => {
                    return Err(ParseError::MissingField);
                },
            }
        } else {
            match parse_element(s, j, len) {
                Err(e) => {
                    return Err(e);
                },
                Ok((nf, nt, tf, tt, next)) => {
                    if range_matches(s, nf, nt, "url") {
                        if url.is_some() {
                            return Err(ParseError::DuplicateField);
                        }
                        url = Some(s.substring_char(tf, tt).to_owned());
                    } else if range_matches(s, nf, nt, "path") {
                        if path.is_some() {
                            return Err(ParseError::DuplicateField);
                        }
                        path = Some(s.substring_char(tf, tt).to_owned());
                    } else if range_matches(s, nf, nt, "branch") {
                        if branch.is_some() {
                            return Err(ParseError::DuplicateField);
                        }
                        branch = Some(s.substring_char(tf, tt).to_owned());
                    }
                    pos = next;
                },
            }
        }
    }
}

/// The settings are usable when both the remote URL and the local path are
/// non-empty; the branch name is not checked here.
pub fn settings_usable(s: &Settings) -> (ok: bool)
    ensures
        ok <==> (s.url@.len() > 0 && s.path@.len() > 0),
{
    !s.url.as_str().is_empty() && !s.path.as_str().is_empty()
}

} // verus!
