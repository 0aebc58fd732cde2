//! Identifying source files and scanning them line by line for comment
//! tags.
//!
//! Two line-local patterns are recognized. The comment-tag pattern matches
//! a C-style comment opener (a `/` followed by more `/` or `*`), an
//! optional `!`, an optional space, a keyword, a colon, an optional space,
//! and the rest of the line as the message. The macro-call pattern, used
//! for Rust sources only, matches `todo!()` or `todo!("...")`. Both search
//! for the leftmost position where the whole pattern matches, preferring
//! the earlier alternative where several could match at one position, the
//! way a leftmost-first regular-expression engine would.

use vstd::prelude::*;

use crate::tag::{classify_spec, Tag, TagKind, TagKindView, TagView};
use crate::text::{eq_lower, lower, str_eq, trim_exec, trim_spec};

verus! {

/// The comment grammar of a source file: `Rust` also recognizes `todo!`
/// macro calls, `CLike` only comment-embedded tags.
#[derive(Debug, Clone, Copy, PartialEq, Eq, Structural)]
pub enum SourceKind {
    /// C-style comments plus the Rust `todo!` macro.
    Rust,
    /// C-style comments only.
    CLike,
}

/// The greatest index below `i` holding `c`, or -1 when there is none.
pub open spec fn rfind(s: Seq<char>, i: int, c: char) -> int
    decreases i,
{
    if 0 < i && i <= s.len() {
        if s[i - 1] == c {
            i - 1
        } else {
            rfind(s, i - 1, c)
        }
    } else {
        -1
    }
}

/// The extension of a path: the text after the last `.` of the final
/// component, provided that dot is preceded by part of the component's
/// stem. A name with no dot, or one whose only dot starts it (a hidden
/// file), has none.
pub open spec fn extension_spec(path: Seq<char>) -> Option<Seq<char>> {
    let name_start = rfind(path, path.len() as int, '/') + 1;
    let dot = rfind(path, path.len() as int, '.');
    if dot > name_start {
        Some(path.subrange(dot + 1, path.len() as int))
    } else {
        None
    }
}

/// Which grammar a path's extension selects, if any.
pub open spec fn identify_spec(path: Seq<char>) -> Option<SourceKind> {
    match extension_spec(path) {
        Some(e) => if e == "rs"@ {
            Some(SourceKind::Rust)
        } else if e == "c"@ || e == "cpp"@ || e == "cc"@ || e == "h"@ || e == "hpp"@ || e
            == "java"@ || e == "cs"@ {
            Some(SourceKind::CLike)
        } else {
            None
        },
        None => None,
    }
}

fn rfind_exec(s: &str, i: usize, c: char) -> (r: Option<usize>)
    requires
        i as int <= s@.len(),
    ensures
        match r {
            Some(j) => j as int == rfind(s@, i as int, c) && j < i,
            None => rfind(s@, i as int, c) == -1,
        },
{
    let mut j = i;
    loop
        invariant
            0 <= j <= i,
            i as int <= s@.len(),
            rfind(s@, i as int, c) == rfind(s@, j as int, c),
        ensures
            0 <= j <= i,
            if j > 0 {
                rfind(s@, i as int, c) == j - 1
            } else {
                rfind(s@, i as int, c) == -1
            },
        decreases j,
    {
        if j > 0 {
            if s.get_char(j - 1) == c {
                assert(rfind(s@, j as int, c) == j - 1);
                break ;
            }
            assert(rfind(s@, j as int, c) == rfind(s@, j - 1, c));
            j -= 1;
        } else {
            assert(rfind(s@, 0, c) == -1);
            break ;
        }
    }
    if j > 0 {
        Some(j - 1)
    } else {
        None
    }
}

impl SourceKind {
    /// Determines the source kind from the file path's extension; an
    /// unknown or missing extension yields `None`.
    pub fn identify(path: &str) -> (r: Option<Self>)
        ensures
            r == identify_spec(path@),
    {
        let n = path.unicode_len();
        let name_start: usize = match rfind_exec(path, n, '/') {
            Some(j) => j + 1,
            None => 0,
        };
        let dot = match rfind_exec(path, n, '.') {
            Some(j) => j,
            None => {
                return None;
            },
        };
        if dot <= name_start {
            return None;
        }
        let ext = path.substring_char(dot + 1, n);
        if str_eq(ext, "rs") {
            Some(SourceKind::Rust)
        } else if str_eq(ext, "c") || str_eq(ext, "cpp") || str_eq(ext, "cc") || str_eq(ext, "h")
            || str_eq(ext, "hpp") || str_eq(ext, "java") || str_eq(ext, "cs") {
            Some(SourceKind::CLike)
        } else {
            None
        }
    }
}

/// End of the maximal run of `c` starting at `i`.
pub open spec fn char_run_end(s: Seq<char>, i: int, c: char) -> int
    decreases s.len() - i,
{
    if i < s.len() && 0 <= i && s[i] == c {
        char_run_end(s, i + 1, c)
    } else {
        i
    }
}

/// The characters a tag keyword may consist of: letters, digits, `_` and
/// `!`.
pub open spec fn is_tag_char(c: char) -> bool {
    c == '!' || c == '_' || ('a' <= c && c <= 'z') || ('A' <= c && c <= 'Z') || ('0' <= c && c
        <= '9')
}

/// Executable mirror of [`is_tag_char`].
pub fn is_tag_char_exec(c: char) -> (r: bool)
    ensures
        r == is_tag_char(c),
{
    c == '!' || c == '_' || ('a' <= c && c <= 'z') || ('A' <= c && c <= 'Z') || ('0' <= c && c
        <= '9')
}

/// End of the maximal run of keyword characters starting at `i`.
pub open spec fn tag_run_end(s: Seq<char>, i: int) -> int
    decreases s.len() - i,
{
    if i < s.len() && 0 <= i && is_tag_char(s[i]) {
        tag_run_end(s, i + 1)
    } else {
        i
    }
}

/// The first index at or after `i` holding `c`, or the length of `s`.
pub open spec fn scan_to(s: Seq<char>, i: int, c: char) -> int
    decreases s.len() - i,
{
    if 0 <= i && i < s.len() {
        if s[i] == c {
            i
        } else {
            scan_to(s, i + 1, c)
        }
    } else {
        s.len() as int
    }
}

fn char_run_end_exec(s: &str, i: usize, c: char) -> (e: usize)
    requires
        i as int <= s@.len(),
    ensures
        e as int == char_run_end(s@, i as int, c),
        i <= e,
        e as int <= s@.len(),
{
    let n = s.unicode_len();
    let mut e = i;
    loop
        invariant
            i <= e <= n,
            n as int == s@.len(),
            char_run_end(s@, i as int, c) == char_run_end(s@, e as int, c),
        ensures
            i <= e <= n,
            e as int == char_run_end(s@, i as int, c),
        decreases n - e,
    {
        if e < n && s.get_char(e) == c {
            assert(char_run_end(s@, e as int, c) == char_run_end(s@, e + 1, c));
            e += 1;
        } else {
            assert(char_run_end(s@, e as int, c) == e as int);
            break ;
        }
    }
    e
}

fn tag_run_end_exec(s: &str, i: usize) -> (e: usize)
    requires
        i as int <= s@.len(),
    ensures
        e as int == tag_run_end(s@, i as int),
        i <= e,
        e as int <= s@.len(),
{
    let n = s.unicode_len();
    let mut e = i;
    loop
        invariant
            i <= e <= n,
            n as int == s@.len(),
            tag_run_end(s@, i as int) == tag_run_end(s@, e as int),
        ensures
            i <= e <= n,
            e as int == tag_run_end(s@, i as int),
        decreases n - e,
    {
        if e < n && is_tag_char_exec(s.get_char(e)) {
            assert(tag_run_end(s@, e as int) == tag_run_end(s@, e + 1));
            e += 1;
        } else {
            assert(tag_run_end(s@, e as int) == e as int);
            break ;
        }
    }
    e
}

fn scan_to_exec(s: &str, i: usize, c: char) -> (e: usize)
    requires
        i as int <= s@.len(),
    ensures
        e as int == scan_to(s@, i as int, c),
        i <= e,
        e as int <= s@.len(),
{
    let n = s.unicode_len();
    let mut e = i;
    loop
        invariant
            i <= e <= n,
            n as int == s@.len(),
            scan_to(s@, i as int, c) == scan_to(s@, e as int, c),
        ensures
            i <= e <= n,
            e as int == scan_to(s@, i as int, c),
        decreases n - e,
    {
        if e < n {
            if s.get_char(e) == c {
                assert(scan_to(s@, e as int, c) == e as int);
                break ;
            }
            assert(scan_to(s@, e as int, c) == scan_to(s@, e + 1, c));
            e += 1;
        } else {
            assert(scan_to(s@, e as int, c) == s@.len() as int);
            break ;
        }
    }
    e
}

/// Whether a message group may start at `p`: the pattern asks for a first
/// character other than `:` and at least one more character.
pub open spec fn msg_ok(s: Seq<char>, p: int) -> bool {
    p + 2 <= s.len() && 0 <= p && s[p] != ':'
}

/// The keyword-and-message tail of the comment-tag pattern, tried at `k`:
/// a non-empty run of keyword characters, a colon, an optional space, then
/// the message reaching to the end of the line. The space is preferred
/// when both readings match.
pub open spec fn try_tail(s: Seq<char>, k: int) -> Option<(Seq<char>, Seq<char>)> {
    let e = tag_run_end(s, k);
    if e > k && e < s.len() && s[e] == ':' {
        let tok = s.subrange(k, e);
        let m = e + 1;
        if m < s.len() && s[m] == ' ' && msg_ok(s, m + 1) {
            Some((tok, s.subrange(m + 1, s.len() as int)))
        } else if msg_ok(s, m) {
            Some((tok, s.subrange(m, s.len() as int)))
        } else {
            None
        }
    } else {
        None
    }
}

/// The tail without the optional `!` consumed: an optional space is tried
/// first, then the keyword directly.
pub open spec fn tail_no_bang(s: Seq<char>, j: int) -> Option<(Seq<char>, Seq<char>)> {
    let with_space = if j < s.len() && 0 <= j && s[j] == ' ' {
        try_tail(s, j + 1)
    } else {
        None
    };
    if with_space is Some {
        with_space
    } else {
        try_tail(s, j)
    }
}

/// What follows the comment opener: an optional `!`, an optional space,
/// then the keyword tail, the alternatives tried in the order a
/// leftmost-first engine prefers them. When the readings that consume the
/// `!` fail, the `!` is still a keyword character, so the tail is retried
/// from the `!` itself.
pub open spec fn after_opener(s: Seq<char>, j: int) -> Option<(Seq<char>, Seq<char>)> {
    if j < s.len() && 0 <= j && s[j] == '!' {
        let bang_space = if j + 1 < s.len() && s[j + 1] == ' ' {
            try_tail(s, j + 2)
        } else {
            None
        };
        if bang_space is Some {
            bang_space
        } else {
            let bang = try_tail(s, j + 1);
            if bang is Some {
                bang
            } else {
                tail_no_bang(s, j)
            }
        }
    } else {
        tail_no_bang(s, j)
    }
}

/// The whole comment-tag pattern anchored at `i`: a `/` followed by a run
/// of `/` or a run of `*`, then [`after_opener`].
pub open spec fn clike_match_at(s: Seq<char>, i: int) -> Option<(Seq<char>, Seq<char>)> {
    if 0 <= i && i < s.len() && s[i] == '/' {
        if i + 1 < s.len() && s[i + 1] == '/' {
            after_opener(s, char_run_end(s, i + 1, '/'))
        } else if i + 1 < s.len() && s[i + 1] == '*' {
            after_opener(s, char_run_end(s, i + 1, '*'))
        } else {
            None
        }
    } else {
        None
    }
}

/// The leftmost comment-tag match at or after `i`.
pub open spec fn clike_find_from(s: Seq<char>, i: int) -> Option<(Seq<char>, Seq<char>)>
    decreases s.len() - i,
{
    if 0 <= i && i < s.len() {
        if clike_match_at(s, i) is Some {
            clike_match_at(s, i)
        } else {
            clike_find_from(s, i + 1)
        }
    } else {
        None
    }
}

/// The leftmost comment-tag match of a line: the raw keyword and the raw
/// message.
pub open spec fn clike_find(s: Seq<char>) -> Option<(Seq<char>, Seq<char>)> {
    clike_find_from(s, 0)
}

/// The macro-call pattern anchored at `i`: `todo!(` followed either by a
/// double-quoted literal and `)`, or directly by `)`. The quoted reading
/// is preferred. The result is the message: the literal's contents, or
/// empty.
pub open spec fn todo_match_at(s: Seq<char>, i: int) -> Option<Seq<char>> {
    if 0 <= i && i + 6 <= s.len() && s[i] == 't' && s[i + 1] == 'o' && s[i + 2] == 'd' && s[i + 3]
        == 'o' && s[i + 4] == '!' && s[i + 5] == '(' {
        if i + 6 < s.len() && s[i + 6] == '"' {
            let q = scan_to(s, i + 7, '"');
            if q + 1 < s.len() && s[q + 1] == ')' {
                Some(s.subrange(i + 7, q))
            } else {
                None
            }
        } else if i + 6 < s.len() && s[i + 6] == ')' {
            Some(Seq::empty())
        } else {
            None
        }
    } else {
        None
    }
}

/// The leftmost macro-call match at or after `i`.
pub open spec fn todo_find_from(s: Seq<char>, i: int) -> Option<Seq<char>>
    decreases s.len() - i,
{
    if 0 <= i && i < s.len() {
        if todo_match_at(s, i) is Some {
            todo_match_at(s, i)
        } else {
            todo_find_from(s, i + 1)
        }
    } else {
        None
    }
}

/// The leftmost macro-call match of a line.
pub open spec fn todo_find(s: Seq<char>) -> Option<Seq<char>> {
    todo_find_from(s, 0)
}

fn msg_ok_exec(s: &str, p: usize, n: usize) -> (r: bool)
    requires
        p as int <= s@.len(),
        n as int == s@.len(),
    ensures
        r == msg_ok(s@, p as int),
{
    p < n && n - p >= 2 && s.get_char(p) != ':'
}

fn try_tail_exec(s: &str, k: usize) -> (r: Option<(String, String)>)
    requires
        k as int <= s@.len(),
    ensures
        match r {
            Some(p) => try_tail(s@, k as int) == Some((p.0@, p.1@)),
            None => try_tail(s@, k as int) is None,
        },
{
    let n = s.unicode_len();
    let e = tag_run_end_exec(s, k);
    if e > k && e < n && s.get_char(e) == ':' {
        let m = e + 1;
        let tok = s.substring_char(k, e).to_owned();
        if m < n && s.get_char(m) == ' ' && msg_ok_exec(s, m + 1, n) {
            Some((tok, s.substring_char(m + 1, n).to_owned()))
        } else if msg_ok_exec(s, m, n) {
            Some((tok, s.substring_char(m, n).to_owned()))
        } else {
            None
        }
    } else {
        None
    }
}

fn tail_no_bang_exec(s: &str, j: usize) -> (r: Option<(String, String)>)
    requires
        j as int <= s@.len(),
    ensures
        match r {
            Some(p) => tail_no_bang(s@, j as int) == Some((p.0@, p.1@)),
            None => tail_no_bang(s@, j as int) is None,
        },
{
    let n = s.unicode_len();
    if j < n && s.get_char(j) == ' ' {
        let with_space = try_tail_exec(s, j + 1);
        if with_space.is_some() {
            return with_space;
        }
    }
    try_tail_exec(s, j)
}

fn after_opener_exec(s: &str, j: usize) -> (r: Option<(String, String)>)
    requires
        j as int <= s@.len(),
    ensures
        match r {
            Some(p) => after_opener(s@, j as int) == Some((p.0@, p.1@)),
            None => after_opener(s@, j as int) is None,
        },
{
    let n = s.unicode_len();
    if j < n && s.get_char(j) == '!' {
        if j + 1 < n && s.get_char(j + 1) == ' ' {
            let bang_space = try_tail_exec(s, j + 2);
            if bang_space.is_some() {
                return bang_space;
            }
        }
        let bang = try_tail_exec(s, j + 1);
        if bang.is_some() {
            return bang;
        }
        tail_no_bang_exec(s, j)
    } else {
        tail_no_bang_exec(s, j)
    }
}

fn clike_match_at_exec(s: &str, i: usize) -> (r: Option<(String, String)>)
    requires
        (i as int) < s@.len(),
    ensures
        match r {
            Some(p) => clike_match_at(s@, i as int) == Some((p.0@, p.1@)),
            None => clike_match_at(s@, i as int) is None,
        },
{
    let n = s.unicode_len();
    if s.get_char(i) == '/' {
        if i + 1 < n && s.get_char(i + 1) == '/' {
            after_opener_exec(s, char_run_end_exec(s, i + 1, '/'))
        } else if i + 1 < n && s.get_char(i + 1) == '*' {
            after_opener_exec(s, char_run_end_exec(s, i + 1, '*'))
        } else {
            None
        }
    } else {
        None
    }
}

/// The leftmost comment-tag match of a line, as the raw keyword and raw
/// message.
pub fn clike_find_exec(s: &str) -> (r: Option<(String, String)>)
    ensures
        match r {
            Some(p) => clike_find(s@) == Some((p.0@, p.1@)),
            None => clike_find(s@) is None,
        },
{
    let n = s.unicode_len();
    let mut i: usize = 0;
    while i < n
        invariant
            0 <= i <= n,
            n as int == s@.len(),
            clike_find(s@) == clike_find_from(s@, i as int),
            clike_find_from(s@, i as int) is Some ==> i < n,
        decreases n - i,
    {
        let m = clike_match_at_exec(s, i);
        if m.is_some() {
            assert(clike_find_from(s@, i as int) == clike_match_at(s@, i as int));
            return m;
        }
        assert(clike_find_from(s@, i as int) == clike_find_from(s@, i + 1));
        i += 1;
    }
    assert(clike_find_from(s@, i as int) is None);
    None
}

fn todo_match_at_exec(s: &str, i: usize) -> (r: Option<String>)
    requires
        (i as int) < s@.len(),
    ensures
        match r {
            Some(m) => todo_match_at(s@, i as int) == Some(m@),
            None => todo_match_at(s@, i as int) is None,
        },
{
    let n = s.unicode_len();
    if n - i >= 6 && s.get_char(i) == 't' && s.get_char(i + 1) == 'o' && s.get_char(i + 2) == 'd'
        && s.get_char(i + 3) == 'o' && s.get_char(i + 4) == '!' && s.get_char(i + 5) == '(' {
        if i + 6 < n && s.get_char(i + 6) == '"' {
            let q = scan_to_exec(s, i + 7, '"');
            if q < n && q + 1 < n && s.get_char(q + 1) == ')' {
                Some(s.substring_char(i + 7, q).to_owned())
            } else {
                None
            }
        } else if i + 6 < n && s.get_char(i + 6) == ')' {
            let r = String::new();
            assert(r@ =~= Seq::<char>::empty());
            Some(r)
        } else {
            None
        }
    } else {
        None
    }
}

/// The leftmost macro-call match of a line, as the raw message.
pub fn todo_find_exec(s: &str) -> (r: Option<String>)
    ensures
        match r {
            Some(m) => todo_find(s@) == Some(m@),
            None => todo_find(s@) is None,
        },
{
    let n = s.unicode_len();
    let mut i: usize = 0;
    while i < n
        invariant
            0 <= i <= n,
            n as int == s@.len(),
            todo_find(s@) == todo_find_from(s@, i as int),
            todo_find_from(s@, i as int) is Some ==> i < n,
        decreases n - i,
    {
        let m = todo_match_at_exec(s, i);
        if m.is_some() {
            assert(todo_find_from(s@, i as int) == todo_match_at(s@, i as int));
            return m;
        }
        assert(todo_find_from(s@, i as int) == todo_find_from(s@, i + 1));
        i += 1;
    }
    assert(todo_find_from(s@, i as int) is None);
    None
}

/// Strips one trailing block-comment closer `*/` from a message, with the
/// whitespace around it; any other message is kept as it is.
pub open spec fn strip_closer(msg: Seq<char>) -> Seq<char> {
    if msg.len() >= 2 && msg[msg.len() - 2] == '*' && msg[msg.len() - 1] == '/' {
        trim_spec(msg.subrange(0, msg.len() - 2))
    } else {
        msg
    }
}

/// Executable mirror of [`strip_closer`].
fn strip_closer_exec(msg: String) -> (r: String)
    ensures
        r@ == strip_closer(msg@),
{
    let n = msg.as_str().unicode_len();
    if n >= 2 && msg.as_str().get_char(n - 2) == '*' && msg.as_str().get_char(n - 1) == '/' {
        trim_exec(msg.as_str().substring_char(0, n - 2))
    } else {
        msg
    }
}

/// What a C-like scan of one line yields: the leftmost comment-tag match,
/// classified and with its message cleaned — unless the keyword is `http`
/// or `https` in any case, which marks a URL rather than a tag.
pub open spec fn clike_line_tag(line: Seq<char>) -> Option<(TagKindView, Seq<char>)> {
    match clike_find(line) {
        Some(p) => if lower(p.0) == "http"@ || lower(p.0) == "https"@ {
            None
        } else {
            Some((classify_spec(p.0), strip_closer(p.1)))
        },
        None => None,
    }
}

/// What a Rust scan of one line yields: the macro-call match takes
/// priority over the comment-tag match, and its message is kept verbatim.
pub open spec fn rust_line_tag(line: Seq<char>) -> Option<(TagKindView, Seq<char>)> {
    match todo_find(line) {
        Some(m) => Some((TagKindView::TodoMacro, m)),
        None => clike_line_tag(line),
    }
}

/// What scanning one line yields under each grammar.
pub open spec fn line_tag(kind: SourceKind, line: Seq<char>) -> Option<(TagKindView, Seq<char>)> {
    match kind {
        SourceKind::Rust => rust_line_tag(line),
        SourceKind::CLike => clike_line_tag(line),
    }
}

/// An empty line matches neither pattern.
pub proof fn lemma_empty_line_no_tag(kind: SourceKind)
    ensures
        line_tag(kind, Seq::<char>::empty()) is None,
{
    assert(clike_find_from(Seq::<char>::empty(), 0) is None);
    assert(todo_find_from(Seq::<char>::empty(), 0) is None);
}

/// Law: a line whose leftmost comment-tag match captures the keyword
/// `http` or `https`, in any case, yields no tag: a C-like scan of it
/// produces nothing, and a Rust scan produces nothing unless a macro call
/// matches on the same line.
pub proof fn lemma_http_excluded(line: Seq<char>, tok: Seq<char>, msg: Seq<char>)
    requires
        clike_find(line) == Some((tok, msg)),
        lower(tok) == "http"@ || lower(tok) == "https"@,
    ensures
        line_tag(SourceKind::CLike, line) is None,
        todo_find(line) is None ==> line_tag(SourceKind::Rust, line) is None,
{
}

/// Law: a C-like scan recognizes comment tags only — what a line yields
/// is decided by the comment-tag pattern alone, so a line without a
/// comment-tag match yields nothing, whatever a macro-call pattern would
/// find on it.
pub proof fn lemma_clike_ignores_macro(line: Seq<char>)
    ensures
        line_tag(SourceKind::CLike, line) == clike_line_tag(line),
        clike_find(line) is None ==> line_tag(SourceKind::CLike, line) is None,
{
}

/// Law: on a Rust-kind line where the macro-call pattern matches, the one
/// produced tag comes from that match — kind `TodoMacro`, message kept
/// verbatim — whatever the comment-tag pattern would find on the same
/// line.
pub proof fn lemma_macro_priority(line: Seq<char>, msg: Seq<char>)
    requires
        todo_find(line) == Some(msg),
    ensures
        line_tag(SourceKind::Rust, line) == Some((TagKindView::TodoMacro, msg)),
{
}

/// Law: message cleaning strips exactly one trailing block-comment closer
/// together with the whitespace around it, and touches nothing else: a
/// message without a trailing closer — its characters, multi-byte ones
/// included — is kept as it is.
pub proof fn lemma_strip_closer(msg: Seq<char>)
    ensures
        msg.len() >= 2 && msg[msg.len() - 2] == '*' && msg[msg.len() - 1] == '/' ==> strip_closer(
            msg,
        ) == trim_spec(msg.subrange(0, msg.len() - 2)),
        !(msg.len() >= 2 && msg[msg.len() - 2] == '*' && msg[msg.len() - 1] == '/') ==> strip_closer(
            msg,
        ) == msg,
{
}

/// Law: scanning attaches no provenance: every tag a scan yields carries
/// absent git information until enrichment fills it in.
pub proof fn lemma_scan_no_provenance(
    kind: SourceKind,
    path: Seq<char>,
    lines: Seq<Seq<char>>,
    ln0: int,
)
    ensures
        forall|i: int|
            0 <= i < scan_lines(kind, path, lines, ln0).len() ==> (#[trigger] scan_lines(
                kind,
                path,
                lines,
                ln0,
            )[i]).git_info is None,
    decreases lines.len(),
{
    if lines.len() > 0 {
        lemma_scan_no_provenance(kind, path, lines.drop_first(), ln0 + 1);
    }
}

/// Law: within one file, tags come in strictly increasing line order, and
/// every line number exceeds the offset the scan started at.
pub proof fn lemma_scan_line_order(
    kind: SourceKind,
    path: Seq<char>,
    lines: Seq<Seq<char>>,
    ln0: int,
)
    ensures
        forall|i: int|
            0 <= i < scan_lines(kind, path, lines, ln0).len() ==> (#[trigger] scan_lines(
                kind,
                path,
                lines,
                ln0,
            )[i]).line > ln0,
        forall|i: int, j: int|
            0 <= i < j < scan_lines(kind, path, lines, ln0).len() ==> scan_lines(
                kind,
                path,
                lines,
                ln0,
            )[i].line < scan_lines(kind, path, lines, ln0)[j].line,
    decreases lines.len(),
{
    if lines.len() > 0 {
        lemma_scan_line_order(kind, path, lines.drop_first(), ln0 + 1);
        let whole = scan_lines(kind, path, lines, ln0);
        let tail = scan_lines(kind, path, lines.drop_first(), ln0 + 1);
        let head = whole.len() - tail.len();
        assert(head == 0 || head == 1);
        assert forall|i: int| 0 <= i < whole.len() implies (#[trigger] whole[i]).line > ln0 by {
            if i >= head {
                assert(whole[i] == tail[i - head]);
            }
        }
        assert forall|i: int, j: int| 0 <= i < j < whole.len() implies whole[i].line < whole[j].line by {
            if i >= head {
                assert(whole[i] == tail[i - head]);
            }
            assert(whole[j] == tail[j - head]);
        }
    }
}

/// Law: scanning is deterministic and has no state beyond the text, the
/// grammar, the path and the position: two scanners that agree on those
/// yield the same tag sequence, so scanning the same content twice gives
/// identical results.
pub proof fn lemma_scan_deterministic(a: SourceFile, b: SourceFile)
    requires
        a.kind_spec() == b.kind_spec(),
        a.path_spec() == b.path_spec(),
        a.lines_spec() == b.lines_spec(),
        a.cursor_spec() == b.cursor_spec(),
    ensures
        a.remaining_spec() == b.remaining_spec(),
{
}

/// The views of a sequence of tags.
pub open spec fn tags_view(s: Seq<Tag>) -> Seq<TagView> {
    s.map_values(|t: Tag| t@)
}

/// The views of a sequence of lines.
pub open spec fn lines_view(v: Seq<String>) -> Seq<Seq<char>> {
    v.map_values(|l: String| l@)
}

/// The tags that scanning `lines` yields, in order, where the first line
/// of `lines` is numbered `ln0 + 1`: at most one tag per line, numbered by
/// its line, with no provenance attached yet.
pub open spec fn scan_lines(
    kind: SourceKind,
    path: Seq<char>,
    lines: Seq<Seq<char>>,
    ln0: int,
) -> Seq<TagView>
    decreases lines.len(),
{
    if lines.len() == 0 {
        Seq::empty()
    } else {
        let head = match line_tag(kind, lines[0]) {
            Some(km) => seq![
                TagView {
                    path: path,
                    line: ln0 + 1,
                    kind: km.0,
                    message: km.1,
                    git_info: None,
                },
            ],
            None => Seq::empty(),
        };
        head + scan_lines(kind, path, lines.drop_first(), ln0 + 1)
    }
}

proof fn lemma_scan_to_bounds(s: Seq<char>, i: int, c: char)
    requires
        0 <= i <= s.len(),
    ensures
        i <= scan_to(s, i, c) <= s.len(),
    decreases s.len() - i,
{
    if i < s.len() && s[i] != c {
        lemma_scan_to_bounds(s, i + 1, c);
    }
}

/// The lines of a text: one line ends at each newline character, which
/// belongs to no line, and a last, unterminated line exists only when the
/// text does not end with a newline. Empty text has no lines.
pub open spec fn split_lines_from(content: Seq<char>, p: int) -> Seq<Seq<char>>
    decreases content.len() - p,
    via split_lines_from_decreases
{
    if 0 <= p && p < content.len() {
        let q = scan_to(content, p, '\n');
        if q < content.len() {
            seq![content.subrange(p, q)] + split_lines_from(content, q + 1)
        } else {
            seq![content.subrange(p, content.len() as int)]
        }
    } else {
        Seq::empty()
    }
}

#[via_fn]
proof fn split_lines_from_decreases(content: Seq<char>, p: int) {
    if 0 <= p && p < content.len() {
        lemma_scan_to_bounds(content, p, '\n');
    }
}

/// The lines of a text, from its start.
pub open spec fn split_lines(content: Seq<char>) -> Seq<Seq<char>> {
    split_lines_from(content, 0)
}

/// Everything a scan of `content` under `kind` yields, in line order.
pub open spec fn scan_spec(kind: SourceKind, path: Seq<char>, content: Seq<char>) -> Seq<TagView> {
    scan_lines(kind, path, split_lines(content), 0)
}

fn split_lines_exec(content: &str) -> (r: Vec<String>)
    ensures
        lines_view(r@) == split_lines(content@),
{
    let n = content.unicode_len();
    let mut out: Vec<String> = Vec::new();
    let mut p: usize = 0;
    while p < n
        invariant
            0 <= p <= n,
            n as int == content@.len(),
            split_lines(content@) =~= lines_view(out@) + split_lines_from(content@, p as int),
        decreases n - p,
    {
        let ghost prev = out@;
        let ghost p0 = p as int;
        let q = scan_to_exec(content, p, '\n');
        let line = content.substring_char(p, q).to_owned();
        out.push(line);
        proof {
            assert(lines_view(out@) =~= lines_view(prev) + seq![line@]);
        }
        if q < n {
            p = q + 1;
        } else {
            p = n;
        }
        proof {
            assert(split_lines_from(content@, p0) =~= seq![line@] + split_lines_from(
                content@,
                p as int,
            ));
            assert(lines_view(out@) + split_lines_from(content@, p as int) =~= lines_view(prev)
                + split_lines_from(content@, p0));
        }
    }
    proof {
        assert(split_lines_from(content@, p as int) =~= Seq::<Seq<char>>::empty());
        assert(lines_view(out@) =~= split_lines(content@));
    }
    out
}

/// A scanner over one identified source file: an incremental state
/// machine that walks the file's lines and hands out one [`Tag`] at a
/// time.
pub struct SourceFile {
    path: String,
    kind: SourceKind,
    lines: Vec<String>,
    cursor: usize,
    line: String,
    line_number: usize,
}

impl SourceFile {
    /// The grammar this scanner matches with.
    pub closed spec fn kind_spec(self) -> SourceKind {
        self.kind
    }

    /// The path the produced tags carry.
    pub closed spec fn path_spec(self) -> Seq<char> {
        self.path@
    }

    /// The lines of the scanned text.
    pub closed spec fn lines_spec(self) -> Seq<Seq<char>> {
        lines_view(self.lines@)
    }

    /// How many lines have been consumed.
    pub closed spec fn cursor_spec(self) -> int {
        self.cursor as int
    }

    /// The scanner's invariant between calls: the line counter matches the
    /// consumed lines, and for a Rust source the line buffer — which the
    /// next call examines before reading on — holds no unreported match.
    pub closed spec fn wf(self) -> bool {
        &&& self.cursor <= self.lines.len()
        &&& self.line_number == self.cursor
        &&& (self.kind is Rust ==> line_tag(self.kind, self.line@) is None)
    }

    /// The tags this scanner has yet to yield.
    pub open spec fn remaining_spec(self) -> Seq<TagView> {
        scan_lines(
            self.kind_spec(),
            self.path_spec(),
            self.lines_spec().skip(self.cursor_spec()),
            self.cursor_spec(),
        )
    }

    /// The tag the current line buffer would yield.
    spec fn buffered(self) -> Seq<TagView> {
        match line_tag(self.kind, self.line@) {
            Some(km) => seq![
                TagView {
                    path: self.path@,
                    line: self.line_number as int,
                    kind: km.0,
                    message: km.1,
                    git_info: None,
                },
            ],
            None => Seq::empty(),
        }
    }

    /// Creates a scanner of the given kind over a file's text; `path` is
    /// carried into every produced tag.
    pub fn new(kind: SourceKind, path: &str, content: &str) -> (r: SourceFile)
        ensures
            r.wf(),
            r.kind_spec() == kind,
            r.path_spec() == path@,
            r.lines_spec() == split_lines(content@),
            r.cursor_spec() == 0,
            r.remaining_spec() == scan_spec(kind, path@, content@),
    {
        let lines = split_lines_exec(content);
        let r = SourceFile {
            path: path.to_owned(),
            kind,
            lines,
            cursor: 0,
            line: String::new(),
            line_number: 0,
        };
        proof {
            lemma_empty_line_no_tag(kind);
            assert(r.lines_spec().skip(0) =~= r.lines_spec());
        }
        r
    }

    /// Tests the comment-tag pattern on the line buffer and builds the tag
    /// it describes.
    fn find_clike_comment(&self) -> (r: Option<Tag>)
        ensures
            match r {
                Some(t) => clike_line_tag(self.line@) == Some((t.kind@, t.message@)) && t.path@
                    == self.path@ && t.line == self.line_number && t.git_info is None,
                None => clike_line_tag(self.line@) is None,
            },
    {
        match clike_find_exec(self.line.as_str()) {
            Some((tok, msg)) => {
                if eq_lower(tok.as_str(), "http") || eq_lower(tok.as_str(), "https") {
                    None
                } else {
                    Some(
                        Tag {
                            path: self.path.clone(),
                            line: self.line_number,
                            kind: TagKind::new(tok.as_str()),
                            message: strip_closer_exec(msg),
                            git_info: None,
                        },
                    )
                }
            },
            None => None,
        }
    }

    /// The step behind [`Self::next`] for a Rust source: the line buffer
    /// is examined — macro call first, comment tag second — before any
    /// further line is read.
    fn next_rust(&mut self) -> (r: Option<Tag>)
        requires
            old(self).wf(),
            old(self).kind_spec() == SourceKind::Rust,
        ensures
            final(self).wf(),
            final(self).kind_spec() == old(self).kind_spec(),
            final(self).path_spec() == old(self).path_spec(),
            final(self).lines_spec() == old(self).lines_spec(),
            match r {
                Some(t) => old(self).remaining_spec().len() > 0 && t@ == old(self).remaining_spec()[0] && final(self).remaining_spec() == old(self).remaining_spec().drop_first(),
                None => old(self).remaining_spec().len() == 0 && final(self).cursor_spec() == final(self).lines_spec().len() as int,
            },
    {
        loop
            invariant
                self.kind == old(self).kind,
                self.kind is Rust,
                self.path@ == old(self).path@,
                lines_view(self.lines@) == lines_view(old(self).lines@),
                self.cursor <= self.lines.len(),
                self.line_number == self.cursor,
                old(self).remaining_spec() == self.buffered() + self.remaining_spec(),
            decreases self.lines.len() - self.cursor,
        {
            let ghost pre = *self;
            let maybe_macro = self.find_rust_todo_macro();
            if let Some(tag) = maybe_macro {
                proof {
                    assert(self.buffered() =~= seq![tag@]);
                }
                self.line = String::new();
                proof {
                    lemma_empty_line_no_tag(self.kind);
                    assert(self.buffered() =~= Seq::<TagView>::empty());
                    assert(old(self).remaining_spec().drop_first() =~= self.remaining_spec());
                }
                return Some(tag);
            }
            let maybe_comment = self.find_clike_comment();
            if let Some(tag) = maybe_comment {
                proof {
                    assert(self.buffered() =~= seq![tag@]);
                }
                self.line = String::new();
                proof {
                    lemma_empty_line_no_tag(self.kind);
                    assert(self.buffered() =~= Seq::<TagView>::empty());
                    assert(old(self).remaining_spec().drop_first() =~= self.remaining_spec());
                }
                return Some(tag);
            }
            proof {
                assert(self.buffered() =~= Seq::<TagView>::empty());
            }
            self.line = String::new();
            proof {
                lemma_empty_line_no_tag(self.kind);
            }
            if self.cursor == self.lines.len() {
                proof {
                    assert(self.lines_spec().skip(self.cursor_spec()) =~= Seq::<
                        Seq<char>,
                    >::empty());
                }
                return None;
            }
            let ghost c = self.cursor as int;
            let next_line = self.lines[self.cursor].clone();
            self.line = next_line;
            self.cursor = self.cursor + 1;
            self.line_number = self.line_number + 1;
            proof {
                let lv = self.lines_spec();
                assert(lv.skip(c)[0] == lv[c]);
                assert(lv.skip(c).drop_first() =~= lv.skip(c + 1));
                assert(self.line@ == lv[c]);
                assert(scan_lines(self.kind, self.path@, lv.skip(c), c) == self.buffered()
                    + scan_lines(self.kind, self.path@, lv.skip(c + 1), c + 1));
            }
        }
    }

    /// The step behind [`Self::next`] for a C-like source: a line is read
    /// first, then the comment-tag pattern is tested on it.
    fn next_clike(&mut self) -> (r: Option<Tag>)
        requires
            old(self).wf(),
            old(self).kind_spec() == SourceKind::CLike,
        ensures
            final(self).wf(),
            final(self).kind_spec() == old(self).kind_spec(),
            final(self).path_spec() == old(self).path_spec(),
            final(self).lines_spec() == old(self).lines_spec(),
            match r {
                Some(t) => old(self).remaining_spec().len() > 0 && t@ == old(self).remaining_spec()[0] && final(self).remaining_spec() == old(self).remaining_spec().drop_first(),
                None => old(self).remaining_spec().len() == 0 && final(self).cursor_spec() == final(self).lines_spec().len() as int,
            },
    {
        loop
            invariant
                self.kind == old(self).kind,
                self.kind is CLike,
                self.path@ == old(self).path@,
                lines_view(self.lines@) == lines_view(old(self).lines@),
                self.cursor <= self.lines.len(),
                self.line_number == self.cursor,
                old(self).remaining_spec() == self.remaining_spec(),
            decreases self.lines.len() - self.cursor,
        {
            self.line = String::new();
            if self.cursor == self.lines.len() {
                proof {
                    assert(self.lines_spec().skip(self.cursor_spec()) =~= Seq::<
                        Seq<char>,
                    >::empty());
                }
                return None;
            }
            let ghost c = self.cursor as int;
            let next_line = self.lines[self.cursor].clone();
            self.line = next_line;
            self.cursor = self.cursor + 1;
            self.line_number = self.line_number + 1;
            proof {
                let lv = self.lines_spec();
                assert(lv.skip(c)[0] == lv[c]);
                assert(lv.skip(c).drop_first() =~= lv.skip(c + 1));
                assert(self.line@ == lv[c]);
                assert(scan_lines(self.kind, self.path@, lv.skip(c), c) == self.buffered()
                    + scan_lines(self.kind, self.path@, lv.skip(c + 1), c + 1));
            }
            let maybe_comment = self.find_clike_comment();
            if let Some(tag) = maybe_comment {
                proof {
                    assert(self.buffered() =~= seq![tag@]);
                    assert(old(self).remaining_spec().drop_first() =~= self.remaining_spec());
                }
                return Some(tag);
            }
            proof {
                assert(self.buffered() =~= Seq::<TagView>::empty());
            }
        }
    }

    /// Yields the next tag of the file, or `None` once the lines are
    /// exhausted; the sequence of yielded tags is exactly what the scan of
    /// the file's text describes, in increasing line order.
    pub fn next(&mut self) -> (r: Option<Tag>)
        requires
            old(self).wf(),
        ensures
            final(self).wf(),
            final(self).kind_spec() == old(self).kind_spec(),
            final(self).path_spec() == old(self).path_spec(),
            final(self).lines_spec() == old(self).lines_spec(),
            match r {
                Some(t) => old(self).remaining_spec().len() > 0 && t@ == old(self).remaining_spec()[0] && final(self).remaining_spec() == old(self).remaining_spec().drop_first(),
                None => old(self).remaining_spec().len() == 0 && final(self).cursor_spec() == final(self).lines_spec().len() as int,
            },
    {
        match self.kind {
            SourceKind::Rust => self.next_rust(),
            SourceKind::CLike => self.next_clike(),
        }
    }

    /// Runs the scanner to the end and collects every remaining tag: the
    /// result is exactly the scan of the not-yet-consumed lines.
    pub fn collect_tags(&mut self) -> (v: Vec<Tag>)
        requires
            old(self).wf(),
        ensures
            final(self).wf(),
            final(self).kind_spec() == old(self).kind_spec(),
            final(self).path_spec() == old(self).path_spec(),
            final(self).lines_spec() == old(self).lines_spec(),
            tags_view(v@) == old(self).remaining_spec(),
            final(self).remaining_spec() == Seq::<TagView>::empty(),
    {
        let mut v: Vec<Tag> = Vec::new();
        proof {
            assert(tags_view(v@) =~= Seq::<TagView>::empty());
        }
        loop
            invariant
                self.wf(),
                self.kind_spec() == old(self).kind_spec(),
                self.path_spec() == old(self).path_spec(),
                self.lines_spec() == old(self).lines_spec(),
                tags_view(v@) + self.remaining_spec() == old(self).remaining_spec(),
            decreases self.remaining_spec().len(),
        {
            let ghost prev = v@;
            match self.next() {
                Some(t) => {
                    v.push(t);
                    proof {
                        assert(tags_view(v@) =~= tags_view(prev) + seq![t@]);
                        assert(tags_view(v@) + self.remaining_spec() =~= old(self).remaining_spec());
                    }
                },
                None => {
                    proof {
                        assert(self.remaining_spec() =~= Seq::<TagView>::empty());
                        assert(tags_view(v@) =~= old(self).remaining_spec());
                    }
                    return v;
                },
            }
        }
    }

    /// Tests the macro-call pattern on the line buffer and builds the tag
    /// it describes.
    fn find_rust_todo_macro(&self) -> (r: Option<Tag>)
        ensures
            match r {
                Some(t) => todo_find(self.line@) == Some(t.message@) && t.kind@
                    == TagKindView::TodoMacro && t.path@ == self.path@ && t.line
                    == self.line_number && t.git_info is None,
                None => todo_find(self.line@) is None,
            },
    {
        match todo_find_exec(self.line.as_str()) {
            Some(msg) => Some(
                Tag {
                    path: self.path.clone(),
                    line: self.line_number,
                    kind: TagKind::TodoMacro,
                    message: msg,
                    git_info: None,
                },
            ),
            None => None,
        }
    }
}

} // verus!
