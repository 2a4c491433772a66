//! The key identifier of a prompt.
//!
//! An SSH client asks for a passphrase with a prompt that names the key file
//! between apostrophes, as in `Enter passphrase for key '/home/u/.ssh/id':`.
//! The identifier of the key is the last non-empty segment of that path,
//! where both `/` and `\` part the segments. A prompt that names no such
//! segment gets the identifier `default`.

use crate::text::chars_of;
use vstd::prelude::*;
use vstd::string::{StrSliceExecFns, StringExecFns};

verus! {

/// The character that encloses the key's path in a prompt.
pub const QUOTE: char = '\'';

/// The identifier of a prompt that names no key.
pub const DEFAULT_KEY: &'static str = "default";

/// Whether `c` parts the segments of a path.
pub open spec fn is_separator(c: char) -> bool {
    c == '/' || c == '\\'
}

/// Whether `open` and `close` are the positions of the first apostrophe of
/// `prompt` and of the first apostrophe after it.
pub open spec fn is_quoted_at(prompt: Seq<char>, open: int, close: int) -> bool {
    &&& 0 <= open < close < prompt.len()
    &&& prompt[open] == QUOTE
    &&& prompt[close] == QUOTE
    &&& forall|k: int| 0 <= k < close && k != open ==> #[trigger] prompt[k] != QUOTE
}

/// The text between the first two apostrophes of `prompt`, if it has two.
pub open spec fn quoted_path(prompt: Seq<char>) -> Option<Seq<char>> {
    if exists|open: int, close: int| is_quoted_at(prompt, open, close) {
        let (open, close) = choose|open: int, close: int| is_quoted_at(prompt, open, close);
        Some(prompt.subrange(open + 1, close))
    } else {
        None
    }
}

/// Whether `path[start..end]` is the last non-empty segment of `path`: it is
/// not empty and holds no separator, only separators follow it, and it
/// starts the path or follows a separator.
pub open spec fn is_last_segment(path: Seq<char>, start: int, end: int) -> bool {
    &&& 0 <= start < end <= path.len()
    &&& forall|k: int| start <= k < end ==> !is_separator(#[trigger] path[k])
    &&& forall|k: int| end <= k < path.len() ==> is_separator(#[trigger] path[k])
    &&& start > 0 ==> is_separator(path[start - 1])
}

/// The last non-empty segment of `path`, if it has one.
pub open spec fn last_segment(path: Seq<char>) -> Option<Seq<char>> {
    if exists|start: int, end: int| is_last_segment(path, start, end) {
        let (start, end) = choose|start: int, end: int| is_last_segment(path, start, end);
        Some(path.subrange(start, end))
    } else {
        None
    }
}

/// The key identifier of `prompt`: the last non-empty segment of the path
/// between its first two apostrophes, or `default` where there is none.
pub open spec fn key_name(prompt: Seq<char>) -> Seq<char> {
    match quoted_path(prompt) {
        Some(path) => match last_segment(path) {
            Some(segment) => segment,
            None => DEFAULT_KEY@,
        },
        None => DEFAULT_KEY@,
    }
}

/// A prompt has at most one pair of first and second apostrophe, so the
/// text between such a pair is the path that the prompt names.
pub proof fn lemma_quoted_once(prompt: Seq<char>, open: int, close: int)
    requires
        is_quoted_at(prompt, open, close),
    ensures
        quoted_path(prompt) == Some(prompt.subrange(open + 1, close)),
{
    let (o, c) = choose|o: int, c: int| is_quoted_at(prompt, o, c);
    assert(is_quoted_at(prompt, o, c));
    assert(o == open) by {
        if o != open {
            assert(prompt[o] == QUOTE);
            assert(prompt[open] == QUOTE);
        }
    }
    assert(c == close) by {
        if c != close {
            assert(prompt[c] == QUOTE);
            assert(prompt[close] == QUOTE);
        }
    }
}

/// A prompt with fewer than two apostrophes names no path. `open` is the
/// one position at which the prompt may hold an apostrophe.
pub proof fn lemma_unquoted(prompt: Seq<char>, open: int)
    requires
        0 <= open <= prompt.len(),
        forall|k: int| 0 <= k < prompt.len() && k != open ==> #[trigger] prompt[k] != QUOTE,
    ensures
        quoted_path(prompt) is None,
{
    if exists|o: int, c: int| is_quoted_at(prompt, o, c) {
        let (o, c) = choose|o: int, c: int| is_quoted_at(prompt, o, c);
        assert(prompt[o] == QUOTE);
        assert(prompt[c] == QUOTE);
    }
}

/// A path has at most one last non-empty segment, so a stretch of the path
/// that is one is the last segment of the path.
pub proof fn lemma_last_segment_once(path: Seq<char>, start: int, end: int)
    requires
        is_last_segment(path, start, end),
    ensures
        last_segment(path) == Some(path.subrange(start, end)),
{
    let (s, e) = choose|s: int, e: int| is_last_segment(path, s, e);
    assert(is_last_segment(path, s, e));
    assert(e == end) by {
        if e < end {
            assert(!is_separator(path[end - 1]));
        }
        if end < e {
            assert(!is_separator(path[e - 1]));
        }
    }
    assert(s == start) by {
        if s < start {
            assert(!is_separator(path[start - 1]));
        }
        if start < s {
            assert(!is_separator(path[s - 1]));
        }
    }
}

/// A path made of separators alone, the empty path among them, has no
/// non-empty segment.
pub proof fn lemma_no_segment(path: Seq<char>)
    requires
        forall|k: int| 0 <= k < path.len() ==> is_separator(#[trigger] path[k]),
    ensures
        last_segment(path) is None,
{
    if exists|s: int, e: int| is_last_segment(path, s, e) {
        let (s, e) = choose|s: int, e: int| is_last_segment(path, s, e);
        assert(!is_separator(path[s]));
    }
}

/// A path that holds no separator and is not empty is its own last segment:
/// a bare name is kept as it stands.
pub proof fn lemma_bare_name_is_kept(path: Seq<char>)
    requires
        path.len() > 0,
        forall|k: int| 0 <= k < path.len() ==> !is_separator(#[trigger] path[k]),
    ensures
        last_segment(path) == Some(path),
{
    assert(is_last_segment(path, 0, path.len() as int));
    lemma_last_segment_once(path, 0, path.len() as int);
    assert(path.subrange(0, path.len() as int) =~= path);
}

/// The last segment of a directory, a separator and a file name is the file
/// name, whatever separators the directory holds.
pub proof fn lemma_file_name_is_last_segment(directory: Seq<char>, separator: char, name: Seq<char>)
    requires
        is_separator(separator),
        name.len() > 0,
        forall|k: int| 0 <= k < name.len() ==> !is_separator(#[trigger] name[k]),
    ensures
        last_segment(directory.push(separator) + name) == Some(name),
{
    let path = directory.push(separator) + name;
    let start = directory.len() as int + 1;
    assert forall|k: int| start <= k < path.len() implies !is_separator(#[trigger] path[k]) by {
        assert(path[k] == name[k - start]);
    }
    assert(path[start - 1] == separator);
    assert(is_last_segment(path, start, path.len() as int));
    lemma_last_segment_once(path, start, path.len() as int);
    assert(path.subrange(start, path.len() as int) =~= name);
}

/// Separators at the end of a path do not count: the path has the last
/// segment that it has without them.
pub proof fn lemma_trailing_separator_is_skipped(path: Seq<char>, separator: char)
    requires
        is_separator(separator),
    ensures
        last_segment(path.push(separator)) == last_segment(path),
{
    let longer = path.push(separator);
    if exists|start: int, end: int| is_last_segment(path, start, end) {
        let (start, end) = choose|start: int, end: int| is_last_segment(path, start, end);
        assert forall|k: int| start <= k < end implies !is_separator(#[trigger] longer[k]) by {
            assert(longer[k] == path[k]);
        }
        assert forall|k: int| end <= k < longer.len() implies is_separator(
            #[trigger] longer[k],
        ) by {
            if k < path.len() {
                assert(longer[k] == path[k]);
            }
        }
        assert(start > 0 ==> longer[start - 1] == path[start - 1]);
        assert(is_last_segment(longer, start, end));
        lemma_last_segment_once(longer, start, end);
        assert(longer.subrange(start, end) =~= path.subrange(start, end));
    } else {
        if exists|start: int, end: int| is_last_segment(longer, start, end) {
            let (start, end) = choose|start: int, end: int| is_last_segment(longer, start, end);
            assert(end <= path.len()) by {
                if end > path.len() {
                    assert(!is_separator(longer[end - 1]));
                }
            }
            assert forall|k: int| start <= k < end implies !is_separator(#[trigger] path[k]) by {
                assert(longer[k] == path[k]);
            }
            assert forall|k: int| end <= k < path.len() implies is_separator(
                #[trigger] path[k],
            ) by {
                assert(longer[k] == path[k]);
            }
            assert(start > 0 ==> longer[start - 1] == path[start - 1]);
            assert(is_last_segment(path, start, end));
        }
    }
}

/// A key identifier is never empty, and unless it is `default` it holds
/// neither a separator nor an apostrophe.
pub proof fn lemma_key_name_is_an_identifier(prompt: Seq<char>)
    ensures
        key_name(prompt).len() > 0,
        key_name(prompt) == DEFAULT_KEY@ || forall|k: int|
            0 <= k < key_name(prompt).len() ==> !is_separator(#[trigger] key_name(prompt)[k])
                && key_name(prompt)[k] != QUOTE,
{
    reveal_strlit("default");
    if let Some(path) = quoted_path(prompt) {
        let (open, close) = choose|open: int, close: int| is_quoted_at(prompt, open, close);
        assert(is_quoted_at(prompt, open, close));
        if let Some(segment) = last_segment(path) {
            let (start, end) = choose|start: int, end: int| is_last_segment(path, start, end);
            assert(is_last_segment(path, start, end));
            assert forall|k: int| 0 <= k < segment.len() implies !is_separator(
                #[trigger] segment[k],
            ) && segment[k] != QUOTE by {
                assert(segment[k] == path[start + k]);
                assert(path[start + k] == prompt[open + 1 + start + k]);
            }
        }
    }
}

/// Tells whether `c` parts the segments of a path.
pub fn is_path_separator(c: char) -> (parts: bool)
    ensures
        parts == is_separator(c),
{
    c == '/' || c == '\\'
}

/// Derives the key identifier from a prompt.
pub fn extract_key_name(prompt: &str) -> (name: String)
    ensures
        name@ == key_name(prompt@),
        name@.len() > 0,
{
    proof {
        lemma_key_name_is_an_identifier(prompt@);
    }
    let chars = chars_of(prompt);
    let n: usize = chars.len();
    let mut open: usize = 0;
    while open < n && chars[open] != QUOTE
        invariant
            open <= n,
            n == chars@.len(),
            forall|k: int| 0 <= k < open ==> #[trigger] chars@[k] != QUOTE,
        decreases n - open,
    {
        open = open + 1;
    }
    if open == n {
        proof {
            lemma_unquoted(prompt@, n as int);
        }
        return String::from_str(DEFAULT_KEY);
    }
    let first: usize = open + 1;
    let mut close: usize = first;
    while close < n && chars[close] != QUOTE
        invariant
            first <= close <= n,
            n == chars@.len(),
            forall|k: int| first <= k < close ==> #[trigger] chars@[k] != QUOTE,
        decreases n - close,
    {
        close = close + 1;
    }
    if close == n {
        proof {
            lemma_unquoted(prompt@, open as int);
        }
        return String::from_str(DEFAULT_KEY);
    }
    let ghost path = prompt@.subrange(first as int, close as int);
    proof {
        lemma_quoted_once(prompt@, open as int, close as int);
    }
    let mut end: usize = close;
    while end > first && is_path_separator(chars[end - 1])
        invariant
            first <= end <= close,
            close < n,
            n == chars@.len(),
            forall|k: int| end <= k < close ==> is_separator(#[trigger] chars@[k]),
        decreases end,
    {
        end = end - 1;
    }
    if end == first {
        proof {
            assert forall|k: int| 0 <= k < path.len() implies is_separator(#[trigger] path[k]) by {
                assert(path[k] == chars@[first + k]);
            }
            lemma_no_segment(path);
        }
        return String::from_str(DEFAULT_KEY);
    }
    let mut start: usize = end - 1;
    while start > first && !is_path_separator(chars[start - 1])
        invariant
            first <= start < end <= close,
            close < n,
            n == chars@.len(),
            forall|k: int| start <= k < end ==> !is_separator(#[trigger] chars@[k]),
        decreases start,
    {
        start = start - 1;
    }
    proof {
        let s = start - first;
        let e = end - first;
        assert forall|k: int| s <= k < e implies !is_separator(#[trigger] path[k]) by {
            assert(path[k] == chars@[first + k]);
        }
        assert forall|k: int| e <= k < path.len() implies is_separator(#[trigger] path[k]) by {
            assert(path[k] == chars@[first + k]);
        }
        assert(s > 0 ==> path[s - 1] == chars@[start - 1]);
        assert(is_last_segment(path, s, e));
        lemma_last_segment_once(path, s, e);
        assert(path.subrange(s, e) =~= prompt@.subrange(start as int, end as int));
    }
    String::from_str(prompt.substring_char(start, end))
}

} // verus!
