//! What the front end keeps between runs, and the names of its files.

use crate::text::{push_text, string_of, to_chars, trim, trim_end_at, trim_start_at};
use vstd::prelude::*;

verus! {

/// The part of the front end's state that is saved.
#[derive(Debug)]
pub struct SavedState {
    pub sessions: Vec<String>,
    pub current_session: usize,
    pub show_sidebar: bool,
    pub sidebar_scroll: u16,
}

impl Default for SavedState {
    fn default() -> (s: SavedState)
        ensures
            s.sessions@.len() == 0,
            s.current_session == 0,
            !s.show_sidebar,
            s.sidebar_scroll == 0,
    {
        SavedState {
            sessions: Vec::new(),
            current_session: 0,
            show_sidebar: false,
            sidebar_scroll: 0,
        }
    }
}

/// A character that may not stand in a file name.
pub open spec fn is_reserved(c: char) -> bool {
    c == '<' || c == '>' || c == ':' || c == '"' || c == '/' || c == '\\' || c == '|' || c
        == '?' || c == '*'
}

/// A text with every reserved character replaced by an underscore.
pub open spec fn replace_reserved(s: Seq<char>) -> Seq<char> {
    s.map_values(
        |c: char|
            if is_reserved(c) {
                '_'
            } else {
                c
            },
    )
}

/// The file-name form of a session name: trimmed, reserved characters
/// replaced, and `default` where nothing is left.
pub open spec fn sanitized(name: Seq<char>) -> Seq<char> {
    let s = replace_reserved(trim(name));
    if s.len() == 0 {
        "default"@
    } else {
        s
    }
}

/// Tells whether a character may not stand in a file name.
fn reserved(c: char) -> (r: bool)
    ensures
        r == is_reserved(c),
{
    c == '<' || c == '>' || c == ':' || c == '"' || c == '/' || c == '\\' || c == '|' || c == '?'
        || c == '*'
}

/// Turns a session name into a file name.
pub fn sanitize(name: &str) -> (s: String)
    ensures
        s@ == sanitized(name@),
{
    let chars = to_chars(name);
    let from = trim_start_at(&chars, 0, chars.len());
    let to = trim_end_at(&chars, from, chars.len());
    assert(chars@.subrange(0, chars@.len() as int) =~= chars@);
    let mut out: Vec<char> = Vec::new();
    let mut i: usize = from;
    while i < to
        invariant
            from <= i <= to <= chars@.len(),
            out@ == replace_reserved(chars@.subrange(from as int, i as int)),
        decreases to - i,
    {
        let c = chars[i];
        if reserved(c) {
            out.push('_');
        } else {
            out.push(c);
        }
        assert(out@ =~= replace_reserved(chars@.subrange(from as int, i + 1)));
        i = i + 1;
    }
    if out.len() == 0 {
        "default".to_owned()
    } else {
        assert(out@.subrange(0, out@.len() as int) =~= out@);
        string_of(&out, 0, out.len())
    }
}

/// The name of the file that holds a session.
pub fn session_file_name(name: &str) -> (s: String)
    ensures
        s@ == sanitized(name@) + ".jsonl"@,
{
    let mut s = sanitize(name);
    push_text(&mut s, ".jsonl");
    s
}

} // verus!
