//! Editing a line of text by grapheme clusters: what the user sees as one
//! character moves and is deleted as one.

use crate::text::{is_blank, push_text, trim};
use vstd::prelude::*;

verus! {

/// The extended grapheme clusters of a text, in order.
pub uninterp spec fn grapheme_clusters(s: Seq<char>) -> Seq<Seq<char>>;

/// The views of a list of strings.
pub open spec fn text_views(v: Seq<String>) -> Seq<Seq<char>> {
    v.map_values(|s: String| s@)
}

/// Calls `UnicodeSegmentation::graphemes` of `unicode-segmentation` with
/// `is_extended` set: the extended grapheme clusters of the text, in
/// order, each copied out.
#[verifier::external_body]
pub(crate) fn graphemes(s: &str) -> (parts: Vec<String>)
    ensures
        text_views(parts@) == grapheme_clusters(s@),
{
    unicode_segmentation::UnicodeSegmentation::graphemes(s, true).map(|g| g.to_string()).collect()
}

/// The clusters `g[from..to]` joined.
pub open spec fn joined(g: Seq<Seq<char>>, from: int, to: int) -> Seq<char>
    decreases to - from,
{
    if from >= to {
        Seq::empty()
    } else {
        joined(g, from, to - 1) + g[to - 1]
    }
}

/// A cursor kept within a line of `len` clusters.
pub open spec fn clamped(cursor: int, len: int) -> int {
    if cursor < len {
        cursor
    } else {
        len
    }
}

/// The cluster is the line feed.
pub open spec fn is_newline(c: Seq<char>) -> bool {
    c == seq!['\n']
}

/// The cluster is whitespace throughout (an empty one too).
pub open spec fn is_gap(c: Seq<char>) -> bool {
    trim(c).len() == 0
}

/// Where the line that holds position `i` starts: just after the nearest
/// line feed before `i`, or at 0.
pub open spec fn line_start_of(g: Seq<Seq<char>>, i: int) -> int
    decreases i,
{
    if i > 0 && !is_newline(g[i - 1]) {
        line_start_of(g, i - 1)
    } else {
        i
    }
}

/// Where the line that holds position `i` ends: at the nearest line feed
/// at or after `i`, or at the end.
pub open spec fn line_end_of(g: Seq<Seq<char>>, i: int) -> int
    decreases g.len() - i,
{
    if i < g.len() && !is_newline(g[i]) {
        line_end_of(g, i + 1)
    } else {
        i
    }
}

/// Position `i` moved left over whitespace.
pub open spec fn skip_gaps_left(g: Seq<Seq<char>>, i: int) -> int
    decreases i,
{
    if i > 0 && is_gap(g[i - 1]) {
        skip_gaps_left(g, i - 1)
    } else {
        i
    }
}

/// Position `i` moved left over what is not whitespace.
pub open spec fn skip_word_left(g: Seq<Seq<char>>, i: int) -> int
    decreases i,
{
    if i > 0 && !is_gap(g[i - 1]) {
        skip_word_left(g, i - 1)
    } else {
        i
    }
}

/// Position `i` moved right over whitespace.
pub open spec fn skip_gaps_right(g: Seq<Seq<char>>, i: int) -> int
    decreases g.len() - i,
{
    if i < g.len() && is_gap(g[i]) {
        skip_gaps_right(g, i + 1)
    } else {
        i
    }
}

/// Position `i` moved right over what is not whitespace.
pub open spec fn skip_word_right(g: Seq<Seq<char>>, i: int) -> int
    decreases g.len() - i,
{
    if i < g.len() && !is_gap(g[i]) {
        skip_word_right(g, i + 1)
    } else {
        i
    }
}

/// The start of the word before position `i`: left over whitespace, then
/// left over the word.
pub open spec fn word_left_of(g: Seq<Seq<char>>, i: int) -> int {
    skip_word_left(g, skip_gaps_left(g, i))
}

/// The end of the word after position `i`: right over whitespace, then
/// right over the word.
pub open spec fn word_right_of(g: Seq<Seq<char>>, i: int) -> int {
    skip_word_right(g, skip_gaps_right(g, i))
}

/// The line without its clusters `[a, b)`.
pub open spec fn without_range(g: Seq<Seq<char>>, a: int, b: int) -> Seq<char> {
    joined(g, 0, a) + joined(g, b, g.len() as int)
}

/// Joins the clusters `parts[from..to]`.
pub fn join_parts(parts: &Vec<String>, from: usize, to: usize) -> (s: String)
    requires
        from <= to <= parts@.len(),
    ensures
        s@ == joined(text_views(parts@), from as int, to as int),
{
    let mut s = String::new();
    let mut i: usize = from;
    while i < to
        invariant
            from <= i <= to <= parts@.len(),
            s@ == joined(text_views(parts@), from as int, i as int),
        decreases to - i,
    {
        push_text(&mut s, parts[i].as_str());
        i = i + 1;
    }
    s
}

/// Joins what is left of the line once the clusters `[a, b)` are taken out.
pub fn remove_range(parts: &Vec<String>, a: usize, b: usize) -> (s: String)
    requires
        a <= b <= parts@.len(),
    ensures
        s@ == without_range(text_views(parts@), a as int, b as int),
{
    let mut s = join_parts(parts, 0, a);
    let tail = join_parts(parts, b, parts.len());
    push_text(&mut s, tail.as_str());
    s
}

/// Tells whether a cluster is the line feed.
pub fn cluster_is_newline(c: &str) -> (r: bool)
    ensures
        r == is_newline(c@),
{
    proof {
        reveal_strlit("\n");
        assert("\n"@ =~= seq!['\n']);
    }
    crate::text::same_text(c, "\n")
}

/// Finds where the line that holds the cursor starts.
pub fn line_start(parts: &Vec<String>, cursor: usize) -> (i: usize)
    ensures
        i == line_start_of(text_views(parts@), clamped(cursor as int, parts@.len() as int)),
        i <= parts@.len(),
{
    let mut i: usize = if cursor < parts.len() {
        cursor
    } else {
        parts.len()
    };
    while i > 0 && !cluster_is_newline(parts[i - 1].as_str())
        invariant
            i <= parts@.len(),
            line_start_of(text_views(parts@), i as int) == line_start_of(
                text_views(parts@),
                clamped(cursor as int, parts@.len() as int),
            ),
        decreases i,
    {
        i = i - 1;
    }
    i
}

/// Finds where the line that holds the cursor ends.
pub fn line_end(parts: &Vec<String>, cursor: usize) -> (i: usize)
    ensures
        i == line_end_of(text_views(parts@), clamped(cursor as int, parts@.len() as int)),
        clamped(cursor as int, parts@.len() as int) <= i <= parts@.len(),
{
    let mut i: usize = if cursor < parts.len() {
        cursor
    } else {
        parts.len()
    };
    while i < parts.len() && !cluster_is_newline(parts[i].as_str())
        invariant
            clamped(cursor as int, parts@.len() as int) <= i <= parts@.len(),
            line_end_of(text_views(parts@), i as int) == line_end_of(
                text_views(parts@),
                clamped(cursor as int, parts@.len() as int),
            ),
        decreases parts@.len() - i,
    {
        i = i + 1;
    }
    i
}

/// Finds the start of the word before the cursor.
pub fn word_left(parts: &Vec<String>, cursor: usize) -> (i: usize)
    ensures
        i == word_left_of(text_views(parts@), clamped(cursor as int, parts@.len() as int)),
        i <= clamped(cursor as int, parts@.len() as int),
{
    let mut i: usize = if cursor < parts.len() {
        cursor
    } else {
        parts.len()
    };
    let ghost start = i;
    while i > 0 && is_blank(parts[i - 1].as_str())
        invariant
            i <= start <= parts@.len(),
            skip_gaps_left(text_views(parts@), i as int) == skip_gaps_left(
                text_views(parts@),
                start as int,
            ),
        decreases i,
    {
        i = i - 1;
    }
    let ghost mid = i;
    while i > 0 && !is_blank(parts[i - 1].as_str())
        invariant
            i <= mid <= parts@.len(),
            skip_word_left(text_views(parts@), i as int) == skip_word_left(
                text_views(parts@),
                mid as int,
            ),
        decreases i,
    {
        i = i - 1;
    }
    i
}

/// Finds the end of the word after the cursor.
pub fn word_right(parts: &Vec<String>, cursor: usize) -> (i: usize)
    ensures
        i == word_right_of(text_views(parts@), clamped(cursor as int, parts@.len() as int)),
        clamped(cursor as int, parts@.len() as int) <= i <= parts@.len(),
{
    let mut i: usize = if cursor < parts.len() {
        cursor
    } else {
        parts.len()
    };
    let ghost start = i;
    while i < parts.len() && is_blank(parts[i].as_str())
        invariant
            start <= i <= parts@.len(),
            skip_gaps_right(text_views(parts@), i as int) == skip_gaps_right(
                text_views(parts@),
                start as int,
            ),
        decreases parts@.len() - i,
    {
        i = i + 1;
    }
    let ghost mid = i;
    while i < parts.len() && !is_blank(parts[i].as_str())
        invariant
            mid <= i <= parts@.len(),
            skip_word_right(text_views(parts@), i as int) == skip_word_right(
                text_views(parts@),
                mid as int,
            ),
        decreases parts@.len() - i,
    {
        i = i + 1;
    }
    i
}

} // verus!
