//! The one-line editors of the overlays (search box, rename box, palette,
//! model picker): a text and a cursor that counts grapheme clusters.

use crate::clusters::{grapheme_clusters, graphemes, remove_range, without_range};
use crate::num::minus;
use crate::tui::input::{cursor_in, with_inserted};
use vstd::prelude::*;

verus! {

/// The text of one character.
pub open spec fn char_text(c: char) -> Seq<char> {
    seq![c]
}

/// The text after a backspace: without the cluster before the cursor,
/// where there is one.
pub open spec fn after_backspace(buffer: Seq<char>, cursor: usize) -> Seq<char> {
    let c = cursor_in(buffer, cursor);
    if cursor > 0 && c > 0 {
        without_range(grapheme_clusters(buffer), c - 1, c)
    } else {
        buffer
    }
}

/// The text after a delete: without the cluster at the cursor, where
/// there is one.
pub open spec fn after_delete(buffer: Seq<char>, cursor: usize) -> Seq<char> {
    let g = grapheme_clusters(buffer);
    let c = cursor_in(buffer, cursor);
    if c < g.len() {
        without_range(g, c, c + 1)
    } else {
        buffer
    }
}

/// One more, unless that cannot be held.
pub open spec fn succ(n: usize) -> usize {
    if n < usize::MAX {
        (n + 1) as usize
    } else {
        n
    }
}

/// Deletes the cluster before the cursor and moves the cursor one to the
/// left. Says whether the cursor was beyond the start.
pub fn buffer_backspace(buffer: &mut String, cursor: &mut usize) -> (changed: bool)
    ensures
        changed == (*old(cursor) > 0),
        final(buffer)@ == after_backspace(old(buffer)@, *old(cursor)),
        *final(cursor) == minus(*old(cursor) as int, 1),
{
    if *cursor == 0 {
        return false;
    }
    let parts = graphemes(buffer.as_str());
    let c = if *cursor < parts.len() {
        *cursor
    } else {
        parts.len()
    };
    if c > 0 {
        *buffer = remove_range(&parts, c - 1, c);
    }
    *cursor = *cursor - 1;
    true
}

/// Deletes the cluster at the cursor. Says whether there was one.
pub fn buffer_delete(buffer: &mut String, cursor: usize) -> (changed: bool)
    ensures
        changed == (cursor_in(old(buffer)@, cursor) < grapheme_clusters(old(buffer)@).len()),
        final(buffer)@ == after_delete(old(buffer)@, cursor),
{
    let parts = graphemes(buffer.as_str());
    let c = if cursor < parts.len() {
        cursor
    } else {
        parts.len()
    };
    if c < parts.len() {
        *buffer = remove_range(&parts, c, c + 1);
        true
    } else {
        false
    }
}

/// Moves the cursor one to the left, not beyond the start.
pub fn cursor_left(cursor: &mut usize)
    ensures
        *final(cursor) == minus(*old(cursor) as int, 1),
{
    if *cursor > 0 {
        *cursor = *cursor - 1;
    }
}

/// Moves the cursor one to the right, not beyond the end of the text.
pub fn cursor_right(buffer: &str, cursor: &mut usize)
    ensures
        *final(cursor) == (if *old(cursor) < grapheme_clusters(buffer@).len() {
            *old(cursor) + 1
        } else {
            *old(cursor) as int
        }),
{
    let l = graphemes(buffer).len();
    if *cursor < l {
        *cursor = *cursor + 1;
    }
}

/// The position behind the last cluster of a text.
pub fn end_of(buffer: &str) -> (n: usize)
    ensures
        n == grapheme_clusters(buffer@).len(),
{
    graphemes(buffer).len()
}

/// Puts a character into the text at the cursor and moves the cursor one
/// to the right.
pub fn buffer_insert(buffer: &mut String, cursor: &mut usize, ch: char)
    ensures
        final(buffer)@ == with_inserted(
            old(buffer)@,
            cursor_in(old(buffer)@, *old(cursor)),
            char_text(ch),
        ),
        *final(cursor) == succ(*old(cursor)),
{
    let parts = graphemes(buffer.as_str());
    let c = if *cursor < parts.len() {
        *cursor
    } else {
        parts.len()
    };
    let mut out = crate::clusters::join_parts(&parts, 0, c);
    crate::text::push_char(&mut out, ch);
    let tail = crate::clusters::join_parts(&parts, c, parts.len());
    crate::text::push_text(&mut out, tail.as_str());
    assert(out@ =~= with_inserted(old(buffer)@, c as int, char_text(ch)));
    *buffer = out;
    if *cursor < usize::MAX {
        *cursor = *cursor + 1;
    }
}

/// Moves a selection one up, not above the first entry.
pub fn select_up(selected: &mut usize)
    ensures
        *final(selected) == minus(*old(selected) as int, 1),
{
    if *selected > 0 {
        *selected = *selected - 1;
    }
}

/// Moves a selection one down, not below the last of `len` entries.
pub fn select_down(selected: &mut usize, len: usize)
    ensures
        *final(selected) == (if *old(selected) + 1 < len {
            *old(selected) + 1
        } else {
            *old(selected) as int
        }),
{
    if *selected < len && *selected + 1 < len {
        *selected = *selected + 1;
    }
}

} // verus!
