//! The input line of the front end: insertion, deletion and cursor moves,
//! by grapheme cluster. A cursor beyond the end of the line counts as at
//! its end.

use crate::clusters::{
    clamped, grapheme_clusters, graphemes, join_parts, joined, line_end, line_end_of, line_start,
    line_start_of, remove_range, text_views, without_range, word_left, word_left_of, word_right,
    word_right_of,
};
use crate::num::least;
use crate::text::push_text;
use crate::tui::App;
use vstd::prelude::*;

verus! {

/// The cursor of a line, kept within it.
pub open spec fn cursor_in(line: Seq<char>, cursor: usize) -> int {
    clamped(cursor as int, grapheme_clusters(line).len() as int)
}

/// The line with `s` put in before the cluster at position `at`.
pub open spec fn with_inserted(line: Seq<char>, at: int, s: Seq<char>) -> Seq<char> {
    let g = grapheme_clusters(line);
    joined(g, 0, at) + s + joined(g, at, g.len() as int)
}

/// Puts `s` into the line before the cluster at `cursor`: the new line and
/// the new cursor, which stands after what was put in.
pub fn insert_at(line: &str, cursor: usize, s: &str) -> (r: (String, usize))
    ensures
        r.0@ == with_inserted(line@, cursor_in(line@, cursor), s@),
        r.1 == least(
            cursor_in(line@, cursor) + grapheme_clusters(s@).len(),
            grapheme_clusters(r.0@).len() as int,
        ),
{
    let parts = graphemes(line);
    let idx = if cursor < parts.len() {
        cursor
    } else {
        parts.len()
    };
    let mut out = join_parts(&parts, 0, idx);
    push_text(&mut out, s);
    let tail = join_parts(&parts, idx, parts.len());
    push_text(&mut out, tail.as_str());
    let added = graphemes(s).len();
    let total = graphemes(out.as_str()).len();
    let at = if idx >= total {
        total
    } else if added >= total - idx {
        total
    } else {
        idx + added
    };
    (out, at)
}

impl App {
    /// Puts `s` into the input line at the cursor and moves the cursor
    /// behind it.
    pub fn insert_text(&mut self, s: &str)
        ensures
            *final(self) == (App {
                input: final(self).input,
                input_cursor: final(self).input_cursor,
                ..*old(self)
            }),
            final(self).input@ == with_inserted(
                old(self).input@,
                cursor_in(old(self).input@, old(self).input_cursor),
                s@,
            ),
            final(self).input_cursor == least(
                cursor_in(old(self).input@, old(self).input_cursor) + grapheme_clusters(s@).len(),
                grapheme_clusters(final(self).input@).len() as int,
            ),
    {
        let (line, cursor) = insert_at(self.input.as_str(), self.input_cursor, s);
        self.input = line;
        self.input_cursor = cursor;
    }

    /// Deletes the cluster before the cursor, if there is one, and moves
    /// the cursor onto its place.
    pub fn delete_left_grapheme(&mut self)
        ensures
            cursor_in(old(self).input@, old(self).input_cursor) == 0 ==> *final(self) == *old(
                self,
            ),
            cursor_in(old(self).input@, old(self).input_cursor) > 0 ==> {
                let i = cursor_in(old(self).input@, old(self).input_cursor);
                &&& *final(self) == (App {
                    input: final(self).input,
                    input_cursor: final(self).input_cursor,
                    ..*old(self)
                })
                &&& final(self).input@ == without_range(
                    grapheme_clusters(old(self).input@),
                    i - 1,
                    i,
                )
                &&& final(self).input_cursor == i - 1
            },
    {
        if self.input_cursor == 0 {
            return ;
        }
        let parts = graphemes(self.input.as_str());
        let idx = if self.input_cursor < parts.len() {
            self.input_cursor
        } else {
            parts.len()
        };
        if idx == 0 {
            return ;
        }
        self.input = remove_range(&parts, idx - 1, idx);
        self.input_cursor = idx - 1;
    }

    /// Deletes the cluster at the cursor, if there is one.
    pub fn delete_right_grapheme(&mut self)
        ensures
            *final(self) == (App { input: final(self).input, ..*old(self) }),
            final(self).input@ == ({
                let g = grapheme_clusters(old(self).input@);
                let i = cursor_in(old(self).input@, old(self).input_cursor);
                if i < g.len() {
                    without_range(g, i, i + 1)
                } else {
                    old(self).input@
                }
            }),
    {
        let parts = graphemes(self.input.as_str());
        let idx = if self.input_cursor < parts.len() {
            self.input_cursor
        } else {
            parts.len()
        };
        if idx < parts.len() {
            self.input = remove_range(&parts, idx, idx + 1);
        }
    }

    /// Moves the cursor to the start of its line.
    pub fn move_cursor_line_start(&mut self)
        ensures
            *final(self) == (App { input_cursor: final(self).input_cursor, ..*old(self) }),
            final(self).input_cursor == line_start_of(
                grapheme_clusters(old(self).input@),
                cursor_in(old(self).input@, old(self).input_cursor),
            ),
    {
        let parts = graphemes(self.input.as_str());
        self.input_cursor = line_start(&parts, self.input_cursor);
    }

    /// Moves the cursor to the end of its line.
    pub fn move_cursor_line_end(&mut self)
        ensures
            *final(self) == (App { input_cursor: final(self).input_cursor, ..*old(self) }),
            final(self).input_cursor == line_end_of(
                grapheme_clusters(old(self).input@),
                cursor_in(old(self).input@, old(self).input_cursor),
            ),
    {
        let parts = graphemes(self.input.as_str());
        self.input_cursor = line_end(&parts, self.input_cursor);
    }

    /// Deletes from the start of the word before the cursor up to the
    /// cursor, and moves the cursor there.
    pub fn delete_prev_word(&mut self)
        ensures
            old(self).input_cursor == 0 ==> *final(self) == *old(self),
            old(self).input_cursor > 0 ==> {
                let g = grapheme_clusters(old(self).input@);
                let i = cursor_in(old(self).input@, old(self).input_cursor);
                &&& *final(self) == (App {
                    input: final(self).input,
                    input_cursor: final(self).input_cursor,
                    ..*old(self)
                })
                &&& final(self).input@ == without_range(g, word_left_of(g, i), i)
                &&& final(self).input_cursor == word_left_of(g, i)
            },
    {
        if self.input_cursor == 0 {
            return ;
        }
        let parts = graphemes(self.input.as_str());
        let idx = if self.input_cursor < parts.len() {
            self.input_cursor
        } else {
            parts.len()
        };
        let start = word_left(&parts, idx);
        self.input = remove_range(&parts, start, idx);
        self.input_cursor = start;
    }

    /// Deletes from the start of the cursor's line up to the cursor, and
    /// moves the cursor there.
    pub fn kill_to_line_start(&mut self)
        ensures
            *final(self) == (App {
                input: final(self).input,
                input_cursor: final(self).input_cursor,
                ..*old(self)
            }),
            final(self).input@ == ({
                let g = grapheme_clusters(old(self).input@);
                let i = cursor_in(old(self).input@, old(self).input_cursor);
                without_range(g, line_start_of(g, i), i)
            }),
            final(self).input_cursor == line_start_of(
                grapheme_clusters(old(self).input@),
                cursor_in(old(self).input@, old(self).input_cursor),
            ),
    {
        let parts = graphemes(self.input.as_str());
        let idx = if self.input_cursor < parts.len() {
            self.input_cursor
        } else {
            parts.len()
        };
        let start = line_start(&parts, idx);
        proof {
            lemma_line_start_below(text_views(parts@), idx as int);
        }
        self.input = remove_range(&parts, start, idx);
        self.input_cursor = start;
    }

    /// Deletes from the cursor up to the end of its line. The cursor stays.
    pub fn kill_to_line_end(&mut self)
        ensures
            *final(self) == (App { input: final(self).input, ..*old(self) }),
            final(self).input@ == ({
                let g = grapheme_clusters(old(self).input@);
                let i = cursor_in(old(self).input@, old(self).input_cursor);
                without_range(g, i, line_end_of(g, i))
            }),
    {
        let parts = graphemes(self.input.as_str());
        let idx = if self.input_cursor < parts.len() {
            self.input_cursor
        } else {
            parts.len()
        };
        let end = line_end(&parts, idx);
        self.input = remove_range(&parts, idx, end);
    }

    /// Moves the cursor to the start of the word before it.
    pub fn move_cursor_word_left(&mut self)
        ensures
            *final(self) == (App { input_cursor: final(self).input_cursor, ..*old(self) }),
            final(self).input_cursor == word_left_of(
                grapheme_clusters(old(self).input@),
                cursor_in(old(self).input@, old(self).input_cursor),
            ),
    {
        let parts = graphemes(self.input.as_str());
        self.input_cursor = word_left(&parts, self.input_cursor);
    }

    /// Moves the cursor to the end of the word after it.
    pub fn move_cursor_word_right(&mut self)
        ensures
            *final(self) == (App { input_cursor: final(self).input_cursor, ..*old(self) }),
            final(self).input_cursor == word_right_of(
                grapheme_clusters(old(self).input@),
                cursor_in(old(self).input@, old(self).input_cursor),
            ),
    {
        let parts = graphemes(self.input.as_str());
        self.input_cursor = word_right(&parts, self.input_cursor);
    }
}

/// The start of a line is not behind the position it is asked for.
pub proof fn lemma_line_start_below(g: Seq<Seq<char>>, i: int)
    requires
        0 <= i,
    ensures
        0 <= line_start_of(g, i) <= i,
    decreases i,
{
    if i > 0 && !crate::clusters::is_newline(g[i - 1]) {
        lemma_line_start_below(g, i - 1);
    }
}

} // verus!
