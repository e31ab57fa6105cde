//! What the chat pane shows: the rows of its window, and how a row is cut
//! into spans for the prefix of its message and for the current hit.

use crate::tui::strings::{collapse_text, expand_text, indicator_collapse, indicator_expand};
use crate::tui::App;
use vstd::prelude::*;

verus! {

/// One row of the chat: a wrapped line of a message, or the line that
/// folds or unfolds it.
#[derive(Clone, Copy, Debug, PartialEq, Eq, Structural)]
pub enum Row {
    Line { msg: usize, line: usize },
    Indicator { msg: usize },
}

impl App {
    /// The row on line `global` of the chat, counted from the top, looking
    /// at the first `n` messages.
    pub open spec fn row_of(&self, global: int, n: int) -> Option<Row>
        decreases n,
    {
        if n <= 0 {
            None
        } else {
            match self.row_of(global, n - 1) {
                Some(r) => Some(r),
                None => {
                    let base = self.effective_upto(n - 1);
                    if base <= global < base + self.shown(n - 1) {
                        Some(Row::Line { msg: (n - 1) as usize, line: (global - base) as usize })
                    } else if self.indicator(n - 1) && global == base + self.shown(n - 1) {
                        Some(Row::Indicator { msg: (n - 1) as usize })
                    } else {
                        None
                    }
                },
            }
        }
    }

    /// A row found among the first `k` messages is the one found among
    /// any more.
    pub proof fn lemma_row_stays(&self, global: int, k: int, n: int)
        requires
            0 <= k <= n,
            self.row_of(global, k) is Some,
        ensures
            self.row_of(global, n) == self.row_of(global, k),
        decreases n - k,
    {
        if k < n {
            self.lemma_row_stays(global, k, n - 1);
        }
    }

    /// Lines above the first `k` messages hold no row of them.
    pub proof fn lemma_no_row_before(&self, global: int, k: int)
        requires
            0 <= k,
            global < 0 || global >= self.effective_upto(k),
        ensures
            self.row_of(global, k) is None,
        decreases k,
    {
        if k > 0 {
            self.lemma_no_row_before(global, k - 1);
        }
    }

    /// The rows of a window on the chat that begins at line `start` and is
    /// `viewport` lines high: one row for each line of the chat in the
    /// window, top to bottom.
    pub fn visible_rows(&self, start: usize, viewport: usize) -> (rows: Vec<Row>)
        ensures
            rows@.len() <= viewport,
            forall|k: int|
                0 <= k < rows@.len() ==> self.row_of(start + k, self.chat_cache@.len() as int)
                    == Some(#[trigger] rows@[k]),
            rows@.len() < viewport ==> start + rows@.len() >= self.effective_upto(
                self.chat_cache@.len() as int,
            ),
    {
        let n = self.chat_cache.len();
        let mut rows: Vec<Row> = Vec::new();
        let mut skip: usize = start;
        let mut i: usize = 0;
        while i < n && rows.len() < viewport
            invariant
                i <= n == self.chat_cache@.len(),
                rows@.len() <= viewport,
                rows@.len() < viewport ==> start + rows@.len() == self.effective_upto(i as int)
                    + skip,
                rows@.len() > 0 ==> skip == 0,
                forall|k: int|
                    0 <= k < rows@.len() ==> self.row_of(start + k, n as int) == Some(
                        #[trigger] rows@[k],
                    ),
            decreases n - i,
        {
            let (display, ind) = self.message_display_info(i);
            let ghost base = self.effective_upto(i as int);
            if skip > display || (skip == display && !ind) {
                skip = skip - display;
                if ind {
                    skip = skip - 1;
                }
            } else {
                let mut j: usize = skip;
                while j < display && rows.len() < viewport
                    invariant
                        i < n == self.chat_cache@.len(),
                        skip <= j <= display == self.shown(i as int),
                        rows@.len() <= viewport,
                        base == self.effective_upto(i as int),
                        rows@.len() < viewport || j < display ==> start + rows@.len() == base + j,
                        j == display && rows@.len() == viewport ==> start + rows@.len() <= base + j,
                        forall|k: int|
                            0 <= k < rows@.len() ==> self.row_of(start + k, n as int) == Some(
                                #[trigger] rows@[k],
                            ),
                    decreases display - j,
                {
                    proof {
                        self.lemma_no_row_before(base + j, i as int);
                        self.lemma_row_stays(base + j, i + 1, n as int);
                    }
                    rows.push(Row::Line { msg: i, line: j });
                    j = j + 1;
                }
                if j == display && ind && rows.len() < viewport {
                    proof {
                        self.lemma_no_row_before(base + display, i as int);
                        self.lemma_row_stays(base + display, i + 1, n as int);
                    }
                    rows.push(Row::Indicator { msg: i });
                }
                skip = 0;
            }
            i = i + 1;
        }
        rows
    }

    /// The text of the line that folds or unfolds message `idx`: how many
    /// lines unfolding would add, or how many lines folding would hide.
    pub open spec fn indicator_text(&self, idx: int) -> Seq<char> {
        if self.shown(idx) < self.base_lines(idx) {
            expand_text((self.base_lines(idx) - self.shown(idx)) as nat)
        } else {
            collapse_text(self.base_lines(idx))
        }
    }

    /// Writes the line that folds or unfolds message `idx`.
    pub fn indicator_label(&self, idx: usize) -> (s: String)
        ensures
            s@ == self.indicator_text(idx as int),
    {
        let base = if idx < self.chat_cache.len() {
            self.chat_cache[idx].lines.len()
        } else {
            0
        };
        let (shown, _ind) = self.message_display_info(idx);
        if shown < base {
            indicator_expand(base - shown)
        } else {
            indicator_collapse(base)
        }
    }

    /// The height of the input box one step nearer to what its text
    /// needs: one line more or less at a time, between one line and the
    /// most allowed.
    pub open spec fn eased_lines(&self, total_lines: usize) -> u16 {
        let needed: int = if total_lines < 1 {
            1
        } else {
            total_lines as int
        };
        let target: int = if crate::num::low16(needed as usize) < self.input_max_lines {
            crate::num::low16(needed as usize) as int
        } else {
            self.input_max_lines as int
        };
        let current: int = if self.input_visible_lines >= 1 {
            self.input_visible_lines as int
        } else {
            1
        };
        (if current < target {
            current + 1
        } else if current > target {
            current - 1
        } else {
            current
        }) as u16
    }

    /// Moves the height of the input box one step nearer to what its text
    /// needs, for a text of the given number of wrapped lines.
    pub fn ease_input_lines(&mut self, total_lines: usize)
        ensures
            *final(self) == (App {
                input_visible_lines: old(self).eased_lines(total_lines),
                ..*old(self)
            }),
    {
        let needed = if total_lines < 1 {
            1
        } else {
            total_lines
        };
        let needed16 = #[verifier::truncate]
        (needed as u16);
        let target = if needed16 < self.input_max_lines {
            needed16
        } else {
            self.input_max_lines
        };
        let current = if self.input_visible_lines >= 1 {
            self.input_visible_lines
        } else {
            1
        };
        self.input_visible_lines = if current < target {
            current + 1
        } else if current > target {
            current - 1
        } else {
            current
        };
    }
}

/// How a span of a row is drawn.
#[derive(Clone, Copy, Debug, PartialEq, Eq, Structural)]
pub enum SpanKind {
    /// Part of the current hit of the search.
    Highlight,
    /// Part of the prefix that names the role.
    Header,
    /// Anything else.
    Plain,
}

/// One span of a row: the bytes `[start, end)` of its line.
#[derive(Clone, Copy, Debug, PartialEq, Eq, Structural)]
pub struct LineSpan {
    pub start: usize,
    pub end: usize,
    pub kind: SpanKind,
}

/// The sorted points with one more put in its place, unless it is there.
pub open spec fn with_point(points: Seq<usize>, p: usize) -> Seq<usize>
    decreases points.len(),
{
    if points.len() == 0 {
        seq![p]
    } else if p == points.last() {
        points
    } else if p > points.last() {
        points.push(p)
    } else {
        with_point(points.drop_last(), p).push(points.last())
    }
}

/// The smaller of two numbers.
pub open spec fn smaller(a: usize, b: usize) -> usize {
    if a < b {
        a
    } else {
        b
    }
}

/// Where a line of `len` bytes is cut: at its ends, behind a header of
/// `header` bytes where there is one, and at the ends of the hit, kept
/// within the line. The points are in order, none twice.
pub open spec fn cut_points(len: usize, header: usize, hit: Option<(usize, usize)>) -> Seq<usize> {
    let ends = with_point(seq![0usize], len);
    let with_header = if header > 0 {
        with_point(ends, header)
    } else {
        ends
    };
    match hit {
        Some((s, e)) => with_point(with_point(with_header, smaller(s, len)), smaller(e, len)),
        None => with_header,
    }
}

/// How the span `[a, b)` is drawn: as part of the hit where it overlaps
/// it; else as header where it begins within it; else plainly.
pub open spec fn kind_of(a: usize, b: usize, header: usize, hit: Option<(usize, usize)>) -> SpanKind {
    match hit {
        Some((s, e)) => if a < e && b > s {
            SpanKind::Highlight
        } else if a < header {
            SpanKind::Header
        } else {
            SpanKind::Plain
        },
        None => if a < header {
            SpanKind::Header
        } else {
            SpanKind::Plain
        },
    }
}

/// The spans between the first `n` neighbouring points.
pub open spec fn spans_between(
    points: Seq<usize>,
    n: int,
    header: usize,
    hit: Option<(usize, usize)>,
) -> Seq<LineSpan>
    decreases n,
{
    if n <= 0 {
        Seq::empty()
    } else {
        spans_between(points, n - 1, header, hit).push(
            LineSpan {
                start: points[n - 1],
                end: points[n],
                kind: kind_of(points[n - 1], points[n], header, hit),
            },
        )
    }
}

/// The spans of a line: one between each two neighbouring cut points.
pub open spec fn spans_of(len: usize, header: usize, hit: Option<(usize, usize)>) -> Seq<LineSpan> {
    let points = cut_points(len, header, hit);
    spans_between(points, points.len() - 1, header, hit)
}

/// Puts a point into the sorted points, unless it is there.
pub fn add_point(points: &mut Vec<usize>, p: usize)
    ensures
        final(points)@ == with_point(old(points)@, p),
        final(points)@.len() > 0,
{
    let ghost before = points@;
    let mut tail: Vec<usize> = Vec::new();
    loop
        invariant
            with_point(before, p) == with_point(points@, p) + tail@.reverse(),
        ensures
            points@ + tail@.reverse() == with_point(before, p),
        decreases points@.len(),
    {
        let n = points.len();
        if n == 0 {
            points.push(p);
            break ;
        }
        let last = points[n - 1];
        if p == last {
            break ;
        }
        if p > last {
            points.push(p);
            break ;
        }
        let ghost prev = points@;
        let ghost prev_tail = tail@;
        points.pop();
        tail.push(last);
        proof {
            assert(points@ =~= prev.drop_last());
            assert(tail@.reverse() =~= seq![last] + prev_tail.reverse());
            assert(with_point(prev, p) =~= with_point(points@, p).push(last));
            assert(with_point(points@, p).push(last) + prev_tail.reverse() =~= with_point(
                points@,
                p,
            ) + tail@.reverse());
        }
    }
    while tail.len() > 0
        invariant
            points@ + tail@.reverse() == with_point(before, p),
            points@.len() > 0,
        decreases tail@.len(),
    {
        let ghost pts = points@;
        let ghost tl = tail@;
        let x = tail.pop().unwrap();
        points.push(x);
        proof {
            assert(tl.reverse() =~= seq![x] + tail@.reverse());
            assert(points@ + tail@.reverse() =~= pts + tl.reverse());
        }
    }
    assert(points@ + tail@.reverse() =~= points@);
}

/// Cuts a line into its spans.
pub fn line_spans(len: usize, header: usize, hit: Option<(usize, usize)>) -> (spans: Vec<LineSpan>)
    ensures
        spans@ == spans_of(len, header, hit),
{
    let mut points: Vec<usize> = Vec::new();
    points.push(0);
    assert(points@ =~= seq![0usize]);
    add_point(&mut points, len);
    if header > 0 {
        add_point(&mut points, header);
    }
    if let Some((s, e)) = hit {
        add_point(&mut points, if s < len {
            s
        } else {
            len
        });
        add_point(&mut points, if e < len {
            e
        } else {
            len
        });
    }
    assert(points@ == cut_points(len, header, hit));
    let mut spans: Vec<LineSpan> = Vec::new();
    let n = points.len();
    let mut i: usize = 0;
    while i + 1 < n
        invariant
            i < n == points@.len(),
            spans@ == spans_between(points@, i as int, header, hit),
        decreases n - i,
    {
        let a = points[i];
        let b = points[i + 1];
        let kind = match hit {
            Some((s, e)) => if a < e && b > s {
                SpanKind::Highlight
            } else if a < header {
                SpanKind::Header
            } else {
                SpanKind::Plain
            },
            None => if a < header {
                SpanKind::Header
            } else {
                SpanKind::Plain
            },
        };
        spans.push(LineSpan { start: a, end: b, kind });
        i = i + 1;
    }
    spans
}

} // verus!
