//! Measuring text for the screen: on which line and column of a wrapped
//! input the cursor stands, and what of the status bar fits its width.

use crate::clusters::{
    cluster_is_newline, grapheme_clusters, graphemes, is_newline, join_parts, joined, text_views,
};
use crate::num::{cap, least, low16};
use crate::text::{decimal_of, push_decimal, push_text};
use crate::tui::chat::{display_width, width_of, wrap_text, wrapped_lines};
use vstd::prelude::*;

verus! {

/// A place in wrapped text: the line, counted from 0, and the column.
pub ghost struct Caret {
    pub line: nat,
    pub col: nat,
}

/// Where the caret stands one cluster on: a line feed begins a new line; a
/// cluster of `w` columns that would pass the width begins a new line and
/// stands at its start; any other cluster stands behind the caret.
pub open spec fn next_caret(c: Caret, newline: bool, w: nat, width: nat) -> Caret {
    if newline {
        Caret { line: c.line + 1, col: 0 }
    } else if c.col + w > width {
        Caret { line: c.line + 1, col: w }
    } else {
        Caret { line: c.line, col: c.col + w }
    }
}

/// Where the caret stands after the first `n` clusters of a text that is
/// wrapped at `width` columns.
pub open spec fn caret_after(g: Seq<Seq<char>>, n: int, width: nat) -> Caret
    decreases n,
{
    if n <= 0 {
        Caret { line: 0, col: 0 }
    } else {
        next_caret(caret_after(g, n - 1, width), is_newline(g[n - 1]), width_of(g[n - 1]), width)
    }
}

/// Moves a caret one cluster on. Each number stops at the largest that
/// can be held.
pub fn caret_step(line: usize, col: usize, newline: bool, w: usize, width: u16) -> (r: (
    usize,
    usize,
))
    ensures
        r.0 == cap(
            next_caret(Caret { line: line as nat, col: col as nat }, newline, w as nat, width as nat).line,
        ),
        r.1 == cap(
            next_caret(Caret { line: line as nat, col: col as nat }, newline, w as nat, width as nat).col,
        ),
{
    if newline {
        (line.saturating_add(1), 0)
    } else if col.saturating_add(w) > width as usize {
        (line.saturating_add(1), w)
    } else {
        (line, col + w)
    }
}

/// Walks the first `upto` clusters of a text wrapped at `width` columns
/// and says where the caret then stands, each number stopping at the
/// largest that can be held.
pub fn caret_at(parts: &Vec<String>, upto: usize, width: u16) -> (r: (usize, usize))
    ensures
        r.0 == cap(
            caret_after(
                text_views(parts@),
                least(upto as int, parts@.len() as int),
                width as nat,
            ).line,
        ),
        r.1 == cap(
            caret_after(
                text_views(parts@),
                least(upto as int, parts@.len() as int),
                width as nat,
            ).col,
        ),
{
    let n = if upto < parts.len() {
        upto
    } else {
        parts.len()
    };
    let mut line: usize = 0;
    let mut col: usize = 0;
    let mut i: usize = 0;
    while i < n
        invariant
            i <= n <= parts@.len(),
            line == cap(caret_after(text_views(parts@), i as int, width as nat).line),
            col == cap(caret_after(text_views(parts@), i as int, width as nat).col),
        decreases n - i,
    {
        let g = parts[i].as_str();
        let newline = cluster_is_newline(g);
        let w = display_width(g);
        let (l, c) = caret_step(line, col, newline, w, width);
        line = l;
        col = c;
        i = i + 1;
    }
    (line, col)
}

/// The lines that a text takes when wrapped at `width` columns; one where
/// the width is nothing.
pub fn measure_total_lines(s: &str, width: u16) -> (lines: usize)
    ensures
        lines == (if width == 0 {
            1usize
        } else {
            cap(
                1 + caret_after(
                    grapheme_clusters(s@),
                    grapheme_clusters(s@).len() as int,
                    width as nat,
                ).line,
            )
        }),
{
    if width == 0 {
        return 1;
    }
    let parts = graphemes(s);
    let (line, _col) = caret_at(&parts, parts.len(), width);
    line.saturating_add(1)
}

/// The line on which the caret stands after `upto` clusters of text
/// wrapped at `width` columns; the first where the width is nothing.
pub fn measure_prefix_line(graphemes: &Vec<String>, upto: usize, width: u16) -> (line: usize)
    ensures
        line == (if width == 0 {
            0usize
        } else {
            cap(
                caret_after(
                    text_views(graphemes@),
                    least(upto as int, graphemes@.len() as int),
                    width as nat,
                ).line,
            )
        }),
{
    if width == 0 {
        return 0;
    }
    let (line, _col) = caret_at(graphemes, upto, width);
    line
}

/// The line and the column on which the caret stands after `upto`
/// clusters of text wrapped at `width` columns, each in sixteen bits.
pub fn measure_prefix_line_col(graphemes: &Vec<String>, upto: usize, width: u16) -> (r: (u16, u16))
    ensures
        r == (if width == 0 {
            (0u16, 0u16)
        } else {
            let c = caret_after(
                text_views(graphemes@),
                least(upto as int, graphemes@.len() as int),
                width as nat,
            );
            (low16(cap(c.line)), low16(cap(c.col)))
        }),
{
    if width == 0 {
        return (0, 0);
    }
    let (line, col) = caret_at(graphemes, upto, width);
    (#[verifier::truncate]
    (line as u16), #[verifier::truncate]
    (col as u16))
}

/// What separates the segments of the status bar.
pub open spec fn separator() -> Seq<char> {
    "  |  "@
}

/// The columns that segments of the given widths take, the first `n` of
/// them, with a separator of `sep` columns between neighbours.
pub open spec fn used_by(widths: Seq<nat>, sep: nat, n: int) -> nat
    decreases n,
{
    if n <= 0 {
        0
    } else if n == 1 {
        widths[0]
    } else {
        used_by(widths, sep, n - 1) + sep + widths[n - 1]
    }
}

/// How many of the first `n` segments are shown in `max_width` columns:
/// segments are taken from the front for as long as the next still fits.
pub open spec fn fitting(widths: Seq<nat>, sep: nat, max_width: nat, n: int) -> int
    decreases n,
{
    if n <= 0 {
        0
    } else {
        let k = fitting(widths, sep, max_width, n - 1);
        if k == n - 1 && used_by(widths, sep, n) <= max_width {
            n
        } else {
            k
        }
    }
}

/// The widths of a list of segments.
pub open spec fn widths_of(segments: Seq<Seq<char>>) -> Seq<nat> {
    segments.map_values(|s: Seq<char>| width_of(s))
}

/// The widths as numbers without bound.
pub open spec fn as_nats(widths: Seq<usize>) -> Seq<nat> {
    widths.map_values(|w: usize| w as nat)
}

/// The first `n` segments joined by the separator.
pub open spec fn joined_segments(segments: Seq<Seq<char>>, n: int) -> Seq<char>
    decreases n,
{
    if n <= 0 {
        Seq::empty()
    } else if n == 1 {
        segments[0]
    } else {
        joined_segments(segments, n - 1) + separator() + segments[n - 1]
    }
}

/// The status line for the segments: as many of them, from the front, as
/// fit the width, joined by the separator.
pub open spec fn status_line_of(segments: Seq<Seq<char>>, max_width: u16) -> Seq<char> {
    joined_segments(
        segments,
        fitting(
            widths_of(segments),
            width_of(separator()),
            max_width as nat,
            segments.len() as int,
        ),
    )
}

/// Counts how many segments of the given widths, from the front, fit the
/// width, with a separator of `sep` columns between neighbours.
pub fn fitting_count(widths: &Vec<usize>, sep: usize, max_width: u16) -> (k: usize)
    ensures
        k == fitting(as_nats(widths@), sep as nat, max_width as nat, widths@.len() as int),
        k <= widths@.len(),
{
    let ghost ws = as_nats(widths@);
    let mut used: usize = 0;
    let mut i: usize = 0;
    while i < widths.len()
        invariant
            i <= widths@.len(),
            ws == as_nats(widths@),
            fitting(ws, sep as nat, max_width as nat, i as int) == i,
            used == used_by(ws, sep as nat, i as int),
            used <= max_width,
        decreases widths@.len() - i,
    {
        let w = widths[i];
        assert(ws[i as int] == w as nat);
        let addw = if i == 0 {
            w
        } else {
            w.saturating_add(sep)
        };
        if used.saturating_add(addw) > max_width as usize {
            proof {
                lemma_fitting_stops(ws, sep as nat, max_width as nat, i as int, ws.len() as int);
            }
            return i;
        }
        used = used + addw;
        i = i + 1;
    }
    i
}

/// Joins as many of the segments, from the front, as fit the width.
pub fn fit_segments(segments: &Vec<String>, max_width: u16) -> (out: String)
    ensures
        out@ == status_line_of(text_views(segments@), max_width),
{
    let sep = "  |  ";
    let sepw = display_width(sep);
    let ghost segs = text_views(segments@);
    let mut widths: Vec<usize> = Vec::new();
    let mut i: usize = 0;
    while i < segments.len()
        invariant
            i <= segments@.len(),
            segs == text_views(segments@),
            widths@.len() == i,
            forall|k: int| 0 <= k < i ==> widths@[k] == width_of(#[trigger] segs[k]),
        decreases segments@.len() - i,
    {
        assert(segs[i as int] == segments@[i as int]@);
        widths.push(display_width(segments[i].as_str()));
        i = i + 1;
    }
    assert(as_nats(widths@) =~= widths_of(segs));
    let count = fitting_count(&widths, sepw, max_width);
    let mut out = String::new();
    let mut j: usize = 0;
    while j < count
        invariant
            j <= count <= segments@.len(),
            segs == text_views(segments@),
            sep@ == separator(),
            out@ == joined_segments(segs, j as int),
        decreases count - j,
    {
        if j > 0 {
            push_text(&mut out, sep);
        }
        push_text(&mut out, segments[j].as_str());
        assert(segs[j as int] == segments@[j as int]@);
        assert(out@ =~= joined_segments(segs, j + 1));
        j = j + 1;
    }
    out
}

/// Once a segment does not fit, no later one is shown.
pub proof fn lemma_fitting_stops(widths: Seq<nat>, sep: nat, max_width: nat, k: int, n: int)
    requires
        0 <= k < n,
        fitting(widths, sep, max_width, k) == k,
        used_by(widths, sep, k + 1) > max_width,
    ensures
        fitting(widths, sep, max_width, n) == k,
    decreases n - k,
{
    if n > k + 1 {
        lemma_fitting_stops(widths, sep, max_width, k, n - 1);
    }
}

/// The hints at the end of the status bar, the most useful first.
pub open spec fn hints() -> Seq<Seq<char>> {
    seq![
        "Enter: send; Shift+Enter: newline"@,
        "PgUp/PgDn: scroll; Shift+Pg: fast"@,
        "Ctrl+Arrow: fine"@,
        "F2: sessions"@,
        "History: Up/Down"@,
        "Ctrl+F: search; F3/Shift+F3: next/prev"@,
        "?: help"@,
    ]
}

/// The segment that names provider, model and wire.
pub open spec fn provider_segment(p: (Seq<char>, Seq<char>, Seq<char>)) -> Seq<char> {
    "["@ + p.0 + "]["@ + p.1 + "]["@ + p.2 + "]"@
}

/// The segment that tells where the chat sticks, which pane has the
/// focus, and where the caret stands.
pub open spec fn place_segment(stick: Seq<char>, focus: Seq<char>, line: u16, col: u16) -> Seq<
    char,
> {
    "["@ + stick + "]["@ + focus + "] L"@ + decimal_of(line as nat) + " C"@ + decimal_of(
        col as nat,
    )
}

/// A label followed by a number.
pub open spec fn counted(label: Seq<char>, n: nat) -> Seq<char> {
    label + decimal_of(n)
}

/// The segment of the token counts: prompt, completion, and their sum,
/// which stops at the largest number that thirty-two bits hold.
pub open spec fn usage_segment(p: u32, c: u32) -> Seq<char> {
    "Tok:"@ + decimal_of(p as nat) + "/"@ + decimal_of(c as nat) + "/"@ + decimal_of(
        (if p + c > u32::MAX {
            u32::MAX as int
        } else {
            p + c
        }) as nat,
    )
}

/// The segment of the search: the text, and which hit of how many; zero
/// of zero where there is none.
pub open spec fn search_segment(q: Seq<char>, cur: usize, total: usize) -> Seq<char> {
    if total > 0 {
        "Search:"@ + q + " ("@ + decimal_of(cur as nat) + "/"@ + decimal_of(total as nat) + ")"@
    } else {
        "Search:"@ + q + " (0/0)"@
    }
}

/// One segment where there is a value, none where there is not.
pub open spec fn maybe(o: Option<Seq<char>>) -> Seq<Seq<char>> {
    match o {
        Some(s) => seq![s],
        None => Seq::empty(),
    }
}

/// The text of an optional text.
pub open spec fn opt_str(o: Option<&str>) -> Option<Seq<char>> {
    match o {
        Some(s) => Some(s@),
        None => None,
    }
}

/// The segments of the status bar, in the order of their importance:
/// provider, place, history and context counts, the sampling options that
/// are set, the token counts, the search, and the hints.
pub open spec fn status_segments(
    stick: Seq<char>,
    focus: Seq<char>,
    line_disp: u16,
    col_disp: u16,
    history_len: usize,
    context_len: usize,
    provider: Option<(Seq<char>, Seq<char>, Seq<char>)>,
    search_info: Option<(Seq<char>, usize, usize)>,
    usage: Option<(u32, u32)>,
    temp: Option<Seq<char>>,
    top_p: Option<Seq<char>>,
    max_tokens: Option<u32>,
) -> Seq<Seq<char>> {
    maybe(
        match provider {
            Some(p) => Some(provider_segment(p)),
            None => None,
        },
    ) + seq![
        place_segment(stick, focus, line_disp, col_disp),
        counted("Hist:"@, history_len as nat),
        counted("Ctx:"@, context_len as nat),
    ] + maybe(
        match temp {
            Some(t) => Some("T:"@ + t),
            None => None,
        },
    ) + maybe(
        match top_p {
            Some(p) => Some("P:"@ + p),
            None => None,
        },
    ) + maybe(
        match max_tokens {
            Some(m) => Some(counted("Max:"@, m as nat)),
            None => None,
        },
    ) + maybe(
        match usage {
            Some(u) => Some(usage_segment(u.0, u.1)),
            None => None,
        },
    ) + maybe(
        match search_info {
            Some(s) => Some(search_segment(s.0, s.1, s.2)),
            None => None,
        },
    ) + hints()
}

/// Adds a segment to the list.
fn add_segment(segments: &mut Vec<String>, s: String)
    ensures
        text_views(final(segments)@) == text_views(old(segments)@).push(s@),
{
    let ghost before = segments@;
    segments.push(s);
    assert(text_views(segments@) =~= text_views(before).push(s@));
}

/// Adds a segment to the list, where there is one.
fn add_optional(segments: &mut Vec<String>, s: Option<String>)
    ensures
        text_views(final(segments)@) == text_views(old(segments)@) + maybe(
            crate::llm::opt_text(s),
        ),
{
    match s {
        Some(s) => {
            add_segment(segments, s);
            assert(text_views(segments@) =~= text_views(old(segments)@) + seq![s@]);
        },
        None => {
            assert(text_views(segments@) =~= text_views(old(segments)@) + Seq::<
                Seq<char>,
            >::empty());
        },
    }
}

/// Adds the hints to the list.
fn add_hints(segments: &mut Vec<String>)
    ensures
        text_views(final(segments)@) == text_views(old(segments)@) + hints(),
{
    add_segment(segments, "Enter: send; Shift+Enter: newline".to_owned());
    add_segment(segments, "PgUp/PgDn: scroll; Shift+Pg: fast".to_owned());
    add_segment(segments, "Ctrl+Arrow: fine".to_owned());
    add_segment(segments, "F2: sessions".to_owned());
    add_segment(segments, "History: Up/Down".to_owned());
    add_segment(segments, "Ctrl+F: search; F3/Shift+F3: next/prev".to_owned());
    add_segment(segments, "?: help".to_owned());
    assert(text_views(segments@) =~= text_views(old(segments)@) + hints());
}

/// Writes the segment that names provider, model and wire.
fn write_provider(prov: &str, model: &str, wire: &str) -> (s: String)
    ensures
        s@ == provider_segment((prov@, model@, wire@)),
{
    let mut s = String::new();
    push_text(&mut s, "[");
    push_text(&mut s, prov);
    push_text(&mut s, "][");
    push_text(&mut s, model);
    push_text(&mut s, "][");
    push_text(&mut s, wire);
    push_text(&mut s, "]");
    assert(s@ =~= provider_segment((prov@, model@, wire@)));
    s
}

/// Writes the segment of stick, focus and caret.
fn write_place(stick: &str, focus: &str, line: u16, col: u16) -> (s: String)
    ensures
        s@ == place_segment(stick@, focus@, line, col),
{
    let mut s = String::new();
    push_text(&mut s, "[");
    push_text(&mut s, stick);
    push_text(&mut s, "][");
    push_text(&mut s, focus);
    push_text(&mut s, "] L");
    push_decimal(&mut s, line as u64);
    push_text(&mut s, " C");
    push_decimal(&mut s, col as u64);
    assert(s@ =~= place_segment(stick@, focus@, line, col));
    s
}

/// Writes a label followed by a number.
fn write_counted(label: &str, n: u64) -> (s: String)
    ensures
        s@ == counted(label@, n as nat),
{
    let mut s = String::new();
    push_text(&mut s, label);
    push_decimal(&mut s, n);
    assert(s@ =~= counted(label@, n as nat));
    s
}

/// Writes a label followed by a text.
fn write_labelled(label: &str, text: &str) -> (s: String)
    ensures
        s@ == label@ + text@,
{
    let mut s = String::new();
    push_text(&mut s, label);
    push_text(&mut s, text);
    assert(s@ =~= label@ + text@);
    s
}

/// Writes the segment of the token counts.
fn write_usage(p: u32, c: u32) -> (s: String)
    ensures
        s@ == usage_segment(p, c),
{
    let t = p.saturating_add(c);
    let mut s = String::new();
    push_text(&mut s, "Tok:");
    push_decimal(&mut s, p as u64);
    push_text(&mut s, "/");
    push_decimal(&mut s, c as u64);
    push_text(&mut s, "/");
    push_decimal(&mut s, t as u64);
    assert(s@ =~= usage_segment(p, c));
    s
}

/// Writes the segment of the search.
fn write_search(q: &str, cur: usize, total: usize) -> (s: String)
    ensures
        s@ == search_segment(q@, cur, total),
{
    let mut s = String::new();
    push_text(&mut s, "Search:");
    push_text(&mut s, q);
    if total > 0 {
        push_text(&mut s, " (");
        push_decimal(&mut s, cur as u64);
        push_text(&mut s, "/");
        push_decimal(&mut s, total as u64);
        push_text(&mut s, ")");
    } else {
        push_text(&mut s, " (0/0)");
    }
    assert(s@ =~= search_segment(q@, cur, total));
    s
}

/// Builds the status line: its segments, as many as fit the width, joined
/// by the separator. The temperature and the nucleus size come written
/// out.
pub fn build_status_line(
    stick: &str,
    focus: &str,
    line_disp: u16,
    col_disp: u16,
    history_len: usize,
    context_len: usize,
    provider: Option<(&str, &str, &str)>,
    search_info: Option<(String, usize, usize)>,
    max_width: u16,
    usage: Option<(u32, u32)>,
    temp: Option<&str>,
    top_p: Option<&str>,
    max_tokens: Option<u32>,
) -> (out: String)
    ensures
        out@ == status_line_of(
            status_segments(
                stick@,
                focus@,
                line_disp,
                col_disp,
                history_len,
                context_len,
                match provider {
                    Some(p) => Some((p.0@, p.1@, p.2@)),
                    None => None,
                },
                match search_info {
                    Some(s) => Some((s.0@, s.1, s.2)),
                    None => None,
                },
                usage,
                opt_str(temp),
                opt_str(top_p),
                max_tokens,
            ),
            max_width,
        ),
{
    let mut segments: Vec<String> = Vec::new();
    let ghost s0 = text_views(segments@);
    assert(s0 =~= Seq::<Seq<char>>::empty());
    add_optional(
        &mut segments,
        match provider {
            Some((prov, model, wire)) => Some(write_provider(prov, model, wire)),
            None => None,
        },
    );
    let ghost s1 = text_views(segments@);
    add_segment(&mut segments, write_place(stick, focus, line_disp, col_disp));
    add_segment(&mut segments, write_counted("Hist:", history_len as u64));
    add_segment(&mut segments, write_counted("Ctx:", context_len as u64));
    let ghost s2 = text_views(segments@);
    assert(s2 =~= s1 + seq![
        place_segment(stick@, focus@, line_disp, col_disp),
        counted("Hist:"@, history_len as nat),
        counted("Ctx:"@, context_len as nat),
    ]);
    add_optional(
        &mut segments,
        match temp {
            Some(t) => Some(write_labelled("T:", t)),
            None => None,
        },
    );
    add_optional(
        &mut segments,
        match top_p {
            Some(p) => Some(write_labelled("P:", p)),
            None => None,
        },
    );
    add_optional(
        &mut segments,
        match max_tokens {
            Some(m) => Some(write_counted("Max:", m as u64)),
            None => None,
        },
    );
    add_optional(
        &mut segments,
        match usage {
            Some((p, c)) => Some(write_usage(p, c)),
            None => None,
        },
    );
    add_optional(
        &mut segments,
        match &search_info {
            Some((q, cur, total)) => Some(write_search(q.as_str(), *cur, *total)),
            None => None,
        },
    );
    add_hints(&mut segments);
    fit_segments(&segments, max_width)
}

/// The text before the cursor of a line: its first `cursor` clusters, or
/// all of them where there are fewer.
pub open spec fn text_before(line: Seq<char>, cursor: usize) -> Seq<char> {
    let g = grapheme_clusters(line);
    joined(g, 0, least(cursor as int, g.len() as int))
}

/// The columns that the text before the cursor of a line takes.
pub fn prefix_width(line: &str, cursor: usize) -> (w: usize)
    ensures
        w == width_of(text_before(line@, cursor)),
{
    let parts = graphemes(line);
    let upto = if cursor < parts.len() {
        cursor
    } else {
        parts.len()
    };
    let prefix = join_parts(&parts, 0, upto);
    display_width(prefix.as_str())
}

/// One more in sixteen bits, from the largest number round to zero.
pub open spec fn next16(x: u16) -> u16 {
    if x == u16::MAX {
        0
    } else {
        (x + 1) as u16
    }
}

/// Where the status bar says the caret stands, for the lines that the
/// text before it wraps to: the number of the last line and one more than
/// its width, each counted from one and held in sixteen bits; line one,
/// column one, where there is no line.
pub open spec fn caret_shown(wrapped: Seq<Seq<char>>) -> (u16, u16) {
    if wrapped.len() == 0 {
        (1u16, 1u16)
    } else {
        (
            next16(low16((wrapped.len() - 1) as usize)),
            next16(low16(cap(width_of(wrapped.last())))),
        )
    }
}

/// Tells where the status bar says the caret stands, from the lines that
/// the text before it wraps to.
pub fn caret_display(wrapped: &Vec<String>) -> (r: (u16, u16))
    ensures
        r == caret_shown(text_views(wrapped@)),
{
    let n = wrapped.len();
    if n == 0 {
        return (1, 1);
    }
    let w = display_width(wrapped[n - 1].as_str());
    assert(text_views(wrapped@).last() == wrapped@[n - 1]@);
    let line_idx = #[verifier::truncate]
    ((n - 1) as u16);
    let col_width = #[verifier::truncate]
    (w as u16);
    (line_idx.wrapping_add(1), col_width.wrapping_add(1))
}

/// Tells where the status bar says the caret of a line stands, in a box
/// that is `inner_width` columns wide (at least one).
pub fn status_caret(line: &str, cursor: usize, inner_width: u16) -> (r: (u16, u16))
    ensures
        r == caret_shown(
            wrapped_lines(
                text_before(line@, cursor),
                (if inner_width >= 1 {
                    inner_width as nat
                } else {
                    1nat
                }),
                Seq::empty(),
            ),
        ),
{
    let parts = graphemes(line);
    let upto = if cursor < parts.len() {
        cursor
    } else {
        parts.len()
    };
    let prefix = join_parts(&parts, 0, upto);
    let width: usize = if inner_width >= 1 {
        inner_width as usize
    } else {
        1
    };
    let wrapped = wrap_text(prefix.as_str(), width, "");
    proof {
        reveal_strlit("");
        assert(""@ =~= Seq::<char>::empty());
    }
    caret_display(&wrapped)
}

} // verus!
