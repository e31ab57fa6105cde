//! Searching the chat: the occurrences of a text in the wrapped lines, and
//! bringing one of them into view.

use crate::num::{cap, least, low16, minus};
use crate::find::{find_first, first_occurrence};
use crate::tui::{App, SearchHit, SearchInput, WrappedMsg};
use vstd::prelude::*;
use vstd::slice::slice_subrange;
use vstd::utf8::encode_utf8;

verus! {

/// The occurrences of `q` in `line` from byte `from` on, as byte ranges,
/// left to right, none overlapping another. An empty `q` occurs nowhere.
pub open spec fn occurrences(line: Seq<u8>, q: Seq<u8>, from: int) -> Seq<(int, int)>
    decreases line.len() - from,
{
    if q.len() == 0 || from < 0 || from > line.len() {
        Seq::empty()
    } else {
        match first_occurrence(line.subrange(from, line.len() as int), q) {
            Some(p) => if 0 <= p && from + p + q.len() <= line.len() {
                seq![(from + p, from + p + q.len())] + occurrences(line, q, from + p + q.len())
            } else {
                Seq::empty()
            },
            None => Seq::empty(),
        }
    }
}

/// The hits that byte ranges in line `li` of message `mi` stand for.
pub open spec fn hits_at(mi: usize, li: usize, ranges: Seq<(int, int)>) -> Seq<SearchHit> {
    ranges.map_values(
        |r: (int, int)|
            SearchHit { msg_idx: mi, line_idx: li, start: r.0 as usize, end: r.1 as usize },
    )
}

/// The hits in the first `n` lines of message `mi`.
pub open spec fn hits_in_lines(mi: usize, lines: Seq<String>, q: Seq<u8>, n: int) -> Seq<SearchHit>
    decreases n,
{
    if n <= 0 {
        Seq::empty()
    } else {
        hits_in_lines(mi, lines, q, n - 1) + hits_at(
            mi,
            (n - 1) as usize,
            occurrences(encode_utf8(lines[n - 1]@), q, 0),
        )
    }
}

/// The hits in the first `n` messages.
pub open spec fn hits_in_messages(cache: Seq<WrappedMsg>, q: Seq<u8>, n: int) -> Seq<SearchHit>
    decreases n,
{
    if n <= 0 {
        Seq::empty()
    } else {
        hits_in_messages(cache, q, n - 1) + hits_in_lines(
            (n - 1) as usize,
            cache[n - 1].lines@,
            q,
            cache[n - 1].lines@.len() as int,
        )
    }
}

/// All the hits of a search text in the wrapped messages: by message, by
/// line, then left to right. Without a search text there are none.
pub open spec fn hits_of(cache: Seq<WrappedMsg>, query: Option<String>) -> Seq<SearchHit> {
    match query {
        Some(q) => hits_in_messages(cache, encode_utf8(q@), cache.len() as int),
        None => Seq::empty(),
    }
}

/// Appends to `hits` the occurrences of `q` in one line.
pub fn find_in_line(hits: &mut Vec<SearchHit>, mi: usize, li: usize, line: &[u8], q: &[u8])
    ensures
        final(hits)@ == old(hits)@ + hits_at(mi, li, occurrences(line@, q@, 0)),
{
    let ghost before = hits@;
    if q.len() == 0 {
        assert(hits@ =~= before + hits_at(mi, li, occurrences(line@, q@, 0)));
        return ;
    }
    let n = line.len();
    let mut start: usize = 0;
    let ghost mut done: Seq<(int, int)> = Seq::empty();
    assert(hits@ =~= before + hits_at(mi, li, done));
    loop
        invariant
            start <= n == line@.len(),
            q@.len() > 0,
            hits@ == before + hits_at(mi, li, done),
            occurrences(line@, q@, 0) == done + occurrences(line@, q@, start as int),
        ensures
            hits@ == before + hits_at(mi, li, occurrences(line@, q@, 0)),
        decreases n - start,
    {
        let rest = slice_subrange(line, start, n);
        match find_first(rest, q) {
            None => {
                assert(done + Seq::<(int, int)>::empty() =~= done);
                break ;
            },
            Some(pos) => {
                let s = start + pos;
                let e = s + q.len();
                hits.push(SearchHit { msg_idx: mi, line_idx: li, start: s, end: e });
                proof {
                    let r = (s as int, e as int);
                    assert(hits_at(mi, li, done.push(r)) =~= hits_at(mi, li, done).push(
                        SearchHit { msg_idx: mi, line_idx: li, start: s, end: e },
                    ));
                    assert(hits@ =~= before + hits_at(mi, li, done.push(r)));
                    assert(done + (seq![r] + occurrences(line@, q@, e as int)) =~= done.push(r)
                        + occurrences(line@, q@, e as int));
                    done = done.push(r);
                }
                start = e;
            },
        }
    }
}

/// Finds all the hits of a search text in the wrapped messages.
pub fn find_hits(cache: &Vec<WrappedMsg>, q: &str) -> (hits: Vec<SearchHit>)
    ensures
        hits@ == hits_in_messages(cache@, encode_utf8(q@), cache@.len() as int),
{
    let needle = q.as_bytes();
    let mut hits: Vec<SearchHit> = Vec::new();
    let mut mi: usize = 0;
    while mi < cache.len()
        invariant
            mi <= cache@.len(),
            needle@ == encode_utf8(q@),
            hits@ == hits_in_messages(cache@, needle@, mi as int),
        decreases cache@.len() - mi,
    {
        let lines = &cache[mi].lines;
        let ghost base = hits@;
        let mut li: usize = 0;
        assert(hits@ =~= base + hits_in_lines(mi, lines@, needle@, 0));
        while li < lines.len()
            invariant
                li <= lines@.len(),
                hits@ == base + hits_in_lines(mi, lines@, needle@, li as int),
            decreases lines@.len() - li,
        {
            find_in_line(&mut hits, mi, li, lines[li].as_str().as_bytes(), needle);
            assert(hits@ =~= base + hits_in_lines(mi, lines@, needle@, li + 1));
            li = li + 1;
        }
        mi = mi + 1;
    }
    hits
}

impl App {
    /// The hit that the search stands on, where there is one.
    pub open spec fn current_hit(&self) -> Option<SearchHit> {
        if self.search_current < self.search_hits@.len() {
            Some(self.search_hits@[self.search_current as int])
        } else {
            None
        }
    }

    /// Whether the message of a hit must be unfolded to show it: it is
    /// folded, and the hit lies below its preview.
    pub open spec fn hides(&self, hit: SearchHit) -> bool {
        hit.msg_idx < self.collapsed@.len() && self.collapsed@[hit.msg_idx as int] && hit.line_idx
            >= self.collapse_preview_lines && self.base_lines(hit.msg_idx as int)
            > self.collapse_preview_lines
    }

    /// The line of the chat, counted from the top, on which a hit is
    /// shown.
    pub open spec fn line_of_hit(&self, hit: SearchHit) -> usize {
        let before = cap(
            self.effective_upto(least(hit.msg_idx as int, self.chat_cache@.len() as int)),
        );
        let within = least(hit.line_idx as int, minus(self.shown(hit.msg_idx as int) as int, 1));
        cap((before + within) as nat)
    }

    /// The scroll position that shows a line of the chat in a pane of the
    /// given outer height.
    pub open spec fn scroll_showing(&self, line: usize, height: u16) -> u16 {
        let viewport = Self::viewport_of(minus(height as int, 2) as u16);
        let total = self.effective_total();
        let max_scroll = self.max_scroll_for(viewport);
        let y = least(line as int, minus(total as int, 1)) as usize;
        minus(max_scroll as int, low16(y) as int) as u16
    }

    /// `post` is `pre` with the current hit brought into view: its message
    /// unfolded where the hit was hidden, and, where the place of the chat
    /// pane is known, the chat scrolled to the hit's line. Without a
    /// current hit nothing changes.
    pub open spec fn reveals(pre: App, post: App) -> bool {
        match pre.current_hit() {
            None => post == pre,
            Some(hit) => {
                &&& post == (App { collapsed: post.collapsed, chat_scroll: post.chat_scroll, ..pre })
                &&& post.collapsed@ == (if pre.hides(hit) {
                    pre.collapsed@.update(hit.msg_idx as int, false)
                } else {
                    pre.collapsed@
                })
                &&& post.chat_scroll == (match pre.chat_area {
                    Some(area) => (App { collapsed: post.collapsed, ..pre }).scroll_showing(
                        (App { collapsed: post.collapsed, ..pre }).line_of_hit(hit),
                        area.height,
                    ),
                    None => pre.chat_scroll,
                })
            },
        }
    }

    /// Opens the search box, empty.
    pub fn open_search(&mut self)
        ensures
            *final(self) == (App { search_input: final(self).search_input, ..*old(self) }),
            final(self).search_input is Some,
            final(self).search_input.unwrap()@.buffer == Seq::<char>::empty(),
            final(self).search_input.unwrap()@.cursor == 0,
    {
        self.search_input = Some(SearchInput { buffer: String::new(), cursor: 0 });
    }

    /// Finds the hits of the search text anew.
    pub fn recompute_search_hits(&mut self)
        ensures
            *final(self) == (App { search_hits: final(self).search_hits, ..*old(self) }),
            final(self).search_hits@ == hits_of(old(self).chat_cache@, old(self).search_query),
    {
        match &self.search_query {
            None => {
                self.search_hits = Vec::new();
            },
            Some(q) => {
                let hits = find_hits(&self.chat_cache, q.as_str());
                self.search_hits = hits;
            },
        }
    }

    /// Tells whether the message of a hit must be unfolded to show it.
    pub fn hit_is_hidden(&self, hit: &SearchHit) -> (r: bool)
        ensures
            r == self.hides(*hit),
    {
        if hit.msg_idx < self.collapsed.len() {
            let base = if hit.msg_idx < self.chat_cache.len() {
                self.chat_cache[hit.msg_idx].lines.len()
            } else {
                0
            };
            self.collapsed[hit.msg_idx] && hit.line_idx >= self.collapse_preview_lines && base
                > self.collapse_preview_lines
        } else {
            false
        }
    }

    /// Finds the line of the chat, counted from the top, on which a hit is
    /// shown.
    pub fn hit_line(&self, hit: &SearchHit) -> (line: usize)
        ensures
            line == self.line_of_hit(*hit),
    {
        let upto = if hit.msg_idx < self.chat_cache.len() {
            hit.msg_idx
        } else {
            self.chat_cache.len()
        };
        let acc = self.effective_lines_before(upto);
        let (display, _ind) = self.message_display_info(hit.msg_idx);
        let last = display.saturating_sub(1);
        let within = if hit.line_idx < last {
            hit.line_idx
        } else {
            last
        };
        acc.saturating_add(within)
    }

    /// Finds the scroll position that shows a line of the chat in a pane
    /// of the given outer height.
    pub fn scroll_for_line(&self, line: usize, height: u16) -> (scroll: u16)
        ensures
            scroll == self.scroll_showing(line, height),
    {
        let (_viewport, max_scroll, _start, total) = self.compute_chat_layout(
            height.saturating_sub(2),
        );
        let last = total.saturating_sub(1);
        let y_offset = if line < last {
            line
        } else {
            last
        };
        let y16 = #[verifier::truncate]
        (y_offset as u16);
        max_scroll.saturating_sub(y16)
    }

    /// Brings the current hit into view.
    pub fn reveal_current_search_hit(&mut self)
        ensures
            Self::reveals(*old(self), *final(self)),
    {
        if self.search_current >= self.search_hits.len() {
            return ;
        }
        let hit = self.search_hits[self.search_current];
        if self.hit_is_hidden(&hit) {
            self.collapsed.set(hit.msg_idx, false);
        }
        let ghost mid = *self;
        assert(mid == (App { collapsed: mid.collapsed, ..*old(self) }));
        let line = self.hit_line(&hit);
        if let Some(area) = self.chat_area {
            let scroll = self.scroll_for_line(line, area.height);
            self.chat_scroll = scroll;
        }
    }

    /// Moves to the next hit, from the last to the first, and brings it
    /// into view.
    pub fn next_search_hit(&mut self)
        ensures
            old(self).search_hits@.len() == 0 ==> *final(self) == *old(self),
            old(self).search_hits@.len() > 0 ==> Self::reveals(
                App {
                    search_current: ((old(self).search_current + 1) % (
                    old(self).search_hits@.len() as int)) as usize,
                    ..*old(self)
                },
                *final(self),
            ),
    {
        let n = self.search_hits.len();
        if n == 0 {
            return ;
        }
        let c = self.search_current % n;
        proof {
            let cur = self.search_current as int;
            let m = n as int;
            assert((cur + 1) % m == (if cur % m + 1 < m {
                cur % m + 1
            } else {
                0
            })) by (nonlinear_arith)
                requires
                    m > 0,
                    cur >= 0,
            ;
        }
        self.search_current = if c + 1 < n {
            c + 1
        } else {
            0
        };
        self.reveal_current_search_hit();
    }

    /// Moves to the hit before, from the first to the last, and brings it
    /// into view.
    pub fn prev_search_hit(&mut self)
        ensures
            old(self).search_hits@.len() == 0 ==> *final(self) == *old(self),
            old(self).search_hits@.len() > 0 ==> Self::reveals(
                App {
                    search_current: if old(self).search_current == 0 {
                        (old(self).search_hits@.len() - 1) as usize
                    } else {
                        (old(self).search_current - 1) as usize
                    },
                    ..*old(self)
                },
                *final(self),
            ),
    {
        if self.search_hits.len() == 0 {
            return ;
        }
        if self.search_current == 0 {
            self.search_current = self.search_hits.len() - 1;
        } else {
            self.search_current = self.search_current - 1;
        }
        self.reveal_current_search_hit();
    }

    /// Takes the text of the search box, if it is open, as the search text
    /// (none where it is empty), closes the box, finds the hits, and
    /// brings the first into view.
    pub fn commit_search(&mut self)
        ensures
            ({
                let mid = App {
                    collapsed: old(self).collapsed,
                    chat_scroll: old(self).chat_scroll,
                    ..*final(self)
                };
                &&& mid == (App {
                    search_query: mid.search_query,
                    search_input: None,
                    search_hits: mid.search_hits,
                    search_current: 0,
                    ..*old(self)
                })
                &&& crate::llm::opt_text(mid.search_query) == (match old(self).search_input {
                    Some(si) => if si.buffer@.len() == 0 {
                        None
                    } else {
                        Some(si.buffer@)
                    },
                    None => crate::llm::opt_text(old(self).search_query),
                })
                &&& mid.search_hits@ == hits_of(old(self).chat_cache@, mid.search_query)
                &&& Self::reveals(mid, *final(self))
            }),
    {
        if let Some(si) = &self.search_input {
            let q = si.buffer.clone();
            self.search_query = if q.as_str().unicode_len() == 0 {
                None
            } else {
                Some(q)
            };
        }
        self.search_input = None;
        self.recompute_search_hits();
        self.search_current = 0;
        self.reveal_current_search_hit();
    }
}

} // verus!
