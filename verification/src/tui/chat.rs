//! The chat pane: wrapped messages, folding of long ones, and scrolling.
//!
//! A long message is shown folded to a preview, with one more line that
//! offers to unfold it; an unfolded message above the threshold has one more
//! line that offers to fold it. Scroll positions count lines up from the
//! end of the chat.

use crate::clusters::text_views;
use crate::num::{cap, low16, minus};
use crate::tui::strings::{PREFIX_ASSISTANT, PREFIX_USER};
use crate::text::push_text;
use crate::tui::{App, Message, Role, WrappedMsg};
use vstd::prelude::*;

verus! {

/// The lines that a text wraps to at a width, the lines after the first
/// indented.
pub uninterp spec fn wrapped_lines(text: Seq<char>, width: nat, indent: Seq<char>) -> Seq<
    Seq<char>,
>;

/// The number of columns that a text takes on the screen.
pub uninterp spec fn width_of(s: Seq<char>) -> nat;

/// Calls `textwrap::wrap` with `Options::new(width)` and the given
/// `subsequent_indent`: the wrapped lines, each copied out. They depend on
/// the three arguments alone.
#[verifier::external_body]
pub(crate) fn wrap_text(text: &str, width: usize, indent: &str) -> (lines: Vec<String>)
    ensures
        text_views(lines@) == wrapped_lines(text@, width as nat, indent@),
{
    let opts = textwrap::Options::new(width).subsequent_indent(indent);
    textwrap::wrap(text, opts).into_iter().map(|c| c.into_owned()).collect()
}

/// Calls `UnicodeWidthStr::width` of `unicode-width`: the number of columns
/// that the text takes, which depends on the text alone.
#[verifier::external_body]
pub(crate) fn display_width(s: &str) -> (w: usize)
    ensures
        w == width_of(s@),
{
    unicode_width::UnicodeWidthStr::width(s)
}

/// The lines shown of a message of `base` lines.
pub open spec fn shown_lines(base: nat, collapsed: bool, preview: nat) -> nat {
    if collapsed && base > preview {
        preview
    } else {
        base
    }
}

/// Whether a message of `base` lines has a line that folds or unfolds it.
pub open spec fn shows_indicator(base: nat, collapsed: bool, preview: nat, threshold: nat) -> bool {
    if collapsed && base > preview {
        true
    } else {
        !collapsed && base > threshold
    }
}

/// The prefix that marks the lines of a role.
pub open spec fn prefix_of(role: Role) -> Seq<char> {
    match role {
        Role::User => "| "@,
        Role::Assistant => "> "@,
    }
}

/// A run of `n` spaces.
pub open spec fn spaces(n: nat) -> Seq<char> {
    Seq::new(n, |i: int| ' ')
}

/// What a `WrappedMsg` holds.
pub ghost struct WrappedView {
    pub role: Role,
    pub content_len: usize,
    pub lines: Seq<Seq<char>>,
}

impl View for WrappedMsg {
    type V = WrappedView;

    open spec fn view(&self) -> WrappedView {
        WrappedView {
            role: self.role,
            content_len: self.content_len,
            lines: text_views(self.lines@),
        }
    }
}

/// A message wrapped to a width: its prefix and content, wrapped, with
/// the lines after the first indented by the width of the prefix.
pub open spec fn wrapped_of(m: Message, width: u16) -> WrappedView {
    WrappedView {
        role: m.role,
        content_len: vstd::utf8::encode_utf8(m.content@).len() as usize,
        lines: wrapped_lines(
            prefix_of(m.role) + m.content@,
            width as nat,
            spaces(width_of(prefix_of(m.role))),
        ),
    }
}

/// Wraps a message to a width.
pub fn wrap_message(m: &Message, width: u16) -> (w: WrappedMsg)
    ensures
        w@ == wrapped_of(*m, width),
{
    let prefix = match m.role {
        Role::User => PREFIX_USER,
        Role::Assistant => PREFIX_ASSISTANT,
    };
    let mut full = String::new();
    push_text(&mut full, prefix);
    push_text(&mut full, m.content.as_str());
    let indent_width = display_width(prefix);
    let mut indent = String::new();
    let mut i: usize = 0;
    assert(indent@ =~= spaces(0));
    while i < indent_width
        invariant
            i <= indent_width,
            indent@ == spaces(i as nat),
        decreases indent_width - i,
    {
        push_text(&mut indent, " ");
        proof {
            reveal_strlit(" ");
            assert(indent@ =~= spaces((i + 1) as nat));
        }
        i = i + 1;
    }
    let lines = wrap_text(full.as_str(), width as usize, indent.as_str());
    WrappedMsg { role: m.role, content_len: m.content.as_str().len(), lines }
}

impl App {
    /// The wrapped lines of message `idx`; none where it is not wrapped.
    pub open spec fn base_lines(&self, idx: int) -> nat {
        if 0 <= idx < self.chat_cache@.len() {
            self.chat_cache@[idx].lines@.len()
        } else {
            0
        }
    }

    /// Whether message `idx` is folded.
    pub open spec fn is_collapsed(&self, idx: int) -> bool {
        0 <= idx < self.collapsed@.len() && self.collapsed@[idx]
    }

    /// The lines shown of message `idx`.
    pub open spec fn shown(&self, idx: int) -> nat {
        shown_lines(
            self.base_lines(idx),
            self.is_collapsed(idx),
            self.collapse_preview_lines as nat,
        )
    }

    /// Whether message `idx` has a line that folds or unfolds it.
    pub open spec fn indicator(&self, idx: int) -> bool {
        shows_indicator(
            self.base_lines(idx),
            self.is_collapsed(idx),
            self.collapse_preview_lines as nat,
            self.collapse_threshold_lines as nat,
        )
    }

    /// The lines that message `idx` takes in the pane, the folding line
    /// included.
    pub open spec fn effective(&self, idx: int) -> nat {
        self.shown(idx) + if self.indicator(idx) {
            1nat
        } else {
            0nat
        }
    }

    /// The lines that the first `n` messages take in the pane.
    pub open spec fn effective_upto(&self, n: int) -> nat
        decreases n,
    {
        if n <= 0 {
            0
        } else {
            self.effective_upto(n - 1) + self.effective(n - 1)
        }
    }

    /// The lines that all the messages take in the pane.
    pub open spec fn effective_total(&self) -> usize {
        cap(self.effective_upto(self.chat_cache@.len() as int))
    }

    /// The lines shown of message `idx`, and whether a folding line
    /// follows them.
    pub fn message_display_info(&self, idx: usize) -> (r: (usize, bool))
        ensures
            r.0 == self.shown(idx as int),
            r.1 == self.indicator(idx as int),
    {
        let base = if idx < self.chat_cache.len() {
            self.chat_cache[idx].lines.len()
        } else {
            0
        };
        let collapsed = if idx < self.collapsed.len() {
            self.collapsed[idx]
        } else {
            false
        };
        let preview = self.collapse_preview_lines;
        let threshold = self.collapse_threshold_lines;
        let display = if collapsed && base > preview {
            preview
        } else {
            base
        };
        let has_indicator = if collapsed && base > preview {
            true
        } else {
            !collapsed && base > threshold
        };
        (display, has_indicator)
    }

    /// The lines that the first `n` messages take in the pane, stopping at
    /// the largest number that can be held.
    pub fn effective_lines_before(&self, n: usize) -> (total: usize)
        requires
            n <= self.chat_cache@.len(),
        ensures
            total == cap(self.effective_upto(n as int)),
    {
        let mut total: usize = 0;
        let mut i: usize = 0;
        while i < n
            invariant
                i <= n <= self.chat_cache@.len(),
                total == cap(self.effective_upto(i as int)),
            decreases n - i,
        {
            let (d, ind) = self.message_display_info(i);
            total = total.saturating_add(d);
            if ind {
                total = total.saturating_add(1);
            }
            i = i + 1;
        }
        total
    }

    /// The lines that all the messages take in the pane, folding lines
    /// included.
    pub fn effective_total_lines(&self) -> (total: usize)
        ensures
            total == self.effective_total(),
    {
        self.effective_lines_before(self.chat_cache.len())
    }

    /// The height of the pane in lines: at least one.
    pub open spec fn viewport_of(inner_height: u16) -> usize {
        if inner_height >= 1 {
            inner_height as usize
        } else {
            1
        }
    }

    /// How far up the chat can be scrolled in a pane of the given height.
    pub open spec fn max_scroll_for(&self, viewport: usize) -> u16 {
        low16(minus(self.effective_total() as int, viewport as int) as usize)
    }

    /// How far up from the end the pane stands.
    pub open spec fn distance_for(&self, viewport: usize) -> u16 {
        if self.stick_to_bottom {
            0
        } else if self.chat_scroll < self.max_scroll_for(viewport) {
            self.chat_scroll
        } else {
            self.max_scroll_for(viewport)
        }
    }

    /// The layout of the pane for its inner height: the viewport, the
    /// farthest scroll, the first line shown, and the number of lines in
    /// all.
    pub fn compute_chat_layout(&self, inner_height: u16) -> (r: (usize, u16, usize, usize))
        ensures
            r.0 == Self::viewport_of(inner_height),
            r.1 == self.max_scroll_for(r.0),
            r.2 == r.1 - self.distance_for(r.0),
            r.3 == self.effective_total(),
    {
        let viewport: usize = if inner_height >= 1 {
            inner_height as usize
        } else {
            1
        };
        let effective_total = self.effective_total_lines();
        let max_scroll = #[verifier::truncate]
        (effective_total.saturating_sub(viewport) as u16);
        let distance_from_bottom = if self.stick_to_bottom {
            0
        } else if self.chat_scroll < max_scroll {
            self.chat_scroll
        } else {
            max_scroll
        };
        let start_offset = (max_scroll - distance_from_bottom) as usize;
        (viewport, max_scroll, start_offset, effective_total)
    }

    /// The scroll position that brings a line of the chat into view: the
    /// farthest scroll less the line's number, not below zero.
    pub open spec fn scroll_to_show(max_scroll: u16, total: usize, line: usize) -> u16 {
        let y = if line < total - 1 {
            line
        } else {
            (total - 1) as usize
        };
        minus(max_scroll as int, low16(y) as int) as u16
    }

    /// Scrolls the chat so that the line with the given number, counted
    /// from the top over all messages, is in view. An empty chat sticks to
    /// its end.
    pub fn set_scroll_to_show_global(&mut self, inner_height: u16, global_line: usize)
        ensures
            *final(self) == (App {
                chat_scroll: final(self).chat_scroll,
                stick_to_bottom: final(self).stick_to_bottom,
                ..*old(self)
            }),
            final(self).chat_scroll == (if old(self).effective_total() == 0 {
                0u16
            } else {
                Self::scroll_to_show(
                    old(self).max_scroll_for(Self::viewport_of(inner_height)),
                    old(self).effective_total(),
                    global_line,
                )
            }),
            final(self).stick_to_bottom == (final(self).chat_scroll == 0),
    {
        let (_viewport, max_scroll, _start, effective_total) = self.compute_chat_layout(
            inner_height,
        );
        if effective_total == 0 {
            self.chat_scroll = 0;
            self.stick_to_bottom = true;
            return ;
        }
        let y_offset = if global_line < effective_total - 1 {
            global_line
        } else {
            effective_total - 1
        };
        let y16 = #[verifier::truncate]
        (y_offset as u16);
        self.chat_scroll = max_scroll.saturating_sub(y16);
        self.stick_to_bottom = self.chat_scroll == 0;
    }

    /// Folds message `idx` if it is unfolded, and unfolds it if it is
    /// folded.
    pub fn toggle_collapse_at(&mut self, idx: usize)
        ensures
            *final(self) == (App { collapsed: final(self).collapsed, ..*old(self) }),
            final(self).collapsed@ == (if idx < old(self).collapsed@.len() {
                old(self).collapsed@.update(idx as int, !old(self).collapsed@[idx as int])
            } else {
                old(self).collapsed@
            }),
    {
        if idx < self.collapsed.len() {
            let v = !self.collapsed[idx];
            self.collapsed.set(idx, v);
        }
    }
}

/// The views of a list of wrapped messages.
pub open spec fn wrapped_views(cache: Seq<WrappedMsg>) -> Seq<WrappedView> {
    cache.map_values(|w: WrappedMsg| w@)
}

/// Every message wrapped to a width.
pub open spec fn wrap_all(messages: Seq<Message>, width: u16) -> Seq<WrappedView> {
    messages.map_values(|m: Message| wrapped_of(m, width))
}

/// The wrapped lines of the first `n` messages, counted.
pub open spec fn lines_upto(cache: Seq<WrappedMsg>, n: int) -> nat
    decreases n,
{
    if n <= 0 {
        0
    } else {
        lines_upto(cache, n - 1) + cache[n - 1].lines@.len()
    }
}

/// The fold marks once the chat has grown or shrunk to `n` messages: the
/// marks that were there stay, and each message beyond them is folded
/// exactly where it is longer than the threshold.
pub open spec fn marks_for(old_marks: Seq<bool>, cache: Seq<WrappedMsg>, threshold: usize) -> Seq<
    bool,
> {
    if old_marks.len() == cache.len() {
        old_marks
    } else {
        Seq::new(
            cache.len(),
            |i: int|
                if i < old_marks.len() {
                    old_marks[i]
                } else {
                    cache[i].lines@.len() > threshold
                },
        )
    }
}

/// Counts the wrapped lines of all the messages, stopping at the largest
/// number that can be held.
pub fn count_lines(cache: &Vec<WrappedMsg>) -> (total: usize)
    ensures
        total == cap(lines_upto(cache@, cache@.len() as int)),
{
    let mut total: usize = 0;
    let mut i: usize = 0;
    while i < cache.len()
        invariant
            i <= cache@.len(),
            total == cap(lines_upto(cache@, i as int)),
        decreases cache@.len() - i,
    {
        total = total.saturating_add(cache[i].lines.len());
        i = i + 1;
    }
    total
}

/// Wraps every message to a width.
pub fn wrap_messages(messages: &Vec<Message>, width: u16) -> (cache: Vec<WrappedMsg>)
    ensures
        wrapped_views(cache@) == wrap_all(messages@, width),
{
    let mut cache: Vec<WrappedMsg> = Vec::new();
    let mut i: usize = 0;
    while i < messages.len()
        invariant
            i <= messages@.len(),
            cache@.len() == i,
            forall|k: int| 0 <= k < i ==> (#[trigger] cache@[k])@ == wrapped_of(messages@[k], width),
        decreases messages@.len() - i,
    {
        cache.push(wrap_message(&messages[i], width));
        i = i + 1;
    }
    assert(wrapped_views(cache@) =~= wrap_all(messages@, width));
    cache
}

/// Fits the fold marks to the wrapped messages: the marks that are there
/// stay, and each message beyond them is folded where it is long.
pub fn fit_marks(marks: &mut Vec<bool>, cache: &Vec<WrappedMsg>, threshold: usize)
    ensures
        final(marks)@ == marks_for(old(marks)@, cache@, threshold),
{
    let n = cache.len();
    if marks.len() == n {
        return ;
    }
    let ghost before = marks@;
    marks.truncate(n);
    let mut i: usize = marks.len();
    while i < n
        invariant
            i <= n == cache@.len(),
            marks@.len() == i,
            before.len() <= i || n <= i,
            forall|k: int|
                0 <= k < i ==> marks@[k] == (if k < before.len() {
                    before[k]
                } else {
                    cache@[k].lines@.len() > threshold
                }),
        decreases n - i,
    {
        let long = cache[i].lines.len() > threshold;
        marks.push(long);
        i = i + 1;
    }
    assert(marks@ =~= marks_for(before, cache@, threshold));
}

impl App {
    /// Whether the wrapped messages have to be made anew for a width: the
    /// width changed, or messages came or went.
    pub open spec fn needs_rewrap(&self, width: u16) -> bool {
        self.chat_wrap_width != width || self.chat_cache@.len() != self.messages@.len()
    }

    /// Whether only the last message has to be wrapped anew: its content
    /// has grown or shrunk since it was wrapped.
    pub open spec fn last_is_stale(&self) -> bool {
        self.messages@.len() > 0 && self.chat_cache@.len() > 0 && vstd::utf8::encode_utf8(
            self.messages@.last().content@,
        ).len() as usize != self.chat_cache@.last().content_len
    }

    /// `post` is `pre` with the wrapped messages brought up to date for
    /// the width of the pane (at least one column). All are wrapped anew
    /// where the width changed or messages came or went, and new messages
    /// are then folded where they are long; else only the last message is
    /// wrapped anew, where its content changed in length.
    pub open spec fn rewrapped(pre: App, post: App, width: u16) -> bool {
        let w = if width >= 1 {
            width
        } else {
            1u16
        };
        &&& post == (App {
            chat_cache: post.chat_cache,
            chat_total_lines: post.chat_total_lines,
            chat_wrap_width: post.chat_wrap_width,
            collapsed: post.collapsed,
            ..pre
        })
        &&& if pre.needs_rewrap(w) {
            &&& wrapped_views(post.chat_cache@) == wrap_all(pre.messages@, w)
            &&& post.chat_wrap_width == w
            &&& post.collapsed@ == marks_for(
                pre.collapsed@,
                post.chat_cache@,
                pre.collapse_threshold_lines,
            )
            &&& post.chat_total_lines == cap(
                lines_upto(post.chat_cache@, post.chat_cache@.len() as int),
            )
        } else if pre.last_is_stale() {
            &&& post.chat_cache@.len() == pre.chat_cache@.len()
            &&& post.chat_cache@.last()@ == wrapped_of(pre.messages@.last(), w)
            &&& post.chat_cache@.drop_last() == pre.chat_cache@.drop_last()
            &&& post.chat_wrap_width == w
            &&& post.collapsed == pre.collapsed
            &&& post.chat_total_lines == cap(
                lines_upto(post.chat_cache@, post.chat_cache@.len() as int),
            )
        } else {
            post == pre
        }
    }

    /// Brings the wrapped messages up to date for the width of the pane.
    pub fn ensure_chat_wrapped(&mut self, width: u16)
        ensures
            Self::rewrapped(*old(self), *final(self), width),
    {
        let width: u16 = if width >= 1 {
            width
        } else {
            1
        };
        if self.chat_wrap_width != width || self.chat_cache.len() != self.messages.len() {
            self.chat_cache = wrap_messages(&self.messages, width);
            self.chat_total_lines = count_lines(&self.chat_cache);
            self.chat_wrap_width = width;
            let n = self.messages.len();
            assert(self.chat_cache@.len() == n) by {
                assert(wrapped_views(self.chat_cache@).len() == wrap_all(
                    self.messages@,
                    width,
                ).len());
            }
            fit_marks(&mut self.collapsed, &self.chat_cache, self.collapse_threshold_lines);
            return ;
        }
        let n = self.messages.len();
        if n > 0 && self.chat_cache.len() > 0 {
            if self.messages[n - 1].content.as_str().len() != self.chat_cache[n
                - 1].content_len {
                let ghost before = self.chat_cache@;
                let w = wrap_message(&self.messages[n - 1], width);
                self.chat_cache.set(n - 1, w);
                self.chat_total_lines = count_lines(&self.chat_cache);
                assert(self.chat_cache@.drop_last() =~= before.drop_last());
            }
        }
    }
}

} // verus!
