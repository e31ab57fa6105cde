//! What the keys and the mouse do to the state of the front end, one
//! small step each. Saving, loading and sending are the caller's part.

use crate::clusters::{grapheme_clusters, graphemes};
use crate::num::minus;
use crate::tui::{App, Area, Focus};
use vstd::prelude::*;

verus! {

/// The pane that takes the focus after the one that has it: input, then
/// the sidebar and the context pane where they are shown, then input
/// again. From a pane that is not shown the focus goes to the input.
pub open spec fn next_focus(focus: Focus, show_sidebar: bool, show_context: bool) -> Focus {
    match focus {
        Focus::Input => if show_sidebar {
            Focus::Sidebar
        } else if show_context {
            Focus::Context
        } else {
            Focus::Input
        },
        Focus::Sidebar => if show_sidebar && show_context {
            Focus::Context
        } else {
            Focus::Input
        },
        Focus::Context => Focus::Input,
    }
}

/// A sum that stops at the largest number that sixteen bits hold.
pub open spec fn plus16(a: u16, b: u16) -> u16 {
    if a + b > u16::MAX {
        u16::MAX
    } else {
        (a + b) as u16
    }
}

/// The step of one page of the chat: the height of the pane, doubled for
/// a fast page, and at least one line.
pub open spec fn page_step_of(viewport: u16, fast: bool) -> u16 {
    let lines = if fast {
        if viewport * 2 > u16::MAX {
            u16::MAX
        } else {
            (viewport * 2) as u16
        }
    } else {
        viewport
    };
    if lines >= 1 {
        lines
    } else {
        1
    }
}

/// Whether a cell lies in an area.
pub open spec fn area_holds(area: Area, x: u16, y: u16) -> bool {
    area.x <= x && x < area.x + area.width && area.y <= y && y < area.y + area.height
}

/// Tells whether a cell lies in an area.
pub fn inside(area: Area, x: u16, y: u16) -> (r: bool)
    ensures
        r == area_holds(area, x, y),
{
    x >= area.x && (x as u32) < area.x as u32 + area.width as u32 && y >= area.y && (y as u32)
        < area.y as u32 + area.height as u32
}

impl App {
    /// Moves the focus to the next pane that is shown.
    pub fn cycle_focus(&mut self)
        ensures
            *final(self) == (App {
                focus: next_focus(old(self).focus, old(self).show_sidebar, old(self).show_context),
                ..*old(self)
            }),
    {
        self.focus =
        match self.focus {
            Focus::Input => if self.show_sidebar {
                Focus::Sidebar
            } else if self.show_context {
                Focus::Context
            } else {
                Focus::Input
            },
            Focus::Sidebar => if self.show_sidebar && self.show_context {
                Focus::Context
            } else {
                Focus::Input
            },
            Focus::Context => Focus::Input,
        };
    }

    /// The entry of the history that a step back leads to: the last one
    /// at first, then the one before, down to the first.
    pub open spec fn history_before(&self) -> int {
        let last = self.history@.len() - 1;
        match self.history_index {
            None => last,
            Some(i) => if i == 0 {
                0
            } else if i - 1 < last {
                i - 1
            } else {
                last
            },
        }
    }

    /// Steps back in the history and takes the entry as the input line,
    /// the cursor at its end. Without history nothing happens.
    pub fn history_prev(&mut self)
        ensures
            old(self).history@.len() == 0 ==> *final(self) == *old(self),
            old(self).history@.len() > 0 ==> {
                let idx = old(self).history_before();
                &&& *final(self) == (App {
                    history_index: Some(idx as usize),
                    input: final(self).input,
                    input_cursor: final(self).input_cursor,
                    ..*old(self)
                })
                &&& final(self).input@ == old(self).history@[idx]@
                &&& final(self).input_cursor == grapheme_clusters(final(self).input@).len()
            },
    {
        let n = self.history.len();
        if n == 0 {
            return ;
        }
        let idx = match self.history_index {
            None => n - 1,
            Some(i) => if i == 0 {
                0
            } else if i - 1 < n - 1 {
                i - 1
            } else {
                n - 1
            },
        };
        self.history_index = Some(idx);
        self.input = self.history[idx].clone();
        self.input_cursor = graphemes(self.input.as_str()).len();
    }

    /// Steps forward in the history: to the next entry, or, from the last
    /// one, out of the history and to an empty input line. Outside the
    /// history nothing happens.
    pub fn history_next(&mut self)
        ensures
            old(self).history_index is None ==> *final(self) == *old(self),
            old(self).history_index matches Some(i) ==> {
                &&& *final(self) == (App {
                    history_index: final(self).history_index,
                    input: final(self).input,
                    input_cursor: final(self).input_cursor,
                    ..*old(self)
                })
                &&& if i + 1 < old(self).history@.len() {
                    &&& final(self).history_index == Some((i + 1) as usize)
                    &&& final(self).input@ == old(self).history@[i + 1]@
                    &&& final(self).input_cursor == grapheme_clusters(final(self).input@).len()
                } else {
                    &&& final(self).history_index is None
                    &&& final(self).input@ == Seq::<char>::empty()
                    &&& final(self).input_cursor == 0
                }
            },
    {
        if let Some(i) = self.history_index {
            if i < self.history.len() && i + 1 < self.history.len() {
                self.history_index = Some(i + 1);
                self.input = self.history[i + 1].clone();
                self.input_cursor = graphemes(self.input.as_str()).len();
            } else {
                self.history_index = None;
                self.input = String::new();
                self.input_cursor = 0;
            }
        }
    }

    /// The step of one page of the chat.
    pub fn page_step(&self, fast: bool) -> (step: u16)
        ensures
            step == page_step_of(self.chat_viewport, fast),
    {
        let lines = if fast {
            if self.chat_viewport > u16::MAX / 2 {
                u16::MAX
            } else {
                self.chat_viewport * 2
            }
        } else {
            self.chat_viewport
        };
        if lines >= 1 {
            lines
        } else {
            1
        }
    }

    /// Scrolls the chat up by a number of lines; it no longer sticks to
    /// its end.
    pub fn scroll_chat_up(&mut self, step: u16)
        ensures
            *final(self) == (App {
                chat_scroll: plus16(old(self).chat_scroll, step),
                stick_to_bottom: false,
                ..*old(self)
            }),
    {
        self.chat_scroll = self.chat_scroll.saturating_add(step);
        self.stick_to_bottom = false;
    }

    /// Scrolls the chat down by a number of lines; at its end it sticks
    /// there.
    pub fn scroll_chat_down(&mut self, step: u16)
        ensures
            *final(self) == (App {
                chat_scroll: minus(old(self).chat_scroll as int, step as int) as u16,
                stick_to_bottom: old(self).stick_to_bottom || old(self).chat_scroll <= step,
                ..*old(self)
            }),
    {
        self.chat_scroll = self.chat_scroll.saturating_sub(step);
        if self.chat_scroll == 0 {
            self.stick_to_bottom = true;
        }
    }

    /// Selects the entry of the context pane above the current one.
    pub fn context_up(&mut self)
        ensures
            *final(self) == (App {
                context_current: minus(old(self).context_current as int, 1) as usize,
                ..*old(self)
            }),
    {
        if self.context_current > 0 {
            self.context_current = self.context_current - 1;
        }
    }

    /// Selects the entry of the context pane below the current one.
    pub fn context_down(&mut self)
        ensures
            *final(self) == (App {
                context_current: if old(self).context_current + 1 < old(
                    self,
                ).context_items@.len() {
                    (old(self).context_current + 1) as usize
                } else {
                    old(self).context_current
                },
                ..*old(self)
            }),
    {
        if self.context_current < self.context_items.len() && self.context_current + 1
            < self.context_items.len() {
            self.context_current = self.context_current + 1;
        }
    }

    /// Removes the current entry of the context pane, and selects the last
    /// entry where the removed one was the last.
    pub fn context_delete(&mut self)
        ensures
            old(self).context_current >= old(self).context_items@.len() ==> *final(self) == *old(
                self,
            ),
            old(self).context_current < old(self).context_items@.len() ==> {
                &&& *final(self) == (App {
                    context_items: final(self).context_items,
                    context_current: final(self).context_current,
                    ..*old(self)
                })
                &&& final(self).context_items@ == old(self).context_items@.remove(
                    old(self).context_current as int,
                )
                &&& final(self).context_current == ({
                    let left = final(self).context_items@.len();
                    if old(self).context_current >= left && left > 0 {
                        left - 1
                    } else {
                        old(self).context_current as int
                    }
                })
            },
    {
        if self.context_current < self.context_items.len() {
            self.context_items.remove(self.context_current);
            if self.context_current >= self.context_items.len() && self.context_items.len() > 0 {
                self.context_current = self.context_items.len() - 1;
            }
        }
    }
}

} // verus!
