//! Answers to the overlays (confirmation, rename box, model picker) and
//! what the mouse does in the chat pane and the sidebar.

use crate::clusters::text_views;
use crate::num::{least, minus};
use crate::text::{is_blank, same_text, trim, trimmed};
use crate::tui::{App, Area, ConfirmAction, MessageView, Role};
use crate::tui::commands::{appended, info_message, info_text};
use vstd::prelude::*;

verus! {

impl App {
    /// `post` is `pre` after the question was answered with yes: the
    /// session asked about, where it is there, is taken off the list, a
    /// session `default` is made where none is left, and the session now
    /// in that place is selected. The question is closed.
    pub open spec fn confirmed(pre: App, post: App, removed: Option<Seq<char>>) -> bool {
        match pre.confirm {
            None => post == pre && removed is None,
            Some(c) => match c.action {
                ConfirmAction::DeleteSession(idx) => if idx < pre.sessions@.len() {
                    let left = text_views(pre.sessions@).remove(idx as int);
                    &&& post == (App {
                        sessions: post.sessions,
                        current_session: post.current_session,
                        confirm: None,
                        ..pre
                    })
                    &&& removed == Some(pre.sessions@[idx as int]@)
                    &&& text_views(post.sessions@) == (if left.len() == 0 {
                        seq!["default"@]
                    } else {
                        left
                    })
                    &&& post.current_session == least(idx as int, post.sessions@.len() - 1)
                } else {
                    post == (App { confirm: None, ..pre }) && removed is None
                },
            },
        }
    }

    /// Answers the question with yes. Returns the name of the session
    /// that was taken off the list, whose file is to be deleted.
    pub fn confirm_yes(&mut self) -> (removed: Option<String>)
        ensures
            Self::confirmed(*old(self), *final(self), crate::llm::opt_text(removed)),
    {
        let confirm = match self.confirm {
            None => {
                return None;
            },
            Some(c) => c,
        };
        self.confirm = None;
        match confirm.action {
            ConfirmAction::DeleteSession(idx) => {
                if idx < self.sessions.len() {
                    let ghost before = self.sessions@;
                    let name = self.sessions.remove(idx);
                    assert(text_views(self.sessions@) =~= text_views(before).remove(
                        idx as int,
                    ));
                    if self.sessions.len() == 0 {
                        self.sessions.push("default".to_owned());
                        assert(text_views(self.sessions@) =~= seq!["default"@]);
                    }
                    self.current_session = if idx < self.sessions.len() - 1 {
                        idx
                    } else {
                        self.sessions.len() - 1
                    };
                    Some(name)
                } else {
                    None
                }
            },
        }
    }

    /// Answers the question with no: it is closed.
    pub fn confirm_no(&mut self)
        ensures
            *final(self) == (App { confirm: None, ..*old(self) }),
    {
        self.confirm = None;
    }

    /// `post` is `pre` after the rename box was accepted. Where its text
    /// is not blank and there are sessions, the session it was opened for
    /// (the last one where the list has shrunk) takes the text, trimmed, as
    /// its name and is selected; `renamed` holds the old and the new name
    /// where they differ. The box is closed.
    pub open spec fn renamed(pre: App, post: App, renamed: Option<(Seq<char>, Seq<char>)>) -> bool {
        match pre.rename {
            None => post == pre && renamed is None,
            Some(st) => if trim(st.buffer@).len() > 0 && pre.sessions@.len() > 0 {
                let idx = least(st.index as int, pre.sessions@.len() - 1);
                let name = trim(st.buffer@);
                &&& post == (App {
                    sessions: post.sessions,
                    current_session: idx as usize,
                    rename: None,
                    ..pre
                })
                &&& text_views(post.sessions@) == text_views(pre.sessions@).update(idx, name)
                &&& renamed == (if name != pre.sessions@[idx]@ {
                    Some((pre.sessions@[idx]@, name))
                } else {
                    None
                })
            } else {
                post == (App { rename: None, ..pre }) && renamed is None
            },
        }
    }

    /// Accepts the rename box. Returns the old and the new name of the
    /// session where its file is to be renamed.
    pub fn rename_commit(&mut self) -> (r: Option<(String, String)>)
        ensures
            Self::renamed(
                *old(self),
                *final(self),
                match r {
                    Some((a, b)) => Some((a@, b@)),
                    None => None,
                },
            ),
    {
        let st = match self.rename.take() {
            None => {
                return None;
            },
            Some(st) => st,
        };
        if is_blank(st.buffer.as_str()) || self.sessions.len() == 0 {
            return None;
        }
        let idx = if st.index < self.sessions.len() - 1 {
            st.index
        } else {
            self.sessions.len() - 1
        };
        let old_name = self.sessions[idx].clone();
        let new_name = trimmed(st.buffer.as_str());
        self.current_session = idx;
        if same_text(new_name.as_str(), old_name.as_str()) {
            assert(text_views(self.sessions@) =~= text_views(self.sessions@).update(
                idx as int,
                new_name@,
            ));
            None
        } else {
            let ghost before = self.sessions@;
            self.sessions.set(idx, new_name.clone());
            assert(text_views(self.sessions@) =~= text_views(before).update(
                idx as int,
                new_name@,
            ));
            Some((old_name, new_name))
        }
    }

    /// Closes the rename box without renaming.
    pub fn rename_cancel(&mut self)
        ensures
            *final(self) == (App { rename: None, ..*old(self) }),
    {
        self.rename = None;
    }

    /// `post` is `pre` after the selected model was accepted: it is the
    /// model in use, the picker is closed, and the chat notes the change.
    /// Without a selected model nothing changes.
    pub open spec fn model_accepted(pre: App, post: App, accepted: bool) -> bool {
        match pre.model_picker {
            Some(st) => if st.selected < st.filtered@.len() {
                let name = st.filtered@[st.selected as int]@;
                &&& accepted
                &&& post == (App {
                    model_label: post.model_label,
                    model_picker: None,
                    messages: post.messages,
                    collapsed: post.collapsed,
                    ..pre
                })
                &&& post.model_label@ == name
                &&& appended(
                    pre.messages@,
                    post.messages@,
                    MessageView { role: Role::Assistant, content: info_text("model"@, name) },
                )
                &&& post.collapsed@ == pre.collapsed@.push(false)
            } else {
                !accepted && post == pre
            },
            None => !accepted && post == pre,
        }
    }

    /// Accepts the selected model of the picker. Says whether a model was
    /// accepted, which is then to be saved.
    pub fn accept_model(&mut self) -> (accepted: bool)
        ensures
            Self::model_accepted(*old(self), *final(self), accepted),
    {
        let name = match &self.model_picker {
            Some(st) => if st.selected < st.filtered.len() {
                st.filtered[st.selected].clone()
            } else {
                return false;
            },
            None => {
                return false;
            },
        };
        let note = info_message("model", name.as_str());
        self.model_label = name;
        self.model_picker = None;
        let ghost before = self.messages@;
        self.messages.push(note);
        assert(self.messages@.drop_last() =~= before);
        self.collapsed.push(false);
        true
    }

    /// The message whose folding line lies on line `line` of the chat,
    /// counted from the top, looking at the first `n` messages.
    pub open spec fn indicator_at(&self, line: int, n: int) -> Option<int>
        decreases n,
    {
        if n <= 0 {
            None
        } else {
            match self.indicator_at(line, n - 1) {
                Some(i) => Some(i),
                None => if self.indicator(n - 1) && line == self.effective_upto(n - 1)
                    + self.shown(n - 1) {
                    Some(n - 1)
                } else {
                    None
                },
            }
        }
    }

    /// The line of the chat, counted from the top, that is shown on row
    /// `y` of the screen. The scroll position counts here whether or not
    /// the chat sticks to its end.
    pub open spec fn line_at_row(&self, area: Area, y: u16) -> int {
        let viewport = Self::viewport_of(minus(area.height as int, 2) as u16);
        let max_scroll = self.max_scroll_for(viewport);
        let distance = least(self.chat_scroll as int, max_scroll as int);
        (max_scroll - distance) + (y - (area.y + 1))
    }

    /// Finds the message whose folding line lies on a line of the chat.
    pub fn find_indicator(&self, line: usize) -> (r: Option<usize>)
        ensures
            match r {
                Some(i) => self.indicator_at(line as int, self.chat_cache@.len() as int) == Some(
                    i as int,
                ),
                None => self.indicator_at(line as int, self.chat_cache@.len() as int) is None,
            },
    {
        let n = self.chat_cache.len();
        let mut left: usize = line;
        let mut i: usize = 0;
        while i < n
            invariant
                i <= n == self.chat_cache@.len(),
                left == line - self.effective_upto(i as int),
                self.indicator_at(line as int, i as int) is None,
            decreases n - i,
        {
            let (display, ind) = self.message_display_info(i);
            if left < display || (ind && left == display) {
                proof {
                    if ind && left == display {
                        self.lemma_indicator_found(line as int, i + 1, n as int);
                    } else {
                        self.lemma_no_indicator_above(line as int, i + 1, n as int);
                    }
                }
                return if ind && left == display {
                    Some(i)
                } else {
                    None
                };
            }
            left = left - display;
            if ind {
                left = left - 1;
            }
            i = i + 1;
        }
        None
    }

    /// Above a line that lies within the first `k` messages there is no
    /// folding line of a later message.
    pub proof fn lemma_no_indicator_above(&self, line: int, k: int, n: int)
        requires
            0 <= k <= n,
            line < self.effective_upto(k),
            self.indicator_at(line, k) is None,
        ensures
            self.indicator_at(line, n) is None,
        decreases n - k,
    {
        if k < n {
            self.lemma_no_indicator_above(line, k, n - 1);
            self.lemma_effective_grows(k, n - 1);
        }
    }

    /// The lines taken never get fewer with more messages.
    pub proof fn lemma_effective_grows(&self, k: int, n: int)
        requires
            0 <= k <= n,
        ensures
            self.effective_upto(k) <= self.effective_upto(n),
        decreases n - k,
    {
        if k < n {
            self.lemma_effective_grows(k, n - 1);
        }
    }

    /// A folding line found among the first `k` messages is the one found
    /// among any more.
    pub proof fn lemma_indicator_found(&self, line: int, k: int, n: int)
        requires
            0 <= k <= n,
            self.indicator_at(line, k) is Some,
        ensures
            self.indicator_at(line, n) == self.indicator_at(line, k),
        decreases n - k,
    {
        if k < n {
            self.lemma_indicator_found(line, k, n - 1);
        }
    }
}

impl App {
    /// `post` is `mid` after a click on row `y` of the chat pane: where
    /// the row shows the folding line of a message, that message is folded
    /// or unfolded; any other row changes nothing.
    pub open spec fn click_toggled(mid: App, post: App, area: Area, y: u16) -> bool {
        match mid.indicator_at(mid.line_at_row(area, y), mid.chat_cache@.len() as int) {
            Some(i) => {
                &&& post == (App { collapsed: post.collapsed, ..mid })
                &&& post.collapsed@ == (if i < mid.collapsed@.len() {
                    mid.collapsed@.update(i, !mid.collapsed@[i])
                } else {
                    mid.collapsed@
                })
            },
            None => post == mid,
        }
    }

    /// Takes a click on row `y` of the chat pane: the chat is wrapped for
    /// the pane, and the message whose folding line was hit is folded or
    /// unfolded. A click on the upper border, or while the place of the
    /// pane is not known, changes nothing.
    pub fn chat_click(&mut self, y: u16)
        ensures
            match old(self).chat_area {
                Some(area) => if y > area.y {
                    exists|mid: App|
                        #![trigger Self::click_toggled(mid, *final(self), area, y)]
                        Self::rewrapped(*old(self), mid, minus(area.width as int, 2) as u16)
                            && Self::click_toggled(mid, *final(self), area, y)
                } else {
                    *final(self) == *old(self)
                },
                None => *final(self) == *old(self),
            },
    {
        let area = match self.chat_area {
            Some(a) => a,
            None => {
                return ;
            },
        };
        if y <= area.y {
            return ;
        }
        self.ensure_chat_wrapped(area.width.saturating_sub(2));
        let ghost mid = *self;
        let (_viewport, max_scroll, _start, _total) = self.compute_chat_layout(
            area.height.saturating_sub(2),
        );
        let distance = if self.chat_scroll < max_scroll {
            self.chat_scroll
        } else {
            max_scroll
        };
        let line = (max_scroll - distance) as usize + (y - (area.y + 1)) as usize;
        if let Some(i) = self.find_indicator(line) {
            self.toggle_collapse_at(i);
        }
        assert(Self::click_toggled(mid, *self, area, y));
    }

    /// Scrolls the sidebar one line up, within its limit.
    pub fn sidebar_wheel_up(&mut self)
        ensures
            *final(self) == (App {
                sidebar_scroll: least(
                    minus(old(self).sidebar_scroll as int, 1),
                    old(self).sidebar_limit() as int,
                ) as u16,
                ..*old(self)
            }),
    {
        let limit = self.sidebar_max_scroll();
        let wanted = self.sidebar_scroll.saturating_sub(1);
        self.sidebar_scroll = if wanted < limit {
            wanted
        } else {
            limit
        };
    }

    /// Scrolls the sidebar one line down, within its limit.
    pub fn sidebar_wheel_down(&mut self)
        ensures
            *final(self) == (App {
                sidebar_scroll: least(
                    old(self).sidebar_scroll + 1,
                    old(self).sidebar_limit() as int,
                ) as u16,
                ..*old(self)
            }),
    {
        let limit = self.sidebar_max_scroll();
        let wanted = self.sidebar_scroll.saturating_add(1);
        self.sidebar_scroll = if wanted < limit {
            wanted
        } else {
            limit
        };
    }

    /// The session shown on row `y` of the sidebar, where the row lies
    /// inside its border and shows one.
    pub open spec fn session_at_row(&self, y: u16) -> Option<int> {
        match self.sidebar_area {
            Some(area) => {
                let idx = self.sidebar_scroll + (y - (area.y + 1));
                if area.y < y && y < area.y + area.height - 1 && idx < self.sessions@.len() {
                    Some(idx)
                } else {
                    None
                }
            },
            None => None,
        }
    }

    /// Takes a click on row `y` of the sidebar: the session shown there
    /// is selected and kept in view. Says whether a session was selected,
    /// which is then to be loaded.
    pub fn sidebar_click(&mut self, y: u16) -> (selected: bool)
        ensures
            selected == old(self).session_at_row(y) is Some,
            match old(self).session_at_row(y) {
                Some(idx) => {
                    &&& *final(self) == (App {
                        current_session: idx as usize,
                        sidebar_scroll: final(self).sidebar_scroll,
                        ..*old(self)
                    })
                    &&& final(self).sidebar_scroll == (App {
                        current_session: idx as usize,
                        ..*old(self)
                    }).sidebar_scroll_showing()
                },
                None => *final(self) == *old(self),
            },
    {
        let area = match self.sidebar_area {
            Some(a) => a,
            None => {
                return false;
            },
        };
        if y > area.y && (y as u32) + 1 < area.y as u32 + area.height as u32 {
            let idx = self.sidebar_scroll as usize + (y - (area.y + 1)) as usize;
            if idx < self.sessions.len() {
                self.current_session = idx;
                self.ensure_sidebar_visible();
                return true;
            }
        }
        false
    }
}

} // verus!
