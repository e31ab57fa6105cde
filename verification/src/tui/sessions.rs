//! The sidebar of sessions: selection, scrolling, and the requests to
//! rename and delete. Saving and loading are the caller's part.

use crate::clusters::{grapheme_clusters, graphemes};
use crate::num::{low16, minus};
use crate::text::{decimal_of, push_decimal, push_text};
use crate::tui::{App, ConfirmAction, ConfirmState, Message, RenameState};
use vstd::prelude::*;

verus! {

/// The name given to the n-th session.
pub open spec fn session_name(n: nat) -> Seq<char> {
    "session-"@ + decimal_of(n)
}

impl App {
    /// The lines of the sidebar inside its border; none while it is not
    /// shown.
    pub open spec fn sidebar_inner(&self) -> u16 {
        match self.sidebar_area {
            Some(a) => minus(a.height as int, 2) as u16,
            None => 0,
        }
    }

    /// How far the sidebar can be scrolled.
    pub open spec fn sidebar_limit(&self) -> u16 {
        if self.sidebar_inner() == 0 {
            0
        } else {
            low16(minus(self.sessions@.len() as int, self.sidebar_inner() as int) as usize)
        }
    }

    /// The scroll position of the sidebar that shows the current session:
    /// moved up or down just as far as needed, and never beyond the limit.
    pub open spec fn sidebar_scroll_showing(&self) -> u16 {
        let h = self.sidebar_inner() as int;
        let start = self.sidebar_scroll as int;
        if h == 0 {
            self.sidebar_scroll
        } else {
            let wanted = if self.current_session < start {
                low16(self.current_session)
            } else if self.current_session > start + (h - 1) {
                low16((self.current_session + 1 - h) as usize)
            } else {
                self.sidebar_scroll
            };
            if wanted < self.sidebar_limit() {
                wanted
            } else {
                self.sidebar_limit()
            }
        }
    }

    /// The lines of the sidebar inside its border.
    pub fn sidebar_inner_height(&self) -> (h: u16)
        ensures
            h == self.sidebar_inner(),
    {
        match self.sidebar_area {
            Some(a) => a.height.saturating_sub(2),
            None => 0,
        }
    }

    /// How far the sidebar can be scrolled.
    pub fn sidebar_max_scroll(&self) -> (m: u16)
        ensures
            m == self.sidebar_limit(),
    {
        let h = self.sidebar_inner_height() as usize;
        if h == 0 {
            0
        } else {
            #[verifier::truncate]
            (self.sessions.len().saturating_sub(h) as u16)
        }
    }

    /// Scrolls the sidebar so that the current session is in view.
    pub fn ensure_sidebar_visible(&mut self)
        ensures
            *final(self) == (App { sidebar_scroll: final(self).sidebar_scroll, ..*old(self) }),
            final(self).sidebar_scroll == old(self).sidebar_scroll_showing(),
    {
        let start = self.sidebar_scroll as usize;
        let h = self.sidebar_inner_height() as usize;
        if h == 0 {
            return ;
        }
        let end = start + (h - 1);
        let limit = self.sidebar_max_scroll();
        let mut wanted = self.sidebar_scroll;
        if self.current_session < start {
            wanted = #[verifier::truncate]
            (self.current_session as u16);
        } else if self.current_session > end {
            wanted = #[verifier::truncate]
            ((self.current_session - h + 1) as u16);
        }
        self.sidebar_scroll = if wanted < limit {
            wanted
        } else {
            limit
        };
    }

    /// Selects the session above the current one, if there is one, and
    /// keeps it in view.
    pub fn sidebar_select_up(&mut self)
        ensures
            *final(self) == (App {
                current_session: final(self).current_session,
                sidebar_scroll: final(self).sidebar_scroll,
                ..*old(self)
            }),
            final(self).current_session == minus(old(self).current_session as int, 1),
            final(self).sidebar_scroll == (App {
                current_session: final(self).current_session,
                ..*old(self)
            }).sidebar_scroll_showing(),
    {
        if self.current_session > 0 {
            self.current_session = self.current_session - 1;
        }
        self.ensure_sidebar_visible();
    }

    /// Selects the session below the current one, if there is one, and
    /// keeps it in view.
    pub fn sidebar_select_down(&mut self)
        ensures
            *final(self) == (App {
                current_session: final(self).current_session,
                sidebar_scroll: final(self).sidebar_scroll,
                ..*old(self)
            }),
            final(self).current_session == (if old(self).current_session + 1 < old(
                self,
            ).sessions@.len() {
                old(self).current_session + 1
            } else {
                old(self).current_session as int
            }),
            final(self).sidebar_scroll == (App {
                current_session: final(self).current_session,
                ..*old(self)
            }).sidebar_scroll_showing(),
    {
        if self.current_session < self.sessions.len() && self.current_session + 1
            < self.sessions.len() {
            self.current_session = self.current_session + 1;
        }
        self.ensure_sidebar_visible();
    }

    /// Adds a session named after its number, selects it, keeps it in
    /// view, and empties the chat.
    pub fn sidebar_new_session(&mut self)
        requires
            old(self).sessions@.len() < usize::MAX,
        ensures
            *final(self) == (App {
                sessions: final(self).sessions,
                current_session: final(self).current_session,
                sidebar_scroll: final(self).sidebar_scroll,
                messages: final(self).messages,
                ..*old(self)
            }),
            crate::clusters::text_views(final(self).sessions@) == crate::clusters::text_views(
                old(self).sessions@,
            ).push(session_name((old(self).sessions@.len() + 1) as nat)),
            final(self).current_session == old(self).sessions@.len(),
            final(self).sidebar_scroll == (App {
                sessions: final(self).sessions,
                current_session: final(self).current_session,
                ..*old(self)
            }).sidebar_scroll_showing(),
            final(self).messages@.len() == 0,
    {
        let idx = self.sessions.len() + 1;
        let mut name = String::new();
        push_text(&mut name, "session-");
        push_decimal(&mut name, idx as u64);
        let ghost before = self.sessions@;
        self.sessions.push(name);
        assert(crate::clusters::text_views(self.sessions@) =~= crate::clusters::text_views(before).push(
            session_name((before.len() + 1) as nat),
        ));
        self.current_session = self.sessions.len() - 1;
        self.ensure_sidebar_visible();
        self.messages = Vec::new();
    }

    /// Opens the editor for the name of the current session, the cursor at
    /// its end. Without sessions nothing happens.
    pub fn sidebar_rename_current(&mut self)
        ensures
            old(self).sessions@.len() == 0 ==> *final(self) == *old(self),
            old(self).sessions@.len() > 0 ==> {
                let idx = if old(self).current_session < old(self).sessions@.len() - 1 {
                    old(self).current_session as int
                } else {
                    old(self).sessions@.len() - 1
                };
                &&& *final(self) == (App { rename: final(self).rename, ..*old(self) })
                &&& final(self).rename is Some
                &&& final(self).rename.unwrap()@.index == idx
                &&& final(self).rename.unwrap()@.buffer == old(self).sessions@[idx]@
                &&& final(self).rename.unwrap()@.cursor == grapheme_clusters(
                    old(self).sessions@[idx]@,
                ).len()
            },
    {
        if self.sessions.len() == 0 {
            return ;
        }
        let idx = if self.current_session < self.sessions.len() - 1 {
            self.current_session
        } else {
            self.sessions.len() - 1
        };
        let buffer = self.sessions[idx].clone();
        let cursor = graphemes(buffer.as_str()).len();
        self.rename = Some(RenameState { index: idx, buffer, cursor });
    }

    /// Asks whether the current session is to be deleted. Without
    /// sessions nothing happens.
    pub fn sidebar_delete_current(&mut self)
        ensures
            old(self).sessions@.len() == 0 ==> *final(self) == *old(self),
            old(self).sessions@.len() > 0 ==> *final(self) == (App {
                confirm: Some(
                    ConfirmState {
                        action: ConfirmAction::DeleteSession(
                            if old(self).current_session < old(self).sessions@.len() - 1 {
                                old(self).current_session
                            } else {
                                (old(self).sessions@.len() - 1) as usize
                            },
                        ),
                    },
                ),
                ..*old(self)
            }),
    {
        if self.sessions.len() == 0 {
            return ;
        }
        let idx = if self.current_session < self.sessions.len() - 1 {
            self.current_session
        } else {
            self.sessions.len() - 1
        };
        self.confirm = Some(ConfirmState { action: ConfirmAction::DeleteSession(idx) });
    }

    /// The name of the current session.
    pub fn current_session_name(&self) -> (name: &str)
        requires
            self.current_session < self.sessions@.len(),
        ensures
            name@ == self.sessions@[self.current_session as int]@,
    {
        self.sessions[self.current_session].as_str()
    }

    /// Shows the messages of the session that was loaded: the chat is
    /// wrapped anew, unfolded, and stands at its end.
    pub fn load_current_session_messages(&mut self, msgs: Vec<Message>)
        ensures
            *final(self) == (App {
                messages: msgs,
                chat_wrap_width: 0,
                chat_cache: final(self).chat_cache,
                chat_total_lines: 0,
                collapsed: final(self).collapsed,
                chat_scroll: 0,
                ..*old(self)
            }),
            final(self).chat_cache@.len() == 0,
            final(self).collapsed@.len() == 0,
    {
        self.messages = msgs;
        self.chat_wrap_width = 0;
        self.chat_cache = Vec::new();
        self.chat_total_lines = 0;
        self.collapsed = Vec::new();
        self.chat_scroll = 0;
    }
}

} // verus!
