//! The front end at start, and what of it is saved and restored.

use crate::clusters::text_views;
use crate::tui::persist::SavedState;
use crate::tui::{App, Focus, Message, MessageView, Role};
use vstd::prelude::*;

verus! {

/// The greeting of an empty chat.
pub open spec fn welcome() -> Seq<char> {
    "Welcome to fast TUI (preview). Enter: send; Shift+Enter: newline; Esc/Ctrl-C: quit."@
}

impl App {
    /// The front end as it starts: the greeting in the chat, one session
    /// `default`, the sidebar shown, the input focused, and the default
    /// provider, model and wire.
    pub fn new() -> (app: App)
        ensures
            app.messages@.len() == 1,
            app.messages@[0]@ == (MessageView { role: Role::Assistant, content: welcome() }),
            app.input@.len() == 0,
            app.input_cursor == 0,
            app.history@.len() == 0,
            app.history_index is None,
            text_views(app.sessions@) == seq!["default"@],
            app.current_session == 0,
            !app.should_quit,
            app.chat_scroll == 0,
            app.show_sidebar,
            !app.show_help,
            app.chat_area is None,
            app.sidebar_area is None,
            app.sidebar_scroll == 0,
            app.focus == Focus::Input,
            app.rename is None,
            app.confirm is None,
            app.chat_wrap_width == 0,
            app.chat_cache@.len() == 0,
            app.chat_total_lines == 0,
            app.collapsed@.len() == 0,
            app.collapse_preview_lines == 8,
            app.collapse_threshold_lines == 40,
            app.search_input is None,
            app.search_query is None,
            app.search_hits@.len() == 0,
            app.search_current == 0,
            app.stick_to_bottom,
            app.chat_viewport == 0,
            app.input_visible_lines == 1,
            app.input_max_lines == 6,
            app.dirty,
            !app.show_context,
            app.context_items@.len() == 0,
            app.context_area is None,
            app.context_scroll == 0,
            app.context_current == 0,
            app.palette is None,
            app.model_picker is None,
            !app.streaming,
            app.provider_label@ == "OpenAI"@,
            app.model_label@ == "gpt-5"@,
            app.wire_label@ == "responses"@,
    {
        let mut messages: Vec<Message> = Vec::new();
        messages.push(
            Message {
                role: Role::Assistant,
                content: "Welcome to fast TUI (preview). Enter: send; Shift+Enter: newline; Esc/Ctrl-C: quit.".to_owned(),
            },
        );
        let mut sessions: Vec<String> = Vec::new();
        sessions.push("default".to_owned());
        assert(text_views(sessions@) =~= seq!["default"@]);
        App {
            messages,
            input: String::new(),
            input_cursor: 0,
            history: Vec::new(),
            history_index: None,
            sessions,
            current_session: 0,
            should_quit: false,
            chat_scroll: 0,
            show_sidebar: true,
            show_help: false,
            chat_area: None,
            sidebar_area: None,
            sidebar_scroll: 0,
            focus: Focus::Input,
            rename: None,
            confirm: None,
            chat_wrap_width: 0,
            chat_cache: Vec::new(),
            chat_total_lines: 0,
            collapsed: Vec::new(),
            collapse_preview_lines: 8,
            collapse_threshold_lines: 40,
            search_input: None,
            search_query: None,
            search_hits: Vec::new(),
            search_current: 0,
            stick_to_bottom: true,
            chat_viewport: 0,
            input_visible_lines: 1,
            input_max_lines: 6,
            dirty: true,
            show_context: false,
            context_items: Vec::new(),
            context_area: None,
            context_scroll: 0,
            context_current: 0,
            palette: None,
            model_picker: None,
            streaming: false,
            provider_label: "OpenAI".to_owned(),
            model_label: "gpt-5".to_owned(),
            wire_label: "responses".to_owned(),
        }
    }

    /// Takes over what was saved: the sessions, unless none were saved,
    /// the current session, kept within the list, and the sidebar as it
    /// was.
    pub fn restore(&mut self, saved: SavedState)
        ensures
            *final(self) == (App {
                sessions: final(self).sessions,
                current_session: final(self).current_session,
                show_sidebar: saved.show_sidebar,
                sidebar_scroll: saved.sidebar_scroll,
                ..*old(self)
            }),
            final(self).sessions == (if saved.sessions@.len() > 0 {
                saved.sessions
            } else {
                old(self).sessions
            }),
            final(self).current_session == (if final(self).sessions@.len() == 0 {
                old(self).current_session as int
            } else if saved.current_session < final(self).sessions@.len() - 1 {
                saved.current_session as int
            } else {
                final(self).sessions@.len() - 1
            }),
    {
        let SavedState { sessions, current_session, show_sidebar, sidebar_scroll } = saved;
        if sessions.len() > 0 {
            self.sessions = sessions;
        }
        if self.sessions.len() > 0 {
            self.current_session = if current_session < self.sessions.len() - 1 {
                current_session
            } else {
                self.sessions.len() - 1
            };
        }
        self.show_sidebar = show_sidebar;
        self.sidebar_scroll = sidebar_scroll;
    }

    /// Shows the messages of the session found at start, unless there are
    /// none.
    pub fn show_loaded(&mut self, msgs: Vec<Message>)
        ensures
            *final(self) == (App {
                messages: if msgs@.len() > 0 {
                    msgs
                } else {
                    old(self).messages
                },
                ..*old(self)
            }),
    {
        if msgs.len() > 0 {
            self.messages = msgs;
        }
    }

    /// What of the front end is saved.
    pub fn saved_state(&self) -> (s: SavedState)
        ensures
            text_views(s.sessions@) == text_views(self.sessions@),
            s.current_session == self.current_session,
            s.show_sidebar == self.show_sidebar,
            s.sidebar_scroll == self.sidebar_scroll,
    {
        let mut sessions: Vec<String> = Vec::new();
        let mut i: usize = 0;
        while i < self.sessions.len()
            invariant
                i <= self.sessions@.len(),
                sessions@.len() == i,
                forall|k: int| 0 <= k < i ==> (#[trigger] sessions@[k])@ == self.sessions@[k]@,
            decreases self.sessions@.len() - i,
        {
            sessions.push(self.sessions[i].clone());
            i = i + 1;
        }
        assert(text_views(sessions@) =~= text_views(self.sessions@));
        SavedState {
            sessions,
            current_session: self.current_session,
            show_sidebar: self.show_sidebar,
            sidebar_scroll: self.sidebar_scroll,
        }
    }

    /// Shows or hides the sidebar.
    pub fn toggle_sidebar(&mut self)
        ensures
            *final(self) == (App { show_sidebar: !old(self).show_sidebar, ..*old(self) }),
    {
        self.show_sidebar = !self.show_sidebar;
    }

    /// Shows or hides the context pane.
    pub fn toggle_context(&mut self)
        ensures
            *final(self) == (App { show_context: !old(self).show_context, ..*old(self) }),
    {
        self.show_context = !self.show_context;
    }
}

} // verus!
