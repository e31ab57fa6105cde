//! The state of the terminal front end, as plain data.

pub mod actions;
pub mod chat;
pub mod commands;
pub mod input;
pub mod keys;
pub mod line_edit;
pub mod measure;
pub mod overlays;
pub mod palette;
pub mod persist;
pub mod rows;
pub mod search;
pub mod sessions;
pub mod state;
pub mod strings;

use vstd::prelude::*;
use vstd::std_specs::convert::IntoSpec;

verus! {

/// Who wrote a line of the chat pane.
#[derive(Clone, Copy, Debug, PartialEq, Eq, Structural)]
pub enum Role {
    User,
    Assistant,
}

/// One message of the chat pane.
#[derive(Clone, Debug)]
pub struct Message {
    pub role: Role,
    pub content: String,
}

impl Message {
    /// A message written by the user.
    pub fn user<S: Into<String>>(s: S) -> (m: Message)
        ensures
            m.role == Role::User,
            <S as IntoSpec<String>>::obeys_into_spec() ==> m.content == <S as IntoSpec<
                String,
            >>::into_spec(s),
    {
        Message { role: Role::User, content: s.into() }
    }

    /// A message written by the assistant.
    pub fn assistant<S: Into<String>>(s: S) -> (m: Message)
        ensures
            m.role == Role::Assistant,
            <S as IntoSpec<String>>::obeys_into_spec() ==> m.content == <S as IntoSpec<
                String,
            >>::into_spec(s),
    {
        Message { role: Role::Assistant, content: s.into() }
    }
}

/// The pane that takes the keys.
#[derive(Clone, Copy, Debug, PartialEq, Eq, Structural)]
pub enum Focus {
    Input,
    Sidebar,
    Context,
}

/// A session name being edited.
pub struct RenameState {
    pub index: usize,
    pub buffer: String,
    pub cursor: usize,
}

/// A question waiting for yes or no.
#[derive(Clone, Copy, Debug, PartialEq, Eq, Structural)]
pub struct ConfirmState {
    pub action: ConfirmAction,
}

/// What a confirmation would do.
#[derive(Clone, Copy, Debug, PartialEq, Eq, Structural)]
pub enum ConfirmAction {
    DeleteSession(usize),
}

/// The line editor of the search box.
#[derive(Clone)]
pub struct SearchInput {
    pub buffer: String,
    pub cursor: usize,
}

/// One occurrence of the search text: the message, the wrapped line in it,
/// and the byte range in that line.
#[derive(Clone, Copy, Debug, PartialEq, Eq, Structural)]
pub struct SearchHit {
    pub msg_idx: usize,
    pub line_idx: usize,
    pub start: usize,
    pub end: usize,
}

/// The command palette.
#[derive(Clone)]
pub struct PaletteState {
    pub buffer: String,
    pub cursor: usize,
    pub filtered: Vec<PaletteAction>,
    pub selected: usize,
}

/// What the command palette offers.
#[derive(Clone, Copy, Debug, PartialEq, Eq, Structural)]
pub enum PaletteAction {
    ToggleSidebar,
    ToggleContext,
    NewSession,
    RenameSession,
    DeleteSession,
    OpenSearch,
    Quit,
}

impl PaletteAction {
    /// The text of the label of an action.
    pub open spec fn label_text(self) -> Seq<char> {
        match self {
            PaletteAction::ToggleSidebar => "Toggle sidebar"@,
            PaletteAction::ToggleContext => "Toggle context"@,
            PaletteAction::NewSession => "New session"@,
            PaletteAction::RenameSession => "Rename session"@,
            PaletteAction::DeleteSession => "Delete session"@,
            PaletteAction::OpenSearch => "Open search"@,
            PaletteAction::Quit => "Quit"@,
        }
    }

    /// The label under which the palette lists the action.
    pub fn label(&self) -> (s: &'static str)
        ensures
            s@ == self.label_text(),
    {
        match self {
            PaletteAction::ToggleSidebar => "Toggle sidebar",
            PaletteAction::ToggleContext => "Toggle context",
            PaletteAction::NewSession => "New session",
            PaletteAction::RenameSession => "Rename session",
            PaletteAction::DeleteSession => "Delete session",
            PaletteAction::OpenSearch => "Open search",
            PaletteAction::Quit => "Quit",
        }
    }
}

/// A message wrapped to the width of the chat pane.
#[derive(Clone)]
pub struct WrappedMsg {
    pub role: Role,
    pub content_len: usize,
    pub lines: Vec<String>,
}

/// The model picker.
#[derive(Clone)]
pub struct ModelPickerState {
    pub buffer: String,
    pub cursor: usize,
    pub filtered: Vec<String>,
    pub selected: usize,
}

/// A rectangle of the screen, in cells.
#[derive(Clone, Copy, Debug, PartialEq, Eq, Structural)]
pub struct Area {
    pub x: u16,
    pub y: u16,
    pub width: u16,
    pub height: u16,
}

/// The state of the front end.
pub struct App {
    pub messages: Vec<Message>,
    pub input: String,
    pub input_cursor: usize,
    pub history: Vec<String>,
    pub history_index: Option<usize>,
    pub sessions: Vec<String>,
    pub current_session: usize,
    pub should_quit: bool,
    pub chat_scroll: u16,
    pub show_sidebar: bool,
    pub show_help: bool,
    pub chat_area: Option<Area>,
    pub sidebar_area: Option<Area>,
    pub sidebar_scroll: u16,
    pub focus: Focus,
    pub rename: Option<RenameState>,
    pub confirm: Option<ConfirmState>,
    pub chat_wrap_width: u16,
    pub chat_cache: Vec<WrappedMsg>,
    pub chat_total_lines: usize,
    pub collapsed: Vec<bool>,
    pub collapse_preview_lines: usize,
    pub collapse_threshold_lines: usize,
    pub search_input: Option<SearchInput>,
    pub search_query: Option<String>,
    pub search_hits: Vec<SearchHit>,
    pub search_current: usize,
    pub stick_to_bottom: bool,
    pub chat_viewport: u16,
    pub input_visible_lines: u16,
    pub input_max_lines: u16,
    pub dirty: bool,
    pub show_context: bool,
    pub context_items: Vec<String>,
    pub context_area: Option<Area>,
    pub context_scroll: u16,
    pub context_current: usize,
    pub palette: Option<PaletteState>,
    pub model_picker: Option<ModelPickerState>,
    /// An answer is being streamed.
    pub streaming: bool,
    pub provider_label: String,
    pub model_label: String,
    pub wire_label: String,
}

/// What a chat-pane `Message` holds.
pub ghost struct MessageView {
    pub role: Role,
    pub content: Seq<char>,
}

impl View for Message {
    type V = MessageView;

    open spec fn view(&self) -> MessageView {
        MessageView { role: self.role, content: self.content@ }
    }
}

/// What a line editor holds: its text and its cursor.
pub ghost struct EditorView {
    pub buffer: Seq<char>,
    pub cursor: usize,
}

impl View for SearchInput {
    type V = EditorView;

    open spec fn view(&self) -> EditorView {
        EditorView { buffer: self.buffer@, cursor: self.cursor }
    }
}

/// What a `RenameState` holds.
pub ghost struct RenameView {
    pub index: usize,
    pub buffer: Seq<char>,
    pub cursor: usize,
}

impl View for RenameState {
    type V = RenameView;

    open spec fn view(&self) -> RenameView {
        RenameView { index: self.index, buffer: self.buffer@, cursor: self.cursor }
    }
}

/// What a `PaletteState` holds.
pub ghost struct PaletteView {
    pub buffer: Seq<char>,
    pub cursor: usize,
    pub filtered: Seq<PaletteAction>,
    pub selected: usize,
}

impl View for PaletteState {
    type V = PaletteView;

    open spec fn view(&self) -> PaletteView {
        PaletteView {
            buffer: self.buffer@,
            cursor: self.cursor,
            filtered: self.filtered@,
            selected: self.selected,
        }
    }
}

/// What a `ModelPickerState` holds.
pub ghost struct PickerView {
    pub buffer: Seq<char>,
    pub cursor: usize,
    pub filtered: Seq<Seq<char>>,
    pub selected: usize,
}

impl View for ModelPickerState {
    type V = PickerView;

    open spec fn view(&self) -> PickerView {
        PickerView {
            buffer: self.buffer@,
            cursor: self.cursor,
            filtered: crate::clusters::text_views(self.filtered@),
            selected: self.selected,
        }
    }
}

impl App {
    /// Records a submitted text in the history, unless it repeats the last
    /// entry, and ends any walk through the history.
    pub fn record_history_entry(&mut self, text: &str)
        ensures
            *final(self) == (App {
                history: final(self).history,
                history_index: None,
                ..*old(self)
            }),
            crate::clusters::text_views(final(self).history@) == (if old(self).history@.len() > 0
                && old(self).history@.last()@ == text@ {
                crate::clusters::text_views(old(self).history@)
            } else {
                crate::clusters::text_views(old(self).history@).push(text@)
            }),
    {
        let n = self.history.len();
        if n > 0 {
            if crate::text::same_text(self.history[n - 1].as_str(), text) {
                self.history_index = None;
                return ;
            }
        }
        let ghost before = self.history@;
        self.history.push(text.to_owned());
        self.history_index = None;
        assert(crate::clusters::text_views(self.history@) =~= crate::clusters::text_views(before).push(
            text@,
        ));
    }
}

} // verus!
