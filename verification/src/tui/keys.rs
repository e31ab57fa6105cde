//! The key bindings of the front end: which key asks for what, depending
//! on the overlay that is open and the pane that has the focus.

use crate::tui::{App, Focus, PaletteAction};
use crate::tui::actions::{area_holds, inside};
use vstd::prelude::*;

verus! {

/// A key of the keyboard.
#[derive(Clone, Copy, Debug, PartialEq, Eq, Structural)]
pub enum Key {
    Esc,
    Enter,
    Tab,
    Backspace,
    Delete,
    Left,
    Right,
    Up,
    Down,
    Home,
    End,
    PageUp,
    PageDown,
    /// A function key, by its number.
    F(u8),
    Char(char),
    /// Any other key.
    Other,
}

/// A key that was pressed, with the modifiers held.
#[derive(Clone, Copy, Debug, PartialEq, Eq, Structural)]
pub struct KeyPress {
    pub key: Key,
    pub ctrl: bool,
    pub shift: bool,
    /// Some other modifier is held as well.
    pub other_modifier: bool,
}

impl KeyPress {
    /// No modifier is held.
    pub open spec fn plain(self) -> bool {
        !self.ctrl && !self.shift && !self.other_modifier
    }
}

/// What takes the keys: the overlay that is open, or the panes.
#[derive(Clone, Copy, Debug, PartialEq, Eq, Structural)]
pub enum Mode {
    Palette,
    ModelPicker,
    Help,
    Search,
    Rename,
    Confirm,
    Panes,
}

/// What a key in a one-line editor asks for.
#[derive(Clone, Copy, Debug, PartialEq, Eq, Structural)]
pub enum LineEdit {
    Backspace,
    Delete,
    Left,
    Right,
    Home,
    End,
    Insert(char),
}

/// What a key asks for.
#[derive(Clone, Copy, Debug, PartialEq, Eq, Structural)]
pub enum Command {
    /// Nothing; the screen is left as it is.
    Nothing,
    /// Nothing but a redraw.
    Redraw,
    Quit,
    /// Stop the answer that is being streamed.
    CancelStream,
    ClosePalette,
    RunSelectedAction,
    PaletteUp,
    PaletteDown,
    PaletteEdit(LineEdit),
    ClosePicker,
    AcceptModel,
    PickerUp,
    PickerDown,
    PickerEdit(LineEdit),
    OpenHelp,
    CloseHelp,
    CloseSearch,
    CommitSearch,
    SearchEdit(LineEdit),
    CancelRename,
    CommitRename,
    RenameEdit(LineEdit),
    ConfirmYes,
    ConfirmNo,
    OpenPalette,
    OpenSearch,
    NextHit,
    PrevHit,
    CycleFocus,
    InsertNewline,
    Submit,
    DeleteLeft,
    DeleteRight,
    DeletePrevWord,
    KillToLineStart,
    KillToLineEnd,
    LineStart,
    LineEnd,
    AddContext,
    NewSession,
    RenameSession,
    DeleteSession,
    Insert(char),
    CursorLeft,
    CursorRight,
    WordLeft,
    WordRight,
    ChatTop,
    ChatBottom,
    HistoryPrev,
    HistoryNext,
    SessionUp,
    SessionDown,
    SessionPageUp,
    SessionPageDown,
    SessionFirst,
    SessionLast,
    /// Scroll the chat up by a page, fast or not.
    PageUp { fast: bool },
    /// Scroll the chat down by a page, fast or not.
    PageDown { fast: bool },
    LineUp,
    LineDown,
    ToggleSidebar,
    ToggleContext,
    ContextUp,
    ContextDown,
    ContextDelete,
}

/// What a key asks of a one-line editor, if anything. A character is
/// typed unless the control key is held.
pub open spec fn line_edit_of(k: KeyPress) -> Option<LineEdit> {
    match k.key {
        Key::Backspace => Some(LineEdit::Backspace),
        Key::Delete => Some(LineEdit::Delete),
        Key::Left => Some(LineEdit::Left),
        Key::Right => Some(LineEdit::Right),
        Key::Home => Some(LineEdit::Home),
        Key::End => Some(LineEdit::End),
        Key::Char(c) => if k.ctrl {
            None
        } else {
            Some(LineEdit::Insert(c))
        },
        _ => None,
    }
}

/// What a key asks for while the command palette is open.
pub open spec fn palette_binding(k: KeyPress) -> Command {
    match k.key {
        Key::Esc => Command::ClosePalette,
        Key::Enter => Command::RunSelectedAction,
        Key::Up => Command::PaletteUp,
        Key::Down => Command::PaletteDown,
        _ => match line_edit_of(k) {
            Some(e) => Command::PaletteEdit(e),
            None => Command::Nothing,
        },
    }
}

/// What a key asks for while the model picker is open.
pub open spec fn picker_binding(k: KeyPress) -> Command {
    match k.key {
        Key::Esc => Command::ClosePicker,
        Key::Enter => Command::AcceptModel,
        Key::Up => Command::PickerUp,
        Key::Down => Command::PickerDown,
        _ => match line_edit_of(k) {
            Some(e) => Command::PickerEdit(e),
            None => Command::Nothing,
        },
    }
}

/// What a key asks for while the help panel is open.
pub open spec fn help_binding(k: KeyPress) -> Command {
    match k.key {
        Key::Esc => Command::CloseHelp,
        Key::F(n) => if n == 1 {
            Command::CloseHelp
        } else {
            Command::Nothing
        },
        Key::Char(c) => if c == '?' {
            Command::CloseHelp
        } else {
            Command::Nothing
        },
        _ => Command::Nothing,
    }
}

/// What a key asks for while the search box is open.
pub open spec fn search_binding(k: KeyPress) -> Command {
    match k.key {
        Key::Esc => Command::CloseSearch,
        Key::Enter => Command::CommitSearch,
        _ => match line_edit_of(k) {
            Some(e) => Command::SearchEdit(e),
            None => Command::Nothing,
        },
    }
}

/// What a key asks for while the rename box is open.
pub open spec fn rename_binding(k: KeyPress) -> Command {
    match k.key {
        Key::Esc => Command::CancelRename,
        Key::Enter => Command::CommitRename,
        _ => match line_edit_of(k) {
            Some(e) => Command::RenameEdit(e),
            None => Command::Nothing,
        },
    }
}

/// What a key asks for while a question waits for yes or no.
pub open spec fn confirm_binding(k: KeyPress) -> Command {
    match k.key {
        Key::Char(c) => if c == 'y' || c == 'Y' {
            Command::ConfirmYes
        } else if c == 'n' || c == 'N' {
            Command::ConfirmNo
        } else {
            Command::Nothing
        },
        Key::Esc => Command::ConfirmNo,
        _ => Command::Nothing,
    }
}

/// What a character key asks of the panes. With the control key, a few
/// letters are commands wherever the focus is; any other character goes to
/// the pane that has the focus.
pub open spec fn char_binding(c: char, ctrl: bool, focus: Focus, streaming: bool) -> Command {
    if ctrl && c == 'c' {
        if streaming {
            Command::CancelStream
        } else {
            Command::Quit
        }
    } else if ctrl && c == 'p' {
        Command::OpenPalette
    } else if ctrl && c == 'f' {
        Command::OpenSearch
    } else if ctrl && c == 'w' {
        Command::DeletePrevWord
    } else if ctrl && c == 'u' {
        Command::KillToLineStart
    } else if ctrl && c == 'k' {
        Command::KillToLineEnd
    } else if ctrl && c == 'a' {
        Command::LineStart
    } else if ctrl && c == 'e' {
        Command::LineEnd
    } else {
        match focus {
            Focus::Context => if c == 'a' || c == 'A' {
                Command::AddContext
            } else {
                Command::Redraw
            },
            Focus::Sidebar => if c == 'n' || c == 'N' {
                Command::NewSession
            } else if c == 'r' || c == 'R' {
                Command::RenameSession
            } else if c == 'd' || c == 'D' {
                Command::DeleteSession
            } else {
                Command::Redraw
            },
            Focus::Input => Command::Insert(c),
        }
    }
}

/// What a key asks of the panes.
pub open spec fn panes_binding(k: KeyPress, focus: Focus, streaming: bool) -> Command {
    match k.key {
        Key::Char(c) => char_binding(c, k.ctrl, focus, streaming),
        Key::Esc => Command::Quit,
        Key::F(n) => if n == 1 {
            Command::OpenHelp
        } else if n == 3 {
            if k.shift {
                Command::PrevHit
            } else {
                Command::NextHit
            }
        } else if n == 2 {
            Command::ToggleSidebar
        } else if n == 6 {
            Command::ToggleContext
        } else {
            Command::Redraw
        },
        Key::Tab => Command::CycleFocus,
        Key::Enter => if k.shift {
            Command::InsertNewline
        } else if focus == Focus::Input {
            Command::Submit
        } else {
            Command::Redraw
        },
        Key::Backspace => if focus == Focus::Input {
            Command::DeleteLeft
        } else {
            Command::Redraw
        },
        Key::Delete => match focus {
            Focus::Input => Command::DeleteRight,
            Focus::Sidebar => Command::DeleteSession,
            Focus::Context => Command::ContextDelete,
        },
        Key::Left => if k.plain() && focus == Focus::Input {
            Command::CursorLeft
        } else if k.ctrl && focus == Focus::Input {
            Command::WordLeft
        } else {
            Command::Redraw
        },
        Key::Right => if k.plain() && focus == Focus::Input {
            Command::CursorRight
        } else if k.ctrl && focus == Focus::Input {
            Command::WordRight
        } else {
            Command::Redraw
        },
        Key::Home => if k.ctrl {
            Command::ChatTop
        } else if focus == Focus::Sidebar {
            Command::SessionFirst
        } else {
            Command::Redraw
        },
        Key::End => if k.ctrl {
            Command::ChatBottom
        } else if focus == Focus::Sidebar {
            Command::SessionLast
        } else {
            Command::Redraw
        },
        Key::Up => if k.plain() && focus == Focus::Input {
            Command::HistoryPrev
        } else if focus == Focus::Sidebar {
            Command::SessionUp
        } else if k.ctrl {
            Command::LineUp
        } else if focus == Focus::Context {
            Command::ContextUp
        } else {
            Command::Redraw
        },
        Key::Down => if k.plain() && focus == Focus::Input {
            Command::HistoryNext
        } else if focus == Focus::Sidebar {
            Command::SessionDown
        } else if k.ctrl {
            Command::LineDown
        } else if focus == Focus::Context {
            Command::ContextDown
        } else {
            Command::Redraw
        },
        Key::PageUp => if focus == Focus::Sidebar {
            Command::SessionPageUp
        } else {
            Command::PageUp { fast: k.shift }
        },
        Key::PageDown => if focus == Focus::Sidebar {
            Command::SessionPageDown
        } else {
            Command::PageDown { fast: k.shift }
        },
        Key::Other => Command::Redraw,
    }
}

/// What a key asks for in a mode.
pub open spec fn binding_of(mode: Mode, focus: Focus, streaming: bool, k: KeyPress) -> Command {
    match mode {
        Mode::Palette => palette_binding(k),
        Mode::ModelPicker => picker_binding(k),
        Mode::Help => help_binding(k),
        Mode::Search => search_binding(k),
        Mode::Rename => rename_binding(k),
        Mode::Confirm => confirm_binding(k),
        Mode::Panes => panes_binding(k, focus, streaming),
    }
}

/// Reads what a key asks of a one-line editor.
pub fn line_edit(k: KeyPress) -> (r: Option<LineEdit>)
    ensures
        r == line_edit_of(k),
{
    match k.key {
        Key::Backspace => Some(LineEdit::Backspace),
        Key::Delete => Some(LineEdit::Delete),
        Key::Left => Some(LineEdit::Left),
        Key::Right => Some(LineEdit::Right),
        Key::Home => Some(LineEdit::Home),
        Key::End => Some(LineEdit::End),
        Key::Char(c) => if k.ctrl {
            None
        } else {
            Some(LineEdit::Insert(c))
        },
        _ => None,
    }
}

/// Reads what a character key asks of the panes.
fn char_command(c: char, ctrl: bool, focus: Focus, streaming: bool) -> (r: Command)
    ensures
        r == char_binding(c, ctrl, focus, streaming),
{
    if ctrl && c == 'c' {
        if streaming {
            Command::CancelStream
        } else {
            Command::Quit
        }
    } else if ctrl && c == 'p' {
        Command::OpenPalette
    } else if ctrl && c == 'f' {
        Command::OpenSearch
    } else if ctrl && c == 'w' {
        Command::DeletePrevWord
    } else if ctrl && c == 'u' {
        Command::KillToLineStart
    } else if ctrl && c == 'k' {
        Command::KillToLineEnd
    } else if ctrl && c == 'a' {
        Command::LineStart
    } else if ctrl && c == 'e' {
        Command::LineEnd
    } else {
        match focus {
            Focus::Context => if c == 'a' || c == 'A' {
                Command::AddContext
            } else {
                Command::Redraw
            },
            Focus::Sidebar => if c == 'n' || c == 'N' {
                Command::NewSession
            } else if c == 'r' || c == 'R' {
                Command::RenameSession
            } else if c == 'd' || c == 'D' {
                Command::DeleteSession
            } else {
                Command::Redraw
            },
            Focus::Input => Command::Insert(c),
        }
    }
}

/// Reads what a key asks of an overlay with a one-line editor: `esc` on
/// escape, `enter` on enter, an edit of the line on the editing keys.
fn overlay_command(k: KeyPress, esc: Command, enter: Command) -> (r: Option<Command>)
    ensures
        r == (match k.key {
            Key::Esc => Some(esc),
            Key::Enter => Some(enter),
            _ => None::<Command>,
        }),
{
    match k.key {
        Key::Esc => Some(esc),
        Key::Enter => Some(enter),
        _ => None,
    }
}

/// Reads what a key asks of the panes.
fn panes_command(k: KeyPress, focus: Focus, streaming: bool) -> (r: Command)
    ensures
        r == panes_binding(k, focus, streaming),
{
    let plain = !k.ctrl && !k.shift && !k.other_modifier;
    let input = focus == Focus::Input;
    let sidebar = focus == Focus::Sidebar;
    let context = focus == Focus::Context;
    match k.key {
        Key::Char(c) => char_command(c, k.ctrl, focus, streaming),
        Key::Esc => Command::Quit,
        Key::F(n) => if n == 1 {
            Command::OpenHelp
        } else if n == 3 {
            if k.shift {
                Command::PrevHit
            } else {
                Command::NextHit
            }
        } else if n == 2 {
            Command::ToggleSidebar
        } else if n == 6 {
            Command::ToggleContext
        } else {
            Command::Redraw
        },
        Key::Tab => Command::CycleFocus,
        Key::Enter => if k.shift {
            Command::InsertNewline
        } else if input {
            Command::Submit
        } else {
            Command::Redraw
        },
        Key::Backspace => if input {
            Command::DeleteLeft
        } else {
            Command::Redraw
        },
        Key::Delete => match focus {
            Focus::Input => Command::DeleteRight,
            Focus::Sidebar => Command::DeleteSession,
            Focus::Context => Command::ContextDelete,
        },
        Key::Left => if plain && input {
            Command::CursorLeft
        } else if k.ctrl && input {
            Command::WordLeft
        } else {
            Command::Redraw
        },
        Key::Right => if plain && input {
            Command::CursorRight
        } else if k.ctrl && input {
            Command::WordRight
        } else {
            Command::Redraw
        },
        Key::Home => if k.ctrl {
            Command::ChatTop
        } else if sidebar {
            Command::SessionFirst
        } else {
            Command::Redraw
        },
        Key::End => if k.ctrl {
            Command::ChatBottom
        } else if sidebar {
            Command::SessionLast
        } else {
            Command::Redraw
        },
        Key::Up => if plain && input {
            Command::HistoryPrev
        } else if sidebar {
            Command::SessionUp
        } else if k.ctrl {
            Command::LineUp
        } else if context {
            Command::ContextUp
        } else {
            Command::Redraw
        },
        Key::Down => if plain && input {
            Command::HistoryNext
        } else if sidebar {
            Command::SessionDown
        } else if k.ctrl {
            Command::LineDown
        } else if context {
            Command::ContextDown
        } else {
            Command::Redraw
        },
        Key::PageUp => if sidebar {
            Command::SessionPageUp
        } else {
            Command::PageUp { fast: k.shift }
        },
        Key::PageDown => if sidebar {
            Command::SessionPageDown
        } else {
            Command::PageDown { fast: k.shift }
        },
        Key::Other => Command::Redraw,
    }
}

/// Reads what a key asks for in a mode.
pub fn key_binding(mode: Mode, focus: Focus, streaming: bool, k: KeyPress) -> (r: Command)
    ensures
        r == binding_of(mode, focus, streaming, k),
{
    match mode {
        Mode::Palette => match k.key {
            Key::Up => Command::PaletteUp,
            Key::Down => Command::PaletteDown,
            _ => match overlay_command(k, Command::ClosePalette, Command::RunSelectedAction) {
                Some(c) => c,
                None => match line_edit(k) {
                    Some(e) => Command::PaletteEdit(e),
                    None => Command::Nothing,
                },
            },
        },
        Mode::ModelPicker => match k.key {
            Key::Up => Command::PickerUp,
            Key::Down => Command::PickerDown,
            _ => match overlay_command(k, Command::ClosePicker, Command::AcceptModel) {
                Some(c) => c,
                None => match line_edit(k) {
                    Some(e) => Command::PickerEdit(e),
                    None => Command::Nothing,
                },
            },
        },
        Mode::Help => match k.key {
            Key::Esc => Command::CloseHelp,
            Key::F(n) => if n == 1 {
                Command::CloseHelp
            } else {
                Command::Nothing
            },
            Key::Char(c) => if c == '?' {
                Command::CloseHelp
            } else {
                Command::Nothing
            },
            _ => Command::Nothing,
        },
        Mode::Search => match overlay_command(k, Command::CloseSearch, Command::CommitSearch) {
            Some(c) => c,
            None => match line_edit(k) {
                Some(e) => Command::SearchEdit(e),
                None => Command::Nothing,
            },
        },
        Mode::Rename => match overlay_command(k, Command::CancelRename, Command::CommitRename) {
            Some(c) => c,
            None => match line_edit(k) {
                Some(e) => Command::RenameEdit(e),
                None => Command::Nothing,
            },
        },
        Mode::Confirm => match k.key {
            Key::Char(c) => if c == 'y' || c == 'Y' {
                Command::ConfirmYes
            } else if c == 'n' || c == 'N' {
                Command::ConfirmNo
            } else {
                Command::Nothing
            },
            Key::Esc => Command::ConfirmNo,
            _ => Command::Nothing,
        },
        Mode::Panes => panes_command(k, focus, streaming),
    }
}

/// What an action of the command palette asks for.
pub open spec fn action_binding(act: PaletteAction) -> Command {
    match act {
        PaletteAction::ToggleSidebar => Command::ToggleSidebar,
        PaletteAction::ToggleContext => Command::ToggleContext,
        PaletteAction::NewSession => Command::NewSession,
        PaletteAction::RenameSession => Command::RenameSession,
        PaletteAction::DeleteSession => Command::DeleteSession,
        PaletteAction::OpenSearch => Command::OpenSearch,
        PaletteAction::Quit => Command::Quit,
    }
}

/// Reads what an action of the command palette asks for.
pub fn action_command(act: PaletteAction) -> (c: Command)
    ensures
        c == action_binding(act),
{
    match act {
        PaletteAction::ToggleSidebar => Command::ToggleSidebar,
        PaletteAction::ToggleContext => Command::ToggleContext,
        PaletteAction::NewSession => Command::NewSession,
        PaletteAction::RenameSession => Command::RenameSession,
        PaletteAction::DeleteSession => Command::DeleteSession,
        PaletteAction::OpenSearch => Command::OpenSearch,
        PaletteAction::Quit => Command::Quit,
    }
}

impl App {
    /// The command of the action that is selected in the palette, where
    /// the palette is open and an action is selected.
    pub open spec fn selected_binding(&self) -> Option<Command> {
        match self.palette {
            Some(p) => if p.selected < p.filtered@.len() {
                Some(action_binding(p.filtered@[p.selected as int]))
            } else {
                None
            },
            None => None,
        }
    }

    /// Reads the command of the action that is selected in the palette.
    pub fn selected_command(&self) -> (c: Option<Command>)
        ensures
            c == self.selected_binding(),
    {
        match &self.palette {
            Some(p) => if p.selected < p.filtered.len() {
                Some(action_command(p.filtered[p.selected]))
            } else {
                None
            },
            None => None,
        }
    }

    /// What takes the keys: the overlays come before the panes, and among
    /// them the palette, the model picker, the help panel, the search box,
    /// the rename box and the question, in this order.
    pub open spec fn mode_of(&self) -> Mode {
        if self.palette is Some {
            Mode::Palette
        } else if self.model_picker is Some {
            Mode::ModelPicker
        } else if self.show_help {
            Mode::Help
        } else if self.search_input is Some {
            Mode::Search
        } else if self.rename is Some {
            Mode::Rename
        } else if self.confirm is Some {
            Mode::Confirm
        } else {
            Mode::Panes
        }
    }

    /// Tells what takes the keys.
    pub fn mode(&self) -> (m: Mode)
        ensures
            m == self.mode_of(),
    {
        if self.palette.is_some() {
            Mode::Palette
        } else if self.model_picker.is_some() {
            Mode::ModelPicker
        } else if self.show_help {
            Mode::Help
        } else if self.search_input.is_some() {
            Mode::Search
        } else if self.rename.is_some() {
            Mode::Rename
        } else if self.confirm.is_some() {
            Mode::Confirm
        } else {
            Mode::Panes
        }
    }

    /// Reads what a key asks for in the state at hand.
    pub fn command_for(&self, k: KeyPress) -> (c: Command)
        ensures
            c == binding_of(self.mode_of(), self.focus, self.streaming, k),
    {
        key_binding(self.mode(), self.focus, self.streaming, k)
    }
}

/// While an overlay is open, no key reaches the panes: it closes the
/// overlay, answers it, edits its line or moves its selection, or does
/// nothing.
pub proof fn lemma_overlay_takes_the_keys(mode: Mode, focus: Focus, streaming: bool, k: KeyPress)
    requires
        mode != Mode::Panes,
    ensures
        binding_of(mode, focus, streaming, k) == binding_of(mode, Focus::Input, false, k),
        binding_of(mode, focus, streaming, k) != Command::Quit,
        binding_of(mode, focus, streaming, k) != Command::Submit,
        !(binding_of(mode, focus, streaming, k) is Insert),
{
}

/// Ctrl+C stops a running answer and quits only where none is running;
/// escape quits from the panes.
pub proof fn lemma_quit_keys(focus: Focus, streaming: bool, k: KeyPress)
    ensures
        k.key == Key::Char('c') && k.ctrl ==> binding_of(Mode::Panes, focus, streaming, k) == (
        if streaming {
            Command::CancelStream
        } else {
            Command::Quit
        }),
        k.key == Key::Esc ==> binding_of(Mode::Panes, focus, streaming, k) == Command::Quit,
{
}

/// What the mouse did.
#[derive(Clone, Copy, Debug, PartialEq, Eq, Structural)]
pub enum MouseKind {
    ScrollUp,
    ScrollDown,
    /// The left button went down.
    LeftDown,
    /// Anything else.
    Other,
}

/// What the mouse asks of a pane.
#[derive(Clone, Copy, Debug, PartialEq, Eq, Structural)]
pub enum MouseCommand {
    WheelUp,
    WheelDown,
    Click,
}

/// What a kind of mouse event asks of the pane it happened in.
pub open spec fn mouse_command_of(kind: MouseKind) -> Option<MouseCommand> {
    match kind {
        MouseKind::ScrollUp => Some(MouseCommand::WheelUp),
        MouseKind::ScrollDown => Some(MouseCommand::WheelDown),
        MouseKind::LeftDown => Some(MouseCommand::Click),
        MouseKind::Other => None,
    }
}

impl App {
    /// What a mouse event at a cell asks of the chat pane: nothing while
    /// the help panel is open, or outside the pane.
    pub open spec fn chat_mouse_of(&self, kind: MouseKind, x: u16, y: u16) -> Option<MouseCommand> {
        match self.chat_area {
            Some(area) => if !self.show_help && area_holds(area, x, y) {
                mouse_command_of(kind)
            } else {
                None
            },
            None => None,
        }
    }

    /// What a mouse event at a cell asks of the sidebar: nothing while it
    /// is hidden, or outside it.
    pub open spec fn sidebar_mouse_of(&self, kind: MouseKind, x: u16, y: u16) -> Option<
        MouseCommand,
    > {
        match self.sidebar_area {
            Some(area) => if self.show_sidebar && area_holds(area, x, y) {
                mouse_command_of(kind)
            } else {
                None
            },
            None => None,
        }
    }

    /// Reads what a mouse event at a cell asks of the chat pane and of the
    /// sidebar.
    pub fn mouse_commands(&self, kind: MouseKind, x: u16, y: u16) -> (r: (
        Option<MouseCommand>,
        Option<MouseCommand>,
    ))
        ensures
            r.0 == self.chat_mouse_of(kind, x, y),
            r.1 == self.sidebar_mouse_of(kind, x, y),
    {
        let asked = match kind {
            MouseKind::ScrollUp => Some(MouseCommand::WheelUp),
            MouseKind::ScrollDown => Some(MouseCommand::WheelDown),
            MouseKind::LeftDown => Some(MouseCommand::Click),
            MouseKind::Other => None,
        };
        let chat = match self.chat_area {
            Some(area) => if !self.show_help && inside(area, x, y) {
                asked
            } else {
                None
            },
            None => None,
        };
        let sidebar = match self.sidebar_area {
            Some(area) => if self.show_sidebar && inside(area, x, y) {
                asked
            } else {
                None
            },
            None => None,
        };
        (chat, sidebar)
    }
}

} // verus!
