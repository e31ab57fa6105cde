use fast_chat::tui::{
    App, Area, ConfirmAction, ConfirmState, Focus, PaletteAction, RenameState, SearchInput,
};
use fast_chat::tui::keys::{
    action_command, key_binding, line_edit, Command, Key, KeyPress, LineEdit, Mode, MouseCommand,
    MouseKind,
};

fn press(key: Key) -> KeyPress {
    KeyPress { key, ctrl: false, shift: false, other_modifier: false }
}

fn ctrl(key: Key) -> KeyPress {
    KeyPress { key, ctrl: true, shift: false, other_modifier: false }
}

fn shift(key: Key) -> KeyPress {
    KeyPress { key, ctrl: false, shift: true, other_modifier: false }
}

fn alt(key: Key) -> KeyPress {
    KeyPress { key, ctrl: false, shift: false, other_modifier: true }
}

fn panes(focus: Focus, k: KeyPress) -> Command {
    key_binding(Mode::Panes, focus, false, k)
}

#[test]
fn control_letters_are_commands_everywhere() {
    for focus in [Focus::Input, Focus::Sidebar, Focus::Context] {
        assert_eq!(panes(focus, ctrl(Key::Char('c'))), Command::Quit);
        assert_eq!(
            key_binding(Mode::Panes, focus, true, ctrl(Key::Char('c'))),
            Command::CancelStream
        );
        assert_eq!(panes(focus, ctrl(Key::Char('p'))), Command::OpenPalette);
        assert_eq!(panes(focus, ctrl(Key::Char('f'))), Command::OpenSearch);
        assert_eq!(panes(focus, ctrl(Key::Char('w'))), Command::DeletePrevWord);
        assert_eq!(panes(focus, ctrl(Key::Char('u'))), Command::KillToLineStart);
        assert_eq!(panes(focus, ctrl(Key::Char('k'))), Command::KillToLineEnd);
        assert_eq!(panes(focus, ctrl(Key::Char('a'))), Command::LineStart);
        assert_eq!(panes(focus, ctrl(Key::Char('e'))), Command::LineEnd);
        assert_eq!(panes(focus, press(Key::Esc)), Command::Quit);
        assert_eq!(panes(focus, press(Key::Tab)), Command::CycleFocus);
        assert_eq!(panes(focus, press(Key::F(1))), Command::OpenHelp);
        assert_eq!(panes(focus, press(Key::F(2))), Command::ToggleSidebar);
        assert_eq!(panes(focus, press(Key::F(3))), Command::NextHit);
        assert_eq!(panes(focus, shift(Key::F(3))), Command::PrevHit);
        assert_eq!(panes(focus, press(Key::F(6))), Command::ToggleContext);
        assert_eq!(panes(focus, press(Key::F(9))), Command::Redraw);
        assert_eq!(panes(focus, shift(Key::Enter)), Command::InsertNewline);
        assert_eq!(panes(focus, ctrl(Key::Home)), Command::ChatTop);
        assert_eq!(panes(focus, ctrl(Key::End)), Command::ChatBottom);
        assert_eq!(panes(focus, press(Key::Other)), Command::Redraw);
    }
}

#[test]
fn keys_of_the_input_pane() {
    let f = Focus::Input;
    assert_eq!(panes(f, press(Key::Char('x'))), Command::Insert('x'));
    assert_eq!(panes(f, shift(Key::Char('X'))), Command::Insert('X'));
    assert_eq!(panes(f, ctrl(Key::Char('x'))), Command::Insert('x'));
    assert_eq!(panes(f, press(Key::Char('c'))), Command::Insert('c'));
    assert_eq!(panes(f, press(Key::Enter)), Command::Submit);
    assert_eq!(panes(f, press(Key::Backspace)), Command::DeleteLeft);
    assert_eq!(panes(f, press(Key::Delete)), Command::DeleteRight);
    assert_eq!(panes(f, press(Key::Left)), Command::CursorLeft);
    assert_eq!(panes(f, press(Key::Right)), Command::CursorRight);
    assert_eq!(panes(f, ctrl(Key::Left)), Command::WordLeft);
    assert_eq!(panes(f, ctrl(Key::Right)), Command::WordRight);
    assert_eq!(panes(f, shift(Key::Left)), Command::Redraw);
    assert_eq!(panes(f, alt(Key::Right)), Command::Redraw);
    assert_eq!(panes(f, press(Key::Up)), Command::HistoryPrev);
    assert_eq!(panes(f, press(Key::Down)), Command::HistoryNext);
    assert_eq!(panes(f, ctrl(Key::Up)), Command::LineUp);
    assert_eq!(panes(f, ctrl(Key::Down)), Command::LineDown);
    assert_eq!(panes(f, shift(Key::Up)), Command::Redraw);
    assert_eq!(panes(f, press(Key::PageUp)), Command::PageUp { fast: false });
    assert_eq!(panes(f, shift(Key::PageUp)), Command::PageUp { fast: true });
    assert_eq!(panes(f, press(Key::PageDown)), Command::PageDown { fast: false });
    assert_eq!(panes(f, shift(Key::PageDown)), Command::PageDown { fast: true });
    assert_eq!(panes(f, press(Key::Home)), Command::Redraw);
    assert_eq!(panes(f, press(Key::End)), Command::Redraw);
}

#[test]
fn keys_of_the_sidebar() {
    let f = Focus::Sidebar;
    assert_eq!(panes(f, press(Key::Char('n'))), Command::NewSession);
    assert_eq!(panes(f, press(Key::Char('N'))), Command::NewSession);
    assert_eq!(panes(f, press(Key::Char('r'))), Command::RenameSession);
    assert_eq!(panes(f, press(Key::Char('D'))), Command::DeleteSession);
    assert_eq!(panes(f, press(Key::Char('x'))), Command::Redraw);
    assert_eq!(panes(f, press(Key::Delete)), Command::DeleteSession);
    assert_eq!(panes(f, press(Key::Enter)), Command::Redraw);
    assert_eq!(panes(f, press(Key::Backspace)), Command::Redraw);
    assert_eq!(panes(f, press(Key::Up)), Command::SessionUp);
    assert_eq!(panes(f, ctrl(Key::Up)), Command::SessionUp);
    assert_eq!(panes(f, press(Key::Down)), Command::SessionDown);
    assert_eq!(panes(f, press(Key::PageUp)), Command::SessionPageUp);
    assert_eq!(panes(f, shift(Key::PageDown)), Command::SessionPageDown);
    assert_eq!(panes(f, press(Key::Home)), Command::SessionFirst);
    assert_eq!(panes(f, press(Key::End)), Command::SessionLast);
    assert_eq!(panes(f, press(Key::Left)), Command::Redraw);
}

#[test]
fn keys_of_the_context_pane() {
    let f = Focus::Context;
    assert_eq!(panes(f, press(Key::Char('a'))), Command::AddContext);
    assert_eq!(panes(f, press(Key::Char('A'))), Command::AddContext);
    assert_eq!(panes(f, press(Key::Char('b'))), Command::Redraw);
    assert_eq!(panes(f, press(Key::Up)), Command::ContextUp);
    assert_eq!(panes(f, press(Key::Down)), Command::ContextDown);
    assert_eq!(panes(f, ctrl(Key::Down)), Command::LineDown);
    assert_eq!(panes(f, press(Key::Delete)), Command::ContextDelete);
    assert_eq!(panes(f, press(Key::PageUp)), Command::PageUp { fast: false });
}

#[test]
fn keys_of_the_overlays() {
    let any = Focus::Sidebar;
    let b = |mode, k| key_binding(mode, any, true, k);
    assert_eq!(b(Mode::Palette, press(Key::Esc)), Command::ClosePalette);
    assert_eq!(b(Mode::Palette, press(Key::Enter)), Command::RunSelectedAction);
    assert_eq!(b(Mode::Palette, press(Key::Up)), Command::PaletteUp);
    assert_eq!(b(Mode::Palette, press(Key::Down)), Command::PaletteDown);
    assert_eq!(b(Mode::Palette, press(Key::Char('q'))), Command::PaletteEdit(LineEdit::Insert('q')));
    assert_eq!(b(Mode::Palette, ctrl(Key::Char('c'))), Command::Nothing);
    assert_eq!(b(Mode::Palette, press(Key::Tab)), Command::Nothing);
    assert_eq!(b(Mode::ModelPicker, press(Key::Esc)), Command::ClosePicker);
    assert_eq!(b(Mode::ModelPicker, press(Key::Enter)), Command::AcceptModel);
    assert_eq!(b(Mode::ModelPicker, press(Key::Up)), Command::PickerUp);
    assert_eq!(b(Mode::ModelPicker, press(Key::Down)), Command::PickerDown);
    assert_eq!(b(Mode::ModelPicker, press(Key::Home)), Command::PickerEdit(LineEdit::Home));
    assert_eq!(b(Mode::Help, press(Key::Esc)), Command::CloseHelp);
    assert_eq!(b(Mode::Help, press(Key::F(1))), Command::CloseHelp);
    assert_eq!(b(Mode::Help, press(Key::Char('?'))), Command::CloseHelp);
    assert_eq!(b(Mode::Help, press(Key::F(2))), Command::Nothing);
    assert_eq!(b(Mode::Help, press(Key::Char('q'))), Command::Nothing);
    assert_eq!(b(Mode::Search, press(Key::Esc)), Command::CloseSearch);
    assert_eq!(b(Mode::Search, press(Key::Enter)), Command::CommitSearch);
    assert_eq!(b(Mode::Search, press(Key::Up)), Command::Nothing);
    assert_eq!(b(Mode::Search, press(Key::Backspace)), Command::SearchEdit(LineEdit::Backspace));
    assert_eq!(b(Mode::Rename, press(Key::Esc)), Command::CancelRename);
    assert_eq!(b(Mode::Rename, press(Key::Enter)), Command::CommitRename);
    assert_eq!(b(Mode::Rename, press(Key::End)), Command::RenameEdit(LineEdit::End));
    assert_eq!(b(Mode::Rename, press(Key::Down)), Command::Nothing);
    assert_eq!(b(Mode::Confirm, press(Key::Char('y'))), Command::ConfirmYes);
    assert_eq!(b(Mode::Confirm, press(Key::Char('Y'))), Command::ConfirmYes);
    assert_eq!(b(Mode::Confirm, press(Key::Char('n'))), Command::ConfirmNo);
    assert_eq!(b(Mode::Confirm, press(Key::Char('N'))), Command::ConfirmNo);
    assert_eq!(b(Mode::Confirm, press(Key::Esc)), Command::ConfirmNo);
    assert_eq!(b(Mode::Confirm, press(Key::Enter)), Command::Nothing);
    assert_eq!(b(Mode::Confirm, press(Key::Char('x'))), Command::Nothing);
}

#[test]
fn editing_keys() {
    assert_eq!(line_edit(press(Key::Backspace)), Some(LineEdit::Backspace));
    assert_eq!(line_edit(press(Key::Delete)), Some(LineEdit::Delete));
    assert_eq!(line_edit(press(Key::Left)), Some(LineEdit::Left));
    assert_eq!(line_edit(press(Key::Right)), Some(LineEdit::Right));
    assert_eq!(line_edit(press(Key::Home)), Some(LineEdit::Home));
    assert_eq!(line_edit(press(Key::End)), Some(LineEdit::End));
    assert_eq!(line_edit(shift(Key::Char('A'))), Some(LineEdit::Insert('A')));
    assert_eq!(line_edit(ctrl(Key::Char('a'))), None);
    assert_eq!(line_edit(press(Key::Up)), None);
    assert_eq!(line_edit(press(Key::Other)), None);
}

#[test]
fn overlays_come_before_the_panes_in_order() {
    let mut app = App::new();
    assert_eq!(app.mode(), Mode::Panes);
    app.confirm = Some(ConfirmState { action: ConfirmAction::DeleteSession(0) });
    assert_eq!(app.mode(), Mode::Confirm);
    app.rename = Some(RenameState { index: 0, buffer: String::new(), cursor: 0 });
    assert_eq!(app.mode(), Mode::Rename);
    app.search_input = Some(SearchInput { buffer: String::new(), cursor: 0 });
    assert_eq!(app.mode(), Mode::Search);
    app.show_help = true;
    assert_eq!(app.mode(), Mode::Help);
    app.open_model_picker();
    assert_eq!(app.mode(), Mode::ModelPicker);
    app.open_palette();
    assert_eq!(app.mode(), Mode::Palette);
    assert_eq!(app.command_for(press(Key::Esc)), Command::ClosePalette);
    app.palette = None;
    assert_eq!(app.command_for(press(Key::Esc)), Command::ClosePicker);
    let mut app = App::new();
    app.streaming = true;
    assert_eq!(app.command_for(ctrl(Key::Char('c'))), Command::CancelStream);
    app.focus = Focus::Sidebar;
    assert_eq!(app.command_for(press(Key::Char('n'))), Command::NewSession);
}

#[test]
fn mouse_in_the_panes() {
    let mut app = App::new();
    assert_eq!(app.mouse_commands(MouseKind::LeftDown, 1, 1), (None, None));
    app.sidebar_area = Some(Area { x: 0, y: 0, width: 26, height: 20 });
    app.chat_area = Some(Area { x: 26, y: 0, width: 50, height: 15 });
    assert_eq!(app.mouse_commands(MouseKind::LeftDown, 1, 1), (None, Some(MouseCommand::Click)));
    assert_eq!(app.mouse_commands(MouseKind::ScrollUp, 30, 14), (Some(MouseCommand::WheelUp), None));
    assert_eq!(
        app.mouse_commands(MouseKind::ScrollDown, 30, 14),
        (Some(MouseCommand::WheelDown), None)
    );
    assert_eq!(app.mouse_commands(MouseKind::ScrollDown, 30, 15), (None, None));
    assert_eq!(app.mouse_commands(MouseKind::Other, 30, 3), (None, None));
    app.show_help = true;
    assert_eq!(app.mouse_commands(MouseKind::LeftDown, 30, 3), (None, None));
    assert_eq!(app.mouse_commands(MouseKind::LeftDown, 3, 3), (None, Some(MouseCommand::Click)));
    app.show_sidebar = false;
    assert_eq!(app.mouse_commands(MouseKind::LeftDown, 3, 3), (None, None));
}

#[test]
fn palette_actions_are_commands() {
    assert_eq!(action_command(PaletteAction::ToggleSidebar), Command::ToggleSidebar);
    assert_eq!(action_command(PaletteAction::ToggleContext), Command::ToggleContext);
    assert_eq!(action_command(PaletteAction::NewSession), Command::NewSession);
    assert_eq!(action_command(PaletteAction::RenameSession), Command::RenameSession);
    assert_eq!(action_command(PaletteAction::DeleteSession), Command::DeleteSession);
    assert_eq!(action_command(PaletteAction::OpenSearch), Command::OpenSearch);
    assert_eq!(action_command(PaletteAction::Quit), Command::Quit);
    let mut app = App::new();
    assert_eq!(app.selected_command(), None);
    app.open_palette();
    assert_eq!(app.selected_command(), Some(Command::ToggleSidebar));
    app.palette.as_mut().unwrap().selected = 6;
    assert_eq!(app.selected_command(), Some(Command::Quit));
    app.palette.as_mut().unwrap().selected = 7;
    assert_eq!(app.selected_command(), None);
}
