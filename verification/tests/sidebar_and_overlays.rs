use fast_chat::tui::persist::SavedState;
use fast_chat::tui::{
    App, Area, ConfirmAction, ConfirmState, Message, ModelPickerState, PaletteAction,
    PaletteState, RenameState, Role,
};
use fast_chat::tui::commands::{
    grow_last, info_message, parse_slash_command, snapshot, SlashCommand, Submitted,
};
use fast_chat::tui::palette::{model_filter, palette_filter, recommended_models};

fn app_with_sessions(n: usize) -> App {
    let mut app = App::new();
    app.sessions = (0..n).map(|i| format!("s{}", i)).collect();
    app
}

#[test]
fn sidebar_heights_and_limits() {
    let mut app = app_with_sessions(30);
    assert_eq!(app.sidebar_inner_height(), 0);
    assert_eq!(app.sidebar_max_scroll(), 0);
    app.sidebar_area = Some(Area { x: 0, y: 0, width: 26, height: 12 });
    assert_eq!(app.sidebar_inner_height(), 10);
    assert_eq!(app.sidebar_max_scroll(), 20);
    app.sidebar_area = Some(Area { x: 0, y: 0, width: 26, height: 1 });
    assert_eq!(app.sidebar_inner_height(), 0);
    assert_eq!(app.sidebar_max_scroll(), 0);
    app.sidebar_area = Some(Area { x: 0, y: 0, width: 26, height: 100 });
    assert_eq!(app.sidebar_max_scroll(), 0);
}

#[test]
fn selection_stays_in_view() {
    let mut app = app_with_sessions(30);
    app.sidebar_area = Some(Area { x: 0, y: 0, width: 26, height: 12 });
    for _ in 0..12 {
        app.sidebar_select_down();
    }
    assert_eq!(app.current_session, 12);
    assert_eq!(app.sidebar_scroll, 3);
    for _ in 0..40 {
        app.sidebar_select_down();
    }
    assert_eq!(app.current_session, 29);
    assert_eq!(app.sidebar_scroll, 20);
    for _ in 0..15 {
        app.sidebar_select_up();
    }
    assert_eq!(app.current_session, 14);
    assert_eq!(app.sidebar_scroll, 14);
    for _ in 0..40 {
        app.sidebar_select_up();
    }
    assert_eq!(app.current_session, 0);
    assert_eq!(app.sidebar_scroll, 0);
    app.sidebar_scroll = 500;
    app.ensure_sidebar_visible();
    assert_eq!(app.sidebar_scroll, 0);
    app.sidebar_area = None;
    app.sidebar_scroll = 7;
    app.ensure_sidebar_visible();
    assert_eq!(app.sidebar_scroll, 7);
}

#[test]
fn new_session_is_named_by_its_number() {
    let mut app = App::new();
    app.sidebar_new_session();
    assert_eq!(app.sessions, vec!["default", "session-2"]);
    assert_eq!(app.current_session, 1);
    assert!(app.messages.is_empty());
    assert_eq!(app.current_session_name(), "session-2");
    app.sidebar_new_session();
    assert_eq!(app.sessions.last().unwrap(), "session-3");
}

#[test]
fn rename_and_delete_requests() {
    let mut app = app_with_sessions(3);
    app.sessions[2] = "naïve".to_string();
    app.current_session = 9;
    app.sidebar_rename_current();
    let st = app.rename.as_ref().unwrap();
    assert_eq!((st.index, st.buffer.as_str(), st.cursor), (2, "naïve", 5));
    app.sidebar_delete_current();
    assert_eq!(app.confirm, Some(ConfirmState { action: ConfirmAction::DeleteSession(2) }));
    let mut app = app_with_sessions(0);
    app.sidebar_rename_current();
    app.sidebar_delete_current();
    assert!(app.rename.is_none());
    assert!(app.confirm.is_none());
}

#[test]
fn confirmed_delete() {
    let mut app = app_with_sessions(3);
    app.current_session = 2;
    app.confirm = Some(ConfirmState { action: ConfirmAction::DeleteSession(2) });
    assert_eq!(app.confirm_yes(), Some("s2".to_string()));
    assert_eq!(app.sessions, vec!["s0", "s1"]);
    assert_eq!(app.current_session, 1);
    assert!(app.confirm.is_none());
    app.confirm = Some(ConfirmState { action: ConfirmAction::DeleteSession(0) });
    assert_eq!(app.confirm_yes(), Some("s0".to_string()));
    assert_eq!(app.current_session, 0);
    app.confirm = Some(ConfirmState { action: ConfirmAction::DeleteSession(0) });
    assert_eq!(app.confirm_yes(), Some("s1".to_string()));
    assert_eq!(app.sessions, vec!["default"]);
    assert_eq!(app.current_session, 0);
    app.confirm = Some(ConfirmState { action: ConfirmAction::DeleteSession(5) });
    assert_eq!(app.confirm_yes(), None);
    assert_eq!(app.sessions, vec!["default"]);
    assert!(app.confirm.is_none());
    assert_eq!(app.confirm_yes(), None);
    app.confirm = Some(ConfirmState { action: ConfirmAction::DeleteSession(0) });
    app.confirm_no();
    assert!(app.confirm.is_none());
    assert_eq!(app.sessions, vec!["default"]);
}

#[test]
fn accepted_rename() {
    let mut app = app_with_sessions(3);
    app.rename = Some(RenameState { index: 1, buffer: "  work ".to_string(), cursor: 0 });
    assert_eq!(app.rename_commit(), Some(("s1".to_string(), "work".to_string())));
    assert_eq!(app.sessions, vec!["s0", "work", "s2"]);
    assert_eq!(app.current_session, 1);
    assert!(app.rename.is_none());
    app.rename = Some(RenameState { index: 7, buffer: "s2".to_string(), cursor: 0 });
    assert_eq!(app.rename_commit(), None);
    assert_eq!(app.current_session, 2);
    app.rename = Some(RenameState { index: 0, buffer: " \t".to_string(), cursor: 0 });
    assert_eq!(app.rename_commit(), None);
    assert_eq!(app.sessions, vec!["s0", "work", "s2"]);
    assert_eq!(app.current_session, 2);
    assert!(app.rename.is_none());
    assert_eq!(app.rename_commit(), None);
    app.rename = Some(RenameState { index: 0, buffer: "x".to_string(), cursor: 0 });
    app.rename_cancel();
    assert!(app.rename.is_none());
}

#[test]
fn sidebar_mouse() {
    let mut app = app_with_sessions(30);
    app.sidebar_area = Some(Area { x: 0, y: 2, width: 26, height: 12 });
    app.sidebar_wheel_down();
    app.sidebar_wheel_down();
    assert_eq!(app.sidebar_scroll, 2);
    app.sidebar_wheel_up();
    assert_eq!(app.sidebar_scroll, 1);
    app.sidebar_wheel_up();
    app.sidebar_wheel_up();
    assert_eq!(app.sidebar_scroll, 0);
    app.sidebar_scroll = 20;
    app.sidebar_wheel_down();
    assert_eq!(app.sidebar_scroll, 20);
    assert!(!app.sidebar_click(2));
    assert!(!app.sidebar_click(13));
    assert!(app.sidebar_click(3));
    assert_eq!(app.current_session, 20);
    assert!(app.sidebar_click(12));
    assert_eq!(app.current_session, 29);
    let mut few = app_with_sessions(2);
    few.sidebar_area = Some(Area { x: 0, y: 0, width: 26, height: 12 });
    assert!(!few.sidebar_click(3));
    assert!(few.sidebar_click(2));
    assert_eq!(few.current_session, 1);
    few.sidebar_area = None;
    assert!(!few.sidebar_click(1));
}

#[test]
fn palette_narrows_without_regard_to_case() {
    let mut st = PaletteState { buffer: String::new(), cursor: 0, filtered: vec![], selected: 9 };
    palette_filter(&mut st);
    assert_eq!(st.filtered.len(), 7);
    assert_eq!(st.filtered[0], PaletteAction::ToggleSidebar);
    assert_eq!(st.filtered[6], PaletteAction::Quit);
    assert_eq!(st.selected, 6);
    st.buffer = "SESSION".to_string();
    palette_filter(&mut st);
    assert_eq!(
        st.filtered,
        vec![PaletteAction::NewSession, PaletteAction::RenameSession, PaletteAction::DeleteSession]
    );
    assert_eq!(st.selected, 2);
    st.buffer = "zzz".to_string();
    palette_filter(&mut st);
    assert!(st.filtered.is_empty());
    assert_eq!(st.selected, 0);
    let mut app = App::new();
    app.open_palette();
    let p = app.palette.as_ref().unwrap();
    assert_eq!((p.buffer.as_str(), p.cursor, p.filtered.len(), p.selected), ("", 0, 7, 0));
}

#[test]
fn models_offered_and_narrowed() {
    assert_eq!(recommended_models("gpt-4o").len(), 9);
    assert_eq!(recommended_models("gpt-4o")[0], "gpt-4o");
    assert_eq!(recommended_models("gpt-4o")[1], "gpt-5");
    assert_eq!(recommended_models("gpt-4o")[6], "gpt-4o-mini");
    let mine = recommended_models("my-model");
    assert_eq!(mine.len(), 10);
    assert_eq!(mine[0], "my-model");
    assert_eq!(mine[9], "o3-mini");
    let blank = recommended_models("  ");
    assert_eq!(blank.len(), 9);
    assert_eq!(blank[0], "gpt-5");
    let mut st =
        ModelPickerState { buffer: "MINI".to_string(), cursor: 0, filtered: vec![], selected: 5 };
    model_filter(&blank, &mut st);
    assert_eq!(st.filtered, vec!["gpt-5-minimal", "gpt-4o-mini", "o3-mini"]);
    assert_eq!(st.selected, 2);
    st.buffer.clear();
    model_filter(&blank, &mut st);
    assert_eq!(st.filtered, blank);
    let mut app = App::new();
    app.model_label = "o3".to_string();
    app.open_model_picker();
    let p = app.model_picker.as_ref().unwrap();
    assert_eq!(p.filtered.len(), 9);
    assert_eq!(p.filtered[0], "o3");
    assert_eq!(p.selected, 0);
    p.filtered.iter().skip(1).for_each(|m| assert_ne!(m, "o3"));
}

#[test]
fn accepting_a_model() {
    let mut app = App::new();
    assert!(!app.accept_model());
    app.open_model_picker();
    app.model_picker.as_mut().unwrap().selected = 3;
    assert!(app.accept_model());
    assert_eq!(app.model_label, "gpt-5-low");
    assert!(app.model_picker.is_none());
    assert_eq!(app.messages.last().unwrap().content, "[info] model set to 'gpt-5-low'");
    assert_eq!(app.messages.last().unwrap().role, Role::Assistant);
    assert_eq!(app.collapsed, vec![false]);
    app.open_model_picker();
    app.model_picker.as_mut().unwrap().selected = 99;
    assert!(!app.accept_model());
    assert!(app.model_picker.is_some());
}

#[test]
fn slash_commands_are_read() {
    assert!(parse_slash_command("hello").is_none());
    assert!(parse_slash_command("").is_none());
    assert!(parse_slash_command(" a /model x").is_none());
    assert!(matches!(parse_slash_command("/model"), Some(SlashCommand::PickModel)));
    assert!(matches!(parse_slash_command("  /MODEL   "), Some(SlashCommand::PickModel)));
    assert!(matches!(parse_slash_command("/model  gpt-4o \n"), Some(SlashCommand::SetModel(m)) if m == "gpt-4o"));
    assert!(matches!(parse_slash_command("/Model My Model"), Some(SlashCommand::SetModel(m)) if m == "My Model"));
    assert!(matches!(parse_slash_command("/wire CHAT"), Some(SlashCommand::SetWire(w)) if w == "chat"));
    assert!(matches!(parse_slash_command("/wire\tauto"), Some(SlashCommand::SetWire(w)) if w == "auto"));
    assert!(matches!(parse_slash_command("/wire responses"), Some(SlashCommand::SetWire(w)) if w == "responses"));
    assert!(matches!(parse_slash_command("/wire smoke"), Some(SlashCommand::Ignored)));
    assert!(matches!(parse_slash_command("/wire"), Some(SlashCommand::Ignored)));
    assert!(matches!(parse_slash_command("/"), Some(SlashCommand::Ignored)));
    assert!(matches!(parse_slash_command("/help me"), Some(SlashCommand::Ignored)));
    assert!(matches!(parse_slash_command("/modelx"), Some(SlashCommand::Ignored)));
}

#[test]
fn submitting_a_slash_command() {
    let mut app = App::new();
    app.input = " /wire Chat ".to_string();
    app.input_cursor = 5;
    app.dirty = false;
    assert!(matches!(app.submit(), Submitted::Command { save: true }));
    assert_eq!(app.wire_label, "chat");
    assert_eq!(app.messages.last().unwrap().content, "[info] wire set to 'chat'");
    assert_eq!((app.input.as_str(), app.input_cursor, app.dirty), ("", 0, true));
    assert!(app.history.is_empty());
    app.input = "/model".to_string();
    assert!(matches!(app.submit(), Submitted::Command { save: false }));
    assert!(app.model_picker.is_some());
    app.input = "/nothing".to_string();
    assert!(matches!(app.submit(), Submitted::Command { save: false }));
    assert_eq!(app.input, "");
    app.input = "/model o3".to_string();
    assert!(matches!(app.submit(), Submitted::Command { save: true }));
    assert_eq!(app.model_label, "o3");
    assert_eq!(app.messages.last().unwrap().content, "[info] model set to 'o3'");
}

#[test]
fn submitting_a_message() {
    let mut app = App::new();
    app.input = "   ".to_string();
    assert!(matches!(app.submit(), Submitted::Nothing));
    assert_eq!(app.input, "   ");
    app.input = "  2+2? ".to_string();
    app.chat_scroll = 9;
    app.stick_to_bottom = false;
    let sent = match app.submit() {
        Submitted::Send(s) => s,
        _ => panic!("expected a conversation to send"),
    };
    assert_eq!(sent.len(), 1);
    assert_eq!(sent[0].role, fast_chat::llm::Role::User);
    assert_eq!(sent[0].content, "2+2?");
    assert_eq!(app.messages.len(), 3);
    assert_eq!(app.messages[1].content, "2+2?");
    assert_eq!(app.messages[1].role, Role::User);
    assert_eq!(app.messages[2].content, "");
    assert_eq!(app.messages[2].role, Role::Assistant);
    assert_eq!(app.collapsed, vec![false, false]);
    assert_eq!(app.history, vec!["2+2?"]);
    assert_eq!((app.input.as_str(), app.input_cursor), ("", 0));
    assert_eq!((app.chat_scroll, app.stick_to_bottom, app.streaming), (0, true, true));
    app.append_stream_text("4");
    app.append_stream_text("!");
    assert_eq!(app.messages[2].content, "4!");
    app.end_stream();
    assert!(!app.streaming);
    app.input = "and 3+3?".to_string();
    let sent = match app.submit() {
        Submitted::Send(s) => s,
        _ => panic!("expected a conversation to send"),
    };
    let got: Vec<(fast_chat::llm::Role, &str)> =
        sent.iter().map(|m| (m.role, m.content.as_str())).collect();
    assert_eq!(
        got,
        vec![
            (fast_chat::llm::Role::User, "2+2?"),
            (fast_chat::llm::Role::Assistant, "4!"),
            (fast_chat::llm::Role::User, "and 3+3?"),
        ]
    );
    app.append_stream_error("timeout: idle");
    assert_eq!(app.messages.last().unwrap().content, "\n[error] timeout: idle");
    assert!(!app.streaming);
}

#[test]
fn snapshot_without_a_user_message_starts_at_the_top() {
    let msgs = vec![Message::assistant("hello"), Message::assistant(" "), Message::assistant("x")];
    let sent = snapshot(&msgs);
    assert_eq!(sent.len(), 2);
    assert_eq!(sent[0].content, "hello");
    assert_eq!(sent[1].content, "x");
    assert!(snapshot(&Vec::new()).is_empty());
    let msgs = vec![Message::assistant("banner"), Message::user(""), Message::assistant("")];
    let sent = snapshot(&msgs);
    assert_eq!(sent.len(), 1);
    assert_eq!(sent[0].content, "");
}

#[test]
fn notes_and_growing_answers() {
    let m = info_message("wire", "auto");
    assert_eq!((m.role, m.content.as_str()), (Role::Assistant, "[info] wire set to 'auto'"));
    let mut msgs: Vec<Message> = Vec::new();
    grow_last(&mut msgs, "x");
    assert!(msgs.is_empty());
    msgs.push(Message::user("a"));
    msgs.push(Message::user("b"));
    grow_last(&mut msgs, "cd");
    assert_eq!(msgs[0].content, "a");
    assert_eq!((msgs[1].role, msgs[1].content.as_str()), (Role::User, "bcd"));
}

#[test]
fn context_pane() {
    let mut app = App::new();
    app.context_items = vec!["a".to_string(), "b".to_string(), "c".to_string()];
    app.context_down();
    app.context_down();
    app.context_down();
    assert_eq!(app.context_current, 2);
    app.context_delete();
    assert_eq!(app.context_items, vec!["a", "b"]);
    assert_eq!(app.context_current, 1);
    app.context_up();
    app.context_up();
    assert_eq!(app.context_current, 0);
    app.context_delete();
    app.context_delete();
    assert!(app.context_items.is_empty());
    assert_eq!(app.context_current, 0);
    app.context_delete();
    app.open_context_add();
    assert_eq!(app.search_input.as_ref().unwrap().buffer, "");
    app.toggle_context();
    assert!(app.show_context);
    app.toggle_sidebar();
    assert!(!app.show_sidebar);
}

#[test]
fn state_at_start_saved_and_restored() {
    let mut app = App::new();
    assert_eq!(app.messages.len(), 1);
    assert_eq!(
        app.messages[0].content,
        "Welcome to fast TUI (preview). Enter: send; Shift+Enter: newline; Esc/Ctrl-C: quit."
    );
    assert_eq!(app.sessions, vec!["default"]);
    assert_eq!((app.collapse_preview_lines, app.collapse_threshold_lines), (8, 40));
    assert_eq!((app.input_visible_lines, app.input_max_lines), (1, 6));
    assert_eq!(app.provider_label, "OpenAI");
    assert_eq!(app.model_label, "gpt-5");
    assert_eq!(app.wire_label, "responses");
    assert!(app.show_sidebar && app.stick_to_bottom && app.dirty);
    app.restore(SavedState {
        sessions: vec!["a".to_string(), "b".to_string()],
        current_session: 5,
        show_sidebar: false,
        sidebar_scroll: 3,
    });
    assert_eq!(app.sessions, vec!["a", "b"]);
    assert_eq!(app.current_session, 1);
    assert_eq!((app.show_sidebar, app.sidebar_scroll), (false, 3));
    app.restore(SavedState {
        sessions: vec![],
        current_session: 0,
        show_sidebar: true,
        sidebar_scroll: 0,
    });
    assert_eq!(app.sessions, vec!["a", "b"]);
    assert_eq!(app.current_session, 0);
    let saved = app.saved_state();
    assert_eq!(saved.sessions, vec!["a", "b"]);
    assert_eq!((saved.current_session, saved.show_sidebar, saved.sidebar_scroll), (0, true, 0));
    app.show_loaded(vec![]);
    assert_eq!(app.messages.len(), 1);
    app.show_loaded(vec![Message::user("x")]);
    assert_eq!(app.messages[0].content, "x");
    app.chat_scroll = 4;
    app.collapsed = vec![true];
    app.load_current_session_messages(vec![]);
    assert!(app.messages.is_empty() && app.collapsed.is_empty());
    assert_eq!((app.chat_scroll, app.chat_wrap_width, app.chat_total_lines), (0, 0, 0));
}
