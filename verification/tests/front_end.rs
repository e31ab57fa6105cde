use fast_chat::openai::config::{wire_from_name, OpenAiConfig, OpenAiFileConfig};
use fast_chat::llm::ChatWire;
use fast_chat::tui::persist::{sanitize, session_file_name, SavedState};
use fast_chat::ping;
use fast_chat::tui::strings::{
    build_stick_label, confirm_delete_session_message, help_lines_ascii, indicator_collapse,
    indicator_expand, stick_lines, STICK_BOTTOM,
};
use fast_chat::text::{contains, push_decimal, split_lines, to_chars};
use fast_chat::tui::{Message, PaletteAction, Role};

#[test]
fn core_answers_the_ping() {
    assert_eq!(ping(), "core-ok");
}

#[test]
fn confirm_message_quotes_the_name() {
    assert_eq!(
        confirm_delete_session_message("work"),
        "Delete session \"work\"? Press Y to confirm, N/Esc to cancel."
    );
    assert_eq!(
        confirm_delete_session_message(""),
        "Delete session \"\"? Press Y to confirm, N/Esc to cancel."
    );
}

#[test]
fn indicators_count_lines() {
    assert_eq!(indicator_expand(12), "Expand (12 more lines)");
    assert_eq!(indicator_expand(0), "Expand (0 more lines)");
    assert_eq!(indicator_collapse(120), "Collapse (120 total lines)");
    assert_eq!(indicator_collapse(usize::MAX), format!("Collapse ({} total lines)", usize::MAX));
}

#[test]
fn stick_labels() {
    assert_eq!(stick_lines(7), "+7 lines");
    assert_eq!(stick_lines(0), "+0 lines");
    assert_eq!(stick_lines(65535), "+65535 lines");
    assert_eq!(build_stick_label(0), "Bottom");
    assert_eq!(build_stick_label(0), STICK_BOTTOM);
    assert_eq!(build_stick_label(1), "+1 lines");
    assert_eq!(build_stick_label(1000), "+1000 lines");
}

#[test]
fn help_panel_lines() {
    let lines = help_lines_ascii();
    assert_eq!(lines.len(), 17);
    assert_eq!(lines[0], "Basic");
    assert_eq!(lines[1], "  Enter: Send    Shift+Enter: Newline    Esc/Ctrl-C: Quit");
    assert_eq!(lines[7], "Chat Scrolling");
    assert_eq!(lines[16], "  ?: Open/close this panel    F1: Open/close this panel");
}

#[test]
fn decimal_digits() {
    for n in [0u64, 9, 10, 11, 99, 100, 1234567890, u64::MAX] {
        let mut s = String::from("n=");
        push_decimal(&mut s, n);
        assert_eq!(s, format!("n={}", n));
    }
}

#[test]
fn lines_split_like_the_standard_library() {
    for text in ["", "a", "a\n", "a\nb", "a\r\nb\r\n", "\n", "\n\n", "a\r", "a\r\n\rb", "\r\n", "x\n\ny"] {
        let got: Vec<String> =
            split_lines(&to_chars(text)).into_iter().map(|l| l.into_iter().collect()).collect();
        let want: Vec<String> = text.lines().map(|l| l.to_string()).collect();
        assert_eq!(got, want, "lines of {:?}", text);
    }
}

#[test]
fn substring_search() {
    assert!(contains("HTTP 404 Not Found", "404"));
    assert!(contains("404", "404"));
    assert!(contains("abc", ""));
    assert!(contains("", ""));
    assert!(!contains("", "4"));
    assert!(!contains("4 04", "404"));
    assert!(!contains("40", "404"));
    assert!(contains("4404", "404"));
}

#[test]
fn palette_labels() {
    assert_eq!(PaletteAction::ToggleSidebar.label(), "Toggle sidebar");
    assert_eq!(PaletteAction::ToggleContext.label(), "Toggle context");
    assert_eq!(PaletteAction::NewSession.label(), "New session");
    assert_eq!(PaletteAction::RenameSession.label(), "Rename session");
    assert_eq!(PaletteAction::DeleteSession.label(), "Delete session");
    assert_eq!(PaletteAction::OpenSearch.label(), "Open search");
    assert_eq!(PaletteAction::Quit.label(), "Quit");
}

#[test]
fn chat_pane_messages() {
    let m = Message::user("hi");
    assert_eq!(m.role, Role::User);
    assert_eq!(m.content, "hi");
    let m = Message::assistant(String::from("hello"));
    assert_eq!(m.role, Role::Assistant);
    assert_eq!(m.content, "hello");
}

#[test]
fn session_names_become_file_names() {
    assert_eq!(sanitize("  my session "), "my session");
    assert_eq!(sanitize("a<b>c:d\"e/f\\g|h?i*j"), "a_b_c_d_e_f_g_h_i_j");
    assert_eq!(sanitize(""), "default");
    assert_eq!(sanitize(" \t\n"), "default");
    assert_eq!(sanitize("?"), "_");
    assert_eq!(session_file_name("a/b"), "a_b.jsonl");
    assert_eq!(session_file_name(" "), "default.jsonl");
}

#[test]
fn saved_state_default() {
    let s = SavedState::default();
    assert!(s.sessions.is_empty());
    assert_eq!(s.current_session, 0);
    assert!(!s.show_sidebar);
    assert_eq!(s.sidebar_scroll, 0);
}

#[test]
fn settings_defaults_and_overrides() {
    let cfg = OpenAiConfig::merge("SECRET-REDACTED".to_string(), None, None, None, None);
    assert_eq!(cfg.api_key, "SECRET-REDACTED");
    assert_eq!(cfg.base_url, "https://api.openai.com/v1");
    assert_eq!(cfg.model, "gpt-5");
    assert_eq!(cfg.wire_api, "responses");
    assert_eq!(cfg.timeout_ms, 30_000);
    assert_eq!(cfg.stream_max_retries, 5);
    assert_eq!(cfg.stream_idle_timeout_ms, 300_000);
    assert_eq!(cfg.proxy, None);
    assert_eq!(cfg.wire(), ChatWire::Responses);
    let file = OpenAiFileConfig {
        model: Some("o3".to_string()),
        model_provider: None,
        wire_api: Some("auto".to_string()),
        stream_max_retries: Some(2),
        stream_idle_timeout_ms: None,
        timeout_ms: Some(1),
    };
    let cfg = OpenAiConfig::merge(
        "k".to_string(),
        Some("http://localhost:1/v1".to_string()),
        Some(file),
        None,
        Some("http://proxy".to_string()),
    );
    assert_eq!(cfg.base_url, "http://localhost:1/v1");
    assert_eq!(cfg.model, "o3");
    assert_eq!(cfg.wire_api, "auto");
    assert_eq!(cfg.timeout_ms, 1);
    assert_eq!(cfg.stream_max_retries, 2);
    assert_eq!(cfg.stream_idle_timeout_ms, 300_000);
    assert_eq!(cfg.proxy, Some("http://proxy".to_string()));
    assert_eq!(cfg.wire(), ChatWire::Auto);
    let cfg = OpenAiConfig::merge(
        "k".to_string(),
        None,
        None,
        Some("https://secure".to_string()),
        Some("http://plain".to_string()),
    );
    assert_eq!(cfg.proxy, Some("https://secure".to_string()));
}

#[test]
fn wire_names() {
    assert_eq!(wire_from_name("chat"), ChatWire::Chat);
    assert_eq!(wire_from_name("responses"), ChatWire::Responses);
    assert_eq!(wire_from_name("auto"), ChatWire::Auto);
    assert_eq!(wire_from_name("Chat"), ChatWire::Responses);
    assert_eq!(wire_from_name(""), ChatWire::Responses);
}
