use fast_chat::tui::App;
use fast_chat::tui::line_edit::{
    buffer_backspace, buffer_delete, buffer_insert, cursor_left, cursor_right, end_of,
    select_down, select_up,
};
use fast_chat::tui::input::insert_at;

fn app_with(input: &str, cursor: usize) -> App {
    let mut app = App::new();
    app.input = input.to_string();
    app.input_cursor = cursor;
    app
}

#[test]
fn insert_puts_text_at_the_cursor() {
    let mut app = app_with("helo", 3);
    app.insert_text("l");
    assert_eq!(app.input, "hello");
    assert_eq!(app.input_cursor, 4);
    app.insert_text(" wörld");
    assert_eq!(app.input, "hell wörldo");
    assert_eq!(app.input_cursor, 10);
    let mut app = app_with("ab", 99);
    app.insert_text("c");
    assert_eq!(app.input, "abc");
    assert_eq!(app.input_cursor, 3);
    assert_eq!(insert_at("", 0, "x\ny"), ("x\ny".to_string(), 3));
}

#[test]
fn insert_counts_clusters_not_characters() {
    let mut app = app_with("", 0);
    app.insert_text("e\u{301}\r\n🇷🇺");
    assert_eq!(app.input_cursor, 3);
    app.insert_text("!");
    assert_eq!(app.input, "e\u{301}\r\n🇷🇺!");
    assert_eq!(app.input_cursor, 4);
    let mut app = app_with("e", 1);
    app.insert_text("\u{301}");
    assert_eq!(app.input, "e\u{301}");
    assert_eq!(app.input_cursor, 1);
}

#[test]
fn delete_left_and_right() {
    let mut app = app_with("a🇷🇺b", 2);
    app.delete_left_grapheme();
    assert_eq!(app.input, "ab");
    assert_eq!(app.input_cursor, 1);
    app.delete_right_grapheme();
    assert_eq!(app.input, "a");
    assert_eq!(app.input_cursor, 1);
    app.delete_right_grapheme();
    assert_eq!(app.input, "a");
    app.delete_left_grapheme();
    assert_eq!(app.input, "");
    assert_eq!(app.input_cursor, 0);
    app.delete_left_grapheme();
    assert_eq!(app.input, "");
    assert_eq!(app.input_cursor, 0);
    let mut app = app_with("xyz", 10);
    app.delete_left_grapheme();
    assert_eq!(app.input, "xy");
    assert_eq!(app.input_cursor, 2);
}

#[test]
fn line_start_and_end() {
    let mut app = app_with("one\ntwo\nthree", 6);
    app.move_cursor_line_start();
    assert_eq!(app.input_cursor, 4);
    app.move_cursor_line_start();
    assert_eq!(app.input_cursor, 4);
    app.move_cursor_line_end();
    assert_eq!(app.input_cursor, 7);
    app.move_cursor_line_end();
    assert_eq!(app.input_cursor, 7);
    app.input_cursor = 0;
    app.move_cursor_line_start();
    assert_eq!(app.input_cursor, 0);
    app.input_cursor = 100;
    app.move_cursor_line_end();
    assert_eq!(app.input_cursor, 13);
    let mut app = app_with("a\r\nb", 3);
    app.move_cursor_line_start();
    assert_eq!(app.input_cursor, 0);
}

#[test]
fn word_moves() {
    let mut app = app_with("alpha  beta gamma", 11);
    app.move_cursor_word_left();
    assert_eq!(app.input_cursor, 7);
    app.move_cursor_word_left();
    assert_eq!(app.input_cursor, 0);
    app.move_cursor_word_right();
    assert_eq!(app.input_cursor, 5);
    app.move_cursor_word_right();
    assert_eq!(app.input_cursor, 11);
    app.move_cursor_word_right();
    assert_eq!(app.input_cursor, 17);
    app.move_cursor_word_right();
    assert_eq!(app.input_cursor, 17);
}

#[test]
fn delete_prev_word_takes_gap_and_word() {
    let mut app = app_with("alpha  beta gamma", 12);
    app.delete_prev_word();
    assert_eq!(app.input, "alpha  gamma");
    assert_eq!(app.input_cursor, 7);
    app.delete_prev_word();
    assert_eq!(app.input, "gamma");
    assert_eq!(app.input_cursor, 0);
    app.delete_prev_word();
    assert_eq!(app.input, "gamma");
}

#[test]
fn kill_to_line_start_and_end() {
    let mut app = app_with("one\ntwo\nthree", 6);
    app.kill_to_line_end();
    assert_eq!(app.input, "one\ntw\nthree");
    assert_eq!(app.input_cursor, 6);
    app.kill_to_line_start();
    assert_eq!(app.input, "one\n\nthree");
    assert_eq!(app.input_cursor, 4);
    app.kill_to_line_start();
    assert_eq!(app.input, "one\n\nthree");
    let mut app = app_with("abc", 50);
    app.kill_to_line_start();
    assert_eq!(app.input, "");
    assert_eq!(app.input_cursor, 0);
}

#[test]
fn overlay_editors() {
    let mut buffer = String::from("née");
    let mut cursor = 3usize;
    assert!(buffer_backspace(&mut buffer, &mut cursor));
    assert_eq!((buffer.as_str(), cursor), ("né", 2));
    buffer_insert(&mut buffer, &mut cursor, 'w');
    assert_eq!((buffer.as_str(), cursor), ("néw", 3));
    cursor = 0;
    assert!(!buffer_backspace(&mut buffer, &mut cursor));
    assert_eq!((buffer.as_str(), cursor), ("néw", 0));
    assert!(buffer_delete(&mut buffer, cursor));
    assert_eq!(buffer, "éw");
    assert!(!buffer_delete(&mut buffer, 2));
    assert_eq!(buffer, "éw");
    cursor_right(&buffer, &mut cursor);
    cursor_right(&buffer, &mut cursor);
    cursor_right(&buffer, &mut cursor);
    assert_eq!(cursor, 2);
    cursor_left(&mut cursor);
    assert_eq!(cursor, 1);
    assert_eq!(end_of(&buffer), 2);
    assert_eq!(end_of("🇷🇺🇸🇹"), 2);
    let mut sel = 0usize;
    select_up(&mut sel);
    assert_eq!(sel, 0);
    select_down(&mut sel, 2);
    select_down(&mut sel, 2);
    assert_eq!(sel, 1);
    select_down(&mut sel, 0);
    assert_eq!(sel, 1);
}

#[test]
fn history_is_recorded_once_in_a_row() {
    let mut app = App::new();
    app.history_index = Some(3);
    app.record_history_entry("a");
    app.record_history_entry("a");
    app.record_history_entry("b");
    app.record_history_entry("a");
    assert_eq!(app.history, vec!["a", "b", "a"]);
    assert_eq!(app.history_index, None);
}

#[test]
fn history_walk() {
    let mut app = App::new();
    app.history = vec!["one".to_string(), "twö".to_string()];
    app.history_next();
    assert_eq!(app.input, "");
    app.history_prev();
    assert_eq!((app.input.as_str(), app.input_cursor, app.history_index), ("twö", 3, Some(1)));
    app.history_prev();
    assert_eq!((app.input.as_str(), app.history_index), ("one", Some(0)));
    app.history_prev();
    assert_eq!((app.input.as_str(), app.history_index), ("one", Some(0)));
    app.history_next();
    assert_eq!((app.input.as_str(), app.history_index), ("twö", Some(1)));
    app.history_next();
    assert_eq!((app.input.as_str(), app.input_cursor, app.history_index), ("", 0, None));
    let mut app = App::new();
    app.history_prev();
    assert_eq!(app.history_index, None);
}
