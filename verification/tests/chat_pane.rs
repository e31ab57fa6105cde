use fast_chat::tui::{App, Area, Focus, Message, Role, SearchHit, WrappedMsg};
use fast_chat::tui::actions::inside;
use fast_chat::tui::chat::{count_lines, fit_marks, wrap_message, wrap_messages};
use fast_chat::tui::search::{find_hits, find_in_line};

fn wrapped(lines: usize) -> WrappedMsg {
    WrappedMsg {
        role: Role::Assistant,
        content_len: 0,
        lines: (0..lines).map(|i| format!("line {}", i)).collect(),
    }
}

fn app_with_lines(counts: &[usize], collapsed: &[bool]) -> App {
    let mut app = App::new();
    app.chat_cache = counts.iter().map(|n| wrapped(*n)).collect();
    app.collapsed = collapsed.to_vec();
    app.stick_to_bottom = false;
    app
}

#[test]
fn display_info_follows_the_folding_rules() {
    let app = app_with_lines(&[5, 20, 20, 50, 50, 8, 9], &[false, false, true, false, true, true, true]);
    assert_eq!(app.message_display_info(0), (5, false));
    assert_eq!(app.message_display_info(1), (20, false));
    assert_eq!(app.message_display_info(2), (8, true));
    assert_eq!(app.message_display_info(3), (50, true));
    assert_eq!(app.message_display_info(4), (8, true));
    assert_eq!(app.message_display_info(5), (8, false));
    assert_eq!(app.message_display_info(6), (8, true));
    assert_eq!(app.message_display_info(7), (0, false));
    assert_eq!(app.effective_total_lines(), 5 + 20 + 9 + 51 + 9 + 8 + 9);
    assert_eq!(app.effective_lines_before(3), 34);
    assert_eq!(App::new().effective_total_lines(), 0);
}

#[test]
fn layout_of_the_pane() {
    let mut app = app_with_lines(&[30, 30], &[false, false]);
    assert_eq!(app.compute_chat_layout(10), (10, 50, 50, 60));
    app.chat_scroll = 7;
    assert_eq!(app.compute_chat_layout(10), (10, 50, 43, 60));
    app.chat_scroll = 500;
    assert_eq!(app.compute_chat_layout(10), (10, 50, 0, 60));
    app.stick_to_bottom = true;
    assert_eq!(app.compute_chat_layout(10), (10, 50, 50, 60));
    assert_eq!(app.compute_chat_layout(0), (1, 59, 59, 60));
    assert_eq!(app.compute_chat_layout(100), (100, 0, 0, 60));
}

#[test]
fn scroll_to_show_a_line() {
    let mut app = app_with_lines(&[30, 30], &[false, false]);
    app.set_scroll_to_show_global(10, 0);
    assert_eq!((app.chat_scroll, app.stick_to_bottom), (50, false));
    app.set_scroll_to_show_global(10, 20);
    assert_eq!((app.chat_scroll, app.stick_to_bottom), (30, false));
    app.set_scroll_to_show_global(10, 59);
    assert_eq!((app.chat_scroll, app.stick_to_bottom), (0, true));
    app.set_scroll_to_show_global(10, 5000);
    assert_eq!((app.chat_scroll, app.stick_to_bottom), (0, true));
    let mut app = App::new();
    app.chat_scroll = 9;
    app.stick_to_bottom = false;
    app.set_scroll_to_show_global(10, 3);
    assert_eq!((app.chat_scroll, app.stick_to_bottom), (0, true));
}

#[test]
fn toggling_a_fold() {
    let mut app = app_with_lines(&[1, 1], &[false, true]);
    app.toggle_collapse_at(0);
    app.toggle_collapse_at(1);
    app.toggle_collapse_at(2);
    assert_eq!(app.collapsed, vec![true, false]);
}

#[test]
fn wrapping_a_message() {
    let m = Message::user("hello wide world");
    let w = wrap_message(&m, 10);
    assert_eq!(w.role, Role::User);
    assert_eq!(w.content_len, 16);
    assert_eq!(w.lines, vec!["| hello", "  wide", "  world"]);
    let m = Message::assistant("ünï");
    let w = wrap_message(&m, 80);
    assert_eq!(w.role, Role::Assistant);
    assert_eq!(w.content_len, 5);
    assert_eq!(w.lines, vec!["> ünï"]);
    let all = wrap_messages(&vec![Message::user("a"), Message::assistant("b\nc")], 20);
    assert_eq!(all.len(), 2);
    assert_eq!(all[1].lines, vec!["> b", "  c"]);
    assert_eq!(count_lines(&all), 3);
}

#[test]
fn wrapped_cache_is_kept_up_to_date() {
    let mut app = App::new();
    app.messages = vec![Message::user("hi"), Message::assistant("x ".repeat(100))];
    app.collapse_threshold_lines = 3;
    app.ensure_chat_wrapped(12);
    assert_eq!(app.chat_wrap_width, 12);
    assert_eq!(app.chat_cache.len(), 2);
    assert_eq!(app.collapsed, vec![false, true]);
    assert_eq!(app.chat_total_lines, app.chat_cache[0].lines.len() + app.chat_cache[1].lines.len());
    let before = app.chat_cache[1].lines.clone();
    app.collapsed[1] = false;
    app.ensure_chat_wrapped(12);
    assert_eq!(app.collapsed, vec![false, false]);
    assert_eq!(app.chat_cache[1].lines, before);
    app.messages[1].content.push_str(" and more");
    app.ensure_chat_wrapped(12);
    assert_ne!(app.chat_cache[1].lines, before);
    assert_eq!(app.chat_cache[1].content_len, app.messages[1].content.len());
    app.ensure_chat_wrapped(0);
    assert_eq!(app.chat_wrap_width, 1);
    app.messages.pop();
    app.ensure_chat_wrapped(1);
    assert_eq!(app.chat_cache.len(), 1);
    assert_eq!(app.collapsed, vec![false]);
}

#[test]
fn marks_grow_with_the_chat() {
    let cache = vec![wrapped(1), wrapped(50), wrapped(41), wrapped(40)];
    let mut marks = vec![true];
    fit_marks(&mut marks, &cache, 40);
    assert_eq!(marks, vec![true, true, true, false]);
    let mut marks = vec![true, false, true, false, true, true];
    fit_marks(&mut marks, &cache, 40);
    assert_eq!(marks, vec![true, false, true, false]);
    let mut marks = vec![false, false, false, false];
    fit_marks(&mut marks, &cache, 40);
    assert_eq!(marks, vec![false, false, false, false]);
}

#[test]
fn occurrences_do_not_overlap() {
    let mut hits = Vec::new();
    find_in_line(&mut hits, 2, 3, b"aaaa aa", b"aa");
    let got: Vec<(usize, usize)> = hits.iter().map(|h| (h.start, h.end)).collect();
    assert_eq!(got, vec![(0, 2), (2, 4), (5, 7)]);
    assert!(hits.iter().all(|h| h.msg_idx == 2 && h.line_idx == 3));
    let mut hits = Vec::new();
    find_in_line(&mut hits, 0, 0, b"abc", b"");
    assert!(hits.is_empty());
    find_in_line(&mut hits, 0, 0, b"abc", b"abcd");
    assert!(hits.is_empty());
}

#[test]
fn hits_are_found_by_message_and_line() {
    let cache = vec![
        WrappedMsg { role: Role::User, content_len: 0, lines: vec!["| föo".to_string()] },
        WrappedMsg {
            role: Role::Assistant,
            content_len: 0,
            lines: vec!["> no".to_string(), "  föo föo".to_string()],
        },
    ];
    let hits = find_hits(&cache, "föo");
    assert_eq!(
        hits,
        vec![
            SearchHit { msg_idx: 0, line_idx: 0, start: 2, end: 6 },
            SearchHit { msg_idx: 1, line_idx: 1, start: 2, end: 6 },
            SearchHit { msg_idx: 1, line_idx: 1, start: 7, end: 11 },
        ]
    );
}

#[test]
fn search_commit_next_and_prev() {
    let mut app = app_with_lines(&[], &[]);
    app.chat_cache = vec![
        WrappedMsg { role: Role::User, content_len: 0, lines: vec!["x".to_string(); 20] },
        WrappedMsg { role: Role::Assistant, content_len: 0, lines: vec!["y".to_string(); 20] },
    ];
    app.chat_cache[0].lines[15] = "needle".to_string();
    app.chat_cache[1].lines[2] = "a needle".to_string();
    app.collapsed = vec![true, false];
    app.chat_area = Some(Area { x: 0, y: 0, width: 40, height: 12 });
    app.open_search();
    assert!(app.search_input.is_some());
    app.search_input.as_mut().unwrap().buffer = "needle".to_string();
    app.commit_search();
    assert!(app.search_input.is_none());
    assert_eq!(app.search_query, Some("needle".to_string()));
    assert_eq!(app.search_hits.len(), 2);
    assert_eq!(app.search_current, 0);
    assert_eq!(app.collapsed, vec![false, false]);
    assert_eq!(app.chat_scroll, 30 - 15);
    app.next_search_hit();
    assert_eq!(app.search_current, 1);
    assert_eq!(app.chat_scroll, 30 - 22);
    app.next_search_hit();
    assert_eq!(app.search_current, 0);
    app.prev_search_hit();
    assert_eq!(app.search_current, 1);
    app.prev_search_hit();
    assert_eq!(app.search_current, 0);
    app.open_search();
    app.commit_search();
    assert_eq!(app.search_query, None);
    assert!(app.search_hits.is_empty());
    app.next_search_hit();
    app.prev_search_hit();
    assert_eq!(app.search_current, 0);
}

#[test]
fn reveal_leaves_a_visible_hit_folded() {
    let mut app = app_with_lines(&[20], &[true]);
    app.search_hits = vec![SearchHit { msg_idx: 0, line_idx: 3, start: 0, end: 1 }];
    app.chat_scroll = 4;
    app.reveal_current_search_hit();
    assert_eq!(app.collapsed, vec![true]);
    assert_eq!(app.chat_scroll, 4);
    app.chat_area = Some(Area { x: 0, y: 0, width: 10, height: 5 });
    app.reveal_current_search_hit();
    assert_eq!(app.chat_scroll, 6 - 3);
    app.search_current = 7;
    app.chat_scroll = 1;
    app.reveal_current_search_hit();
    assert_eq!(app.chat_scroll, 1);
}

#[test]
fn cells_in_an_area() {
    let area = Area { x: 2, y: 3, width: 4, height: 2 };
    assert!(inside(area, 2, 3));
    assert!(inside(area, 5, 4));
    assert!(!inside(area, 6, 4));
    assert!(!inside(area, 5, 5));
    assert!(!inside(area, 1, 3));
    assert!(!inside(area, 2, 2));
    let edge = Area { x: 65535, y: 65535, width: 65535, height: 65535 };
    assert!(inside(edge, 65535, 65535));
}

#[test]
fn focus_goes_round_the_shown_panes() {
    let mut app = App::new();
    app.show_sidebar = true;
    app.show_context = true;
    app.cycle_focus();
    assert_eq!(app.focus, Focus::Sidebar);
    app.cycle_focus();
    assert_eq!(app.focus, Focus::Context);
    app.cycle_focus();
    assert_eq!(app.focus, Focus::Input);
    app.show_sidebar = false;
    app.cycle_focus();
    assert_eq!(app.focus, Focus::Context);
    app.show_context = false;
    app.cycle_focus();
    assert_eq!(app.focus, Focus::Input);
    app.cycle_focus();
    assert_eq!(app.focus, Focus::Input);
    app.focus = Focus::Sidebar;
    app.cycle_focus();
    assert_eq!(app.focus, Focus::Input);
}

#[test]
fn chat_scrolling_by_keys() {
    let mut app = App::new();
    app.chat_viewport = 10;
    assert_eq!(app.page_step(false), 10);
    assert_eq!(app.page_step(true), 20);
    app.chat_viewport = 0;
    assert_eq!(app.page_step(false), 1);
    assert_eq!(app.page_step(true), 1);
    app.chat_viewport = 40000;
    assert_eq!(app.page_step(true), 65535);
    app.scroll_chat_up(3);
    assert_eq!((app.chat_scroll, app.stick_to_bottom), (3, false));
    app.scroll_chat_up(65535);
    assert_eq!(app.chat_scroll, 65535);
    app.scroll_chat_down(65530);
    assert_eq!((app.chat_scroll, app.stick_to_bottom), (5, false));
    app.scroll_chat_down(9);
    assert_eq!((app.chat_scroll, app.stick_to_bottom), (0, true));
}

#[test]
fn click_on_a_folding_line() {
    let mut app = App::new();
    app.messages = vec![Message::user("a"), Message::assistant("w ".repeat(200))];
    app.collapse_threshold_lines = 5;
    app.collapse_preview_lines = 2;
    app.chat_area = Some(Area { x: 0, y: 0, width: 22, height: 12 });
    app.stick_to_bottom = false;
    app.chat_scroll = 0;
    app.chat_click(0);
    assert!(app.chat_cache.is_empty());
    app.chat_click(1);
    assert_eq!(app.collapsed, vec![false, true]);
    app.chat_click(4);
    assert_eq!(app.collapsed, vec![false, false]);
    let total = app.effective_total_lines();
    assert_eq!(total, 1 + app.chat_cache[1].lines.len() + 1);
    app.chat_click(10);
    assert_eq!(app.collapsed, vec![false, true]);
    app.chat_area = None;
    app.chat_click(4);
    assert_eq!(app.collapsed, vec![false, true]);
}

#[test]
fn indicator_lookup() {
    let app = app_with_lines(&[3, 50, 2], &[false, false, false]);
    assert_eq!(app.find_indicator(0), None);
    assert_eq!(app.find_indicator(3), None);
    assert_eq!(app.find_indicator(53), Some(1));
    assert_eq!(app.find_indicator(54), None);
    assert_eq!(app.find_indicator(56), None);
    assert_eq!(app.find_indicator(usize::MAX), None);
}
