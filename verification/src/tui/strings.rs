//! The labels and messages of the front end, ASCII throughout.

use crate::text::{decimal_of, push_decimal, push_text};
use vstd::prelude::*;

verus! {

/// Prefix of a user's message.
pub const PREFIX_USER: &'static str = "| ";

/// Prefix of an assistant's message.
pub const PREFIX_ASSISTANT: &'static str = "> ";

pub const INPUT_HINT: &'static str = "Type message, Enter to send / Shift+Enter for newline";

pub const TITLE_SESSIONS: &'static str = " Sessions ";

pub const TITLE_CHAT: &'static str = " Chat ";

pub const TITLE_INPUT: &'static str = " Input ";

pub const TITLE_HELP: &'static str = " Help / Shortcuts ";

pub const TITLE_SEARCH: &'static str = " Search ";

pub const TITLE_RENAME: &'static str = " Rename Session ";

pub const TITLE_CONFIRM: &'static str = " Confirm ";

pub const TITLE_CONTEXT: &'static str = " Context ";

/// Label of the status bar while the chat sticks to its end.
pub const STICK_BOTTOM: &'static str = "Bottom";

/// The question asked before a session is deleted.
pub open spec fn confirm_delete_text(name: Seq<char>) -> Seq<char> {
    "Delete session \""@ + name + "\"? Press Y to confirm, N/Esc to cancel."@
}

/// The question asked before the session `name` is deleted.
pub fn confirm_delete_session_message(name: &str) -> (s: String)
    ensures
        s@ == confirm_delete_text(name@),
{
    let mut s = String::new();
    push_text(&mut s, "Delete session \"");
    push_text(&mut s, name);
    push_text(&mut s, "\"? Press Y to confirm, N/Esc to cancel.");
    assert(s@ =~= confirm_delete_text(name@));
    s
}

/// The label that offers to show the rest of a long message.
pub open spec fn expand_text(remaining: nat) -> Seq<char> {
    "Expand ("@ + decimal_of(remaining) + " more lines)"@
}

/// The label that offers to show the `remaining` hidden lines.
pub fn indicator_expand(remaining: usize) -> (s: String)
    ensures
        s@ == expand_text(remaining as nat),
{
    let mut s = String::new();
    push_text(&mut s, "Expand (");
    push_decimal(&mut s, remaining as u64);
    push_text(&mut s, " more lines)");
    assert(s@ =~= expand_text(remaining as nat));
    s
}

/// The label that offers to fold a long message.
pub open spec fn collapse_text(total: nat) -> Seq<char> {
    "Collapse ("@ + decimal_of(total) + " total lines)"@
}

/// The label that offers to fold a message of `total` lines.
pub fn indicator_collapse(total: usize) -> (s: String)
    ensures
        s@ == collapse_text(total as nat),
{
    let mut s = String::new();
    push_text(&mut s, "Collapse (");
    push_decimal(&mut s, total as u64);
    push_text(&mut s, " total lines)");
    assert(s@ =~= collapse_text(total as nat));
    s
}

/// The label of a chat scrolled `n` lines up from its end.
pub open spec fn stick_lines_text(n: nat) -> Seq<char> {
    "+"@ + decimal_of(n) + " lines"@
}

/// The label of a chat scrolled `n` lines up from its end.
pub fn stick_lines(n: u16) -> (s: String)
    ensures
        s@ == stick_lines_text(n as nat),
{
    let mut s = String::new();
    push_text(&mut s, "+");
    push_decimal(&mut s, n as u64);
    push_text(&mut s, " lines");
    assert(s@ =~= stick_lines_text(n as nat));
    s
}

/// The stick label of the status bar: `Bottom` at the end of the chat, the
/// distance in lines anywhere else.
pub fn build_stick_label(scroll: u16) -> (s: String)
    ensures
        s@ == (if scroll == 0 {
            "Bottom"@
        } else {
            stick_lines_text(scroll as nat)
        }),
{
    if scroll == 0 {
        "Bottom".to_owned()
    } else {
        stick_lines(scroll)
    }
}

/// The lines of the help panel.
pub open spec fn help_text() -> Seq<Seq<char>> {
    seq![
        "Basic"@,
        "  Enter: Send    Shift+Enter: Newline    Esc/Ctrl-C: Quit"@,
        "Input Editing"@,
        "  Arrow: Move cursor    Backspace/Delete: Delete prev/next char"@,
        "  Home/End: Line start/end    Ctrl+A/E: Line start/end"@,
        "  Ctrl+Arrow: Word move    Ctrl+W: Delete prev word"@,
        "  Ctrl+U/K: Kill to line start/end"@,
        "Chat Scrolling"@,
        "  Mouse wheel: Scroll    PgUp/PgDn: Page    Shift+PgUp/PgDn: Fast page    Ctrl+Arrow: Fine scroll    Click indicator: Expand/collapse"@,
        "  Ctrl+Home/End: Top/bottom    Stick to bottom: Auto when at bottom"@,
        "Sessions & Others"@,
        "  F2: Show/hide sessions    Up/Down: Input history    Mouse click sidebar: Switch session"@,
        "  Sidebar focus: N new / R rename / D or Delete remove"@,
        "Search"@,
        "  Ctrl+F: Search    F3: Next match    Shift+F3: Prev match"@,
        "Help"@,
        "  ?: Open/close this panel    F1: Open/close this panel"@,
    ]
}

/// The views of a list of static texts.
pub open spec fn static_views(v: Seq<&'static str>) -> Seq<Seq<char>> {
    v.map_values(|s: &'static str| s@)
}

/// The lines of the help panel, headings unindented.
pub fn help_lines_ascii() -> (r: &'static [&'static str])
    ensures
        static_views(r@) == help_text(),
{
    let r: &'static [&'static str] = &[
        "Basic",
        "  Enter: Send    Shift+Enter: Newline    Esc/Ctrl-C: Quit",
        "Input Editing",
        "  Arrow: Move cursor    Backspace/Delete: Delete prev/next char",
        "  Home/End: Line start/end    Ctrl+A/E: Line start/end",
        "  Ctrl+Arrow: Word move    Ctrl+W: Delete prev word",
        "  Ctrl+U/K: Kill to line start/end",
        "Chat Scrolling",
        "  Mouse wheel: Scroll    PgUp/PgDn: Page    Shift+PgUp/PgDn: Fast page    Ctrl+Arrow: Fine scroll    Click indicator: Expand/collapse",
        "  Ctrl+Home/End: Top/bottom    Stick to bottom: Auto when at bottom",
        "Sessions & Others",
        "  F2: Show/hide sessions    Up/Down: Input history    Mouse click sidebar: Switch session",
        "  Sidebar focus: N new / R rename / D or Delete remove",
        "Search",
        "  Ctrl+F: Search    F3: Next match    Shift+F3: Prev match",
        "Help",
        "  ?: Open/close this panel    F1: Open/close this panel",
    ];
    assert(static_views(r@) =~= help_text());
    r
}

} // verus!
