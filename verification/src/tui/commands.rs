//! Submitting the input line: slash commands, the snapshot of the
//! conversation that is sent, and what the streamed answer does to the
//! chat.

use crate::llm;
use crate::text::{
    is_blank, is_space, is_space_char, push_text, same_text, string_of, to_chars, trim, trim_end_at,
    trim_start_at, trimmed,
};
use crate::tui::{App, Message, MessageView, Role};
use crate::tui::palette::{lowercased, to_lower};
use vstd::prelude::*;

verus! {

/// What a line that begins with a slash asks for.
pub enum SlashCommand {
    /// `/model` alone: open the model picker.
    PickModel,
    /// `/model NAME`: use that model.
    SetModel(String),
    /// `/wire NAME` with one of `responses`, `chat`, `auto`: use that wire.
    SetWire(String),
    /// Any other command: taken and passed over.
    Ignored,
}

/// What a `SlashCommand` holds.
pub ghost enum SlashView {
    PickModel,
    SetModel(Seq<char>),
    SetWire(Seq<char>),
    Ignored,
}

impl View for SlashCommand {
    type V = SlashView;

    open spec fn view(&self) -> SlashView {
        match self {
            SlashCommand::PickModel => SlashView::PickModel,
            SlashCommand::SetModel(m) => SlashView::SetModel(m@),
            SlashCommand::SetWire(w) => SlashView::SetWire(w@),
            SlashCommand::Ignored => SlashView::Ignored,
        }
    }
}

/// The view of an optional command.
pub open spec fn opt_slash_view(o: Option<SlashCommand>) -> Option<SlashView> {
    match o {
        Some(c) => Some(c@),
        None => None,
    }
}

/// Index of the first whitespace character of `s`, or its length.
pub open spec fn word_end(s: Seq<char>) -> int
    decreases s.len(),
{
    if s.len() == 0 || is_space(s[0]) {
        0
    } else {
        1 + word_end(s.drop_first())
    }
}

/// The command that a word and its argument stand for.
pub open spec fn command_of(word: Seq<char>, arg: Seq<char>) -> SlashView {
    if lowercased(word) == "model"@ {
        if arg.len() == 0 {
            SlashView::PickModel
        } else {
            SlashView::SetModel(arg)
        }
    } else if lowercased(word) == "wire"@ {
        let v = lowercased(arg);
        if v == "responses"@ || v == "chat"@ || v == "auto"@ {
            SlashView::SetWire(v)
        } else {
            SlashView::Ignored
        }
    } else {
        SlashView::Ignored
    }
}

/// The slash command of a line: none unless the line, trimmed, begins with
/// a slash. The command word runs up to the first whitespace and is read
/// without regard to case; what follows that whitespace, trimmed, is the
/// argument.
pub open spec fn slash_command_of(text: Seq<char>) -> Option<SlashView> {
    let s = trim(text);
    if s.len() == 0 || s[0] != '/' {
        None
    } else {
        let rest = s.subrange(1, s.len() as int);
        let e = word_end(rest);
        let word = rest.subrange(0, e);
        let arg = if e < rest.len() {
            trim(rest.subrange(e + 1, rest.len() as int))
        } else {
            Seq::empty()
        };
        Some(command_of(word, arg))
    }
}

proof fn lemma_word_end_is(s: Seq<char>, e: int)
    requires
        0 <= e <= s.len(),
        e < s.len() ==> is_space(s[e]),
        forall|j: int| 0 <= j < e ==> !is_space(s[j]),
    ensures
        word_end(s) == e,
    decreases s.len(),
{
    if s.len() == 0 || is_space(s[0]) {
    } else {
        let t = s.drop_first();
        assert forall|j: int| 0 <= j < e - 1 implies !is_space(t[j]) by {
            assert(t[j] == s[j + 1]);
        }
        lemma_word_end_is(t, e - 1);
    }
}

/// Reads the slash command of a line.
pub fn parse_slash_command(text: &str) -> (r: Option<SlashCommand>)
    ensures
        opt_slash_view(r) == slash_command_of(text@),
{
    let chars = to_chars(text);
    let from = trim_start_at(&chars, 0, chars.len());
    let to = trim_end_at(&chars, from, chars.len());
    assert(chars@.subrange(0, chars@.len() as int) =~= chars@);
    let ghost s = chars@.subrange(from as int, to as int);
    if from == to || chars[from] != '/' {
        assert(from < to ==> s[0] == chars@[from as int]);
        return None;
    }
    assert(s[0] == chars@[from as int]);
    let start = from + 1;
    let ghost rest = s.subrange(1, s.len() as int);
    assert(rest =~= chars@.subrange(start as int, to as int));
    let mut e: usize = start;
    while e < to && !is_space_char(chars[e])
        invariant
            start <= e <= to <= chars@.len(),
            forall|j: int| start <= j < e ==> !is_space(chars@[j]),
        decreases to - e,
    {
        e = e + 1;
    }
    proof {
        lemma_word_end_is(rest, e - start);
    }
    let word = string_of(&chars, start, e);
    assert(word@ =~= rest.subrange(0, e - start));
    let arg = if e < to {
        let a = trim_start_at(&chars, e + 1, to);
        let b = trim_end_at(&chars, a, to);
        assert(rest.subrange(e - start + 1, rest.len() as int) =~= chars@.subrange(
            e + 1,
            to as int,
        ));
        string_of(&chars, a, b)
    } else {
        String::new()
    };
    let cmd = to_lower(word.as_str());
    if same_text(cmd.as_str(), "model") {
        if arg.as_str().unicode_len() == 0 {
            Some(SlashCommand::PickModel)
        } else {
            Some(SlashCommand::SetModel(arg))
        }
    } else if same_text(cmd.as_str(), "wire") {
        let v = to_lower(arg.as_str());
        if same_text(v.as_str(), "responses") || same_text(v.as_str(), "chat") || same_text(
            v.as_str(),
            "auto",
        ) {
            Some(SlashCommand::SetWire(v))
        } else {
            Some(SlashCommand::Ignored)
        }
    } else {
        Some(SlashCommand::Ignored)
    }
}

/// The note that tells the user of a new setting.
pub open spec fn info_text(what: Seq<char>, value: Seq<char>) -> Seq<char> {
    "[info] "@ + what + " set to '"@ + value + "'"@
}

/// Writes the note that tells the user of a new setting.
pub fn info_message(what: &str, value: &str) -> (m: Message)
    ensures
        m@ == (MessageView { role: Role::Assistant, content: info_text(what@, value@) }),
{
    let mut s = String::new();
    push_text(&mut s, "[info] ");
    push_text(&mut s, what);
    push_text(&mut s, " set to '");
    push_text(&mut s, value);
    push_text(&mut s, "'");
    assert(s@ =~= info_text(what@, value@));
    Message { role: Role::Assistant, content: s }
}

/// `post` is `pre` with one message appended.
pub open spec fn appended(pre: Seq<Message>, post: Seq<Message>, m: MessageView) -> bool {
    post.len() == pre.len() + 1 && post.drop_last() == pre && post.last()@ == m
}

/// Index of the first message of the user among the first `n`, or `n`.
pub open spec fn first_user(msgs: Seq<Message>, n: int) -> int
    decreases n,
{
    if n <= 0 {
        0
    } else {
        let before = first_user(msgs, n - 1);
        if before < n - 1 {
            before
        } else if msgs[n - 1].role == Role::User {
            n - 1
        } else {
            n
        }
    }
}

/// Where the snapshot begins: at the first message of the user, or at the
/// first message where the user has written none.
pub open spec fn snapshot_start(msgs: Seq<Message>) -> int {
    if first_user(msgs, msgs.len() as int) < msgs.len() {
        first_user(msgs, msgs.len() as int)
    } else {
        0
    }
}

/// An assistant message without content: the placeholder of an answer.
pub open spec fn is_empty_answer(m: Message) -> bool {
    m.role == Role::Assistant && trim(m.content@).len() == 0
}

/// The form in which a chat-pane message is sent.
pub open spec fn sent_form(m: Message) -> llm::MessageView {
    llm::MessageView {
        role: match m.role {
            Role::User => llm::Role::User,
            Role::Assistant => llm::Role::Assistant,
        },
        content: m.content@,
    }
}

/// The messages `msgs[from..to]` as they are sent: all but the empty
/// answers, in order.
pub open spec fn sent_range(msgs: Seq<Message>, from: int, to: int) -> Seq<llm::MessageView>
    decreases to - from,
{
    if to <= from {
        Seq::empty()
    } else if is_empty_answer(msgs[to - 1]) {
        sent_range(msgs, from, to - 1)
    } else {
        sent_range(msgs, from, to - 1).push(sent_form(msgs[to - 1]))
    }
}

/// The conversation that is sent for the chat as it stands: from the first
/// message of the user on, without the empty answers.
pub open spec fn snapshot_of(msgs: Seq<Message>) -> Seq<llm::MessageView> {
    sent_range(msgs, snapshot_start(msgs), msgs.len() as int)
}

/// Takes the snapshot of the chat that is sent to the provider.
pub fn snapshot(msgs: &Vec<Message>) -> (out: Vec<llm::Message>)
    ensures
        llm::message_views(out@) == snapshot_of(msgs@),
{
    let n = msgs.len();
    let mut first: usize = 0;
    while first < n && !matches!(msgs[first].role, Role::User)
        invariant
            first <= n == msgs@.len(),
            first_user(msgs@, first as int) == first,
        decreases n - first,
    {
        first = first + 1;
    }
    proof {
        lemma_first_user_stays(msgs@, first as int, n as int);
    }
    let start = if first < n {
        first
    } else {
        0
    };
    let mut out: Vec<llm::Message> = Vec::new();
    let mut i: usize = start;
    assert(llm::message_views(out@) =~= sent_range(msgs@, start as int, start as int));
    while i < n
        invariant
            start <= i <= n == msgs@.len(),
            llm::message_views(out@) == sent_range(msgs@, start as int, i as int),
        decreases n - i,
    {
        let ghost before = out@;
        let m = &msgs[i];
        let skip = match m.role {
            Role::Assistant => is_blank(m.content.as_str()),
            Role::User => false,
        };
        if !skip {
            let role = match m.role {
                Role::User => llm::Role::User,
                Role::Assistant => llm::Role::Assistant,
            };
            out.push(llm::Message { role, content: m.content.clone() });
            assert(llm::message_views(out@) =~= llm::message_views(before).push(sent_form(*m)));
        }
        i = i + 1;
    }
    out
}

/// Once a message of the user is found among the first `k`, it is the
/// first among any more.
pub proof fn lemma_first_user_stays(msgs: Seq<Message>, k: int, n: int)
    requires
        0 <= k <= n <= msgs.len(),
        first_user(msgs, k) == k,
        k < n ==> msgs[k].role == Role::User,
    ensures
        first_user(msgs, n) == k,
    decreases n - k,
{
    if k < n {
        if n - 1 > k {
            lemma_first_user_stays(msgs, k, n - 1);
        }
    }
}

/// What submitting the input line led to.
pub enum Submitted {
    /// The line was blank: nothing happened.
    Nothing,
    /// The line was a slash command; `save` says whether a setting
    /// changed that is to be saved.
    Command { save: bool },
    /// The line was added to the chat: the conversation to send.
    Send(Vec<llm::Message>),
}

/// `post` is `pre` with its last message longer by `more`.
pub open spec fn last_grown(pre: Seq<Message>, post: Seq<Message>, more: Seq<char>) -> bool {
    if pre.len() == 0 {
        post == pre
    } else {
        &&& post.len() == pre.len()
        &&& post.drop_last() == pre.drop_last()
        &&& post.last().role == pre.last().role
        &&& post.last().content@ == pre.last().content@ + more
    }
}

/// Appends `more` to the content of the last message, if there is one.
pub fn grow_last(msgs: &mut Vec<Message>, more: &str)
    ensures
        last_grown(old(msgs)@, final(msgs)@, more@),
{
    let ghost pre = msgs@;
    match msgs.pop() {
        None => {
            assert(msgs@ =~= pre);
        },
        Some(m) => {
            let Message { role, content } = m;
            let mut content = content;
            push_text(&mut content, more);
            msgs.push(Message { role, content });
            assert(msgs@.drop_last() =~= pre.drop_last());
        },
    }
}

impl App {
    /// `post` is `pre` after the slash command `cmd`; `save` says whether
    /// a setting changed that is to be saved. `/model` alone opens the
    /// model picker. A new model or wire is taken as the setting and noted
    /// in the chat. Any other command changes nothing.
    pub open spec fn slash_applied(pre: App, post: App, cmd: SlashView, save: bool) -> bool {
        match cmd {
            SlashView::PickModel => {
                &&& !save
                &&& post == (App { model_picker: post.model_picker, dirty: true, ..pre })
                &&& post.model_picker is Some
                &&& post.model_picker.unwrap()@ == (crate::tui::PickerView {
                    buffer: Seq::empty(),
                    cursor: 0,
                    filtered: crate::tui::palette::offered_models(pre.model_label@),
                    selected: 0,
                })
            },
            SlashView::SetModel(name) => {
                &&& save
                &&& post == (App {
                    model_label: post.model_label,
                    messages: post.messages,
                    collapsed: post.collapsed,
                    ..pre
                })
                &&& post.model_label@ == name
                &&& appended(
                    pre.messages@,
                    post.messages@,
                    MessageView { role: Role::Assistant, content: info_text("model"@, name) },
                )
                &&& post.collapsed@ == pre.collapsed@.push(false)
            },
            SlashView::SetWire(name) => {
                &&& save
                &&& post == (App {
                    wire_label: post.wire_label,
                    messages: post.messages,
                    collapsed: post.collapsed,
                    ..pre
                })
                &&& post.wire_label@ == name
                &&& appended(
                    pre.messages@,
                    post.messages@,
                    MessageView { role: Role::Assistant, content: info_text("wire"@, name) },
                )
                &&& post.collapsed@ == pre.collapsed@.push(false)
            },
            SlashView::Ignored => !save && post == pre,
        }
    }

    /// Carries out a slash command.
    pub fn apply_slash_command(&mut self, cmd: SlashCommand) -> (save: bool)
        ensures
            Self::slash_applied(*old(self), *final(self), cmd@, save),
    {
        match cmd {
            SlashCommand::PickModel => {
                self.open_model_picker();
                self.dirty = true;
                false
            },
            SlashCommand::SetModel(name) => {
                let note = info_message("model", name.as_str());
                self.model_label = name;
                let ghost before = self.messages@;
                self.messages.push(note);
                assert(self.messages@.drop_last() =~= before);
                self.collapsed.push(false);
                true
            },
            SlashCommand::SetWire(name) => {
                let note = info_message("wire", name.as_str());
                self.wire_label = name;
                let ghost before = self.messages@;
                self.messages.push(note);
                assert(self.messages@.drop_last() =~= before);
                self.collapsed.push(false);
                true
            },
            SlashCommand::Ignored => false,
        }
    }

    /// Adds streamed text to the answer at the end of the chat, which then
    /// sticks to its end.
    pub fn append_stream_text(&mut self, text: &str)
        ensures
            *final(self) == (App {
                messages: final(self).messages,
                dirty: true,
                stick_to_bottom: true,
                ..*old(self)
            }),
            last_grown(old(self).messages@, final(self).messages@, text@),
    {
        grow_last(&mut self.messages, text);
        self.dirty = true;
        self.stick_to_bottom = true;
    }

    /// Notes a failure of the stream below the answer at the end of the
    /// chat, and ends the streaming.
    pub fn append_stream_error(&mut self, detail: &str)
        ensures
            *final(self) == (App {
                messages: final(self).messages,
                streaming: false,
                ..*old(self)
            }),
            last_grown(old(self).messages@, final(self).messages@, "\n[error] "@ + detail@),
    {
        let mut note = String::new();
        push_text(&mut note, "\n[error] ");
        push_text(&mut note, detail);
        grow_last(&mut self.messages, note.as_str());
        self.streaming = false;
    }

    /// Ends the streaming.
    pub fn end_stream(&mut self)
        ensures
            *final(self) == (App { streaming: false, ..*old(self) }),
    {
        self.streaming = false;
    }

    /// Submits the input line. A blank line does nothing. A slash command
    /// is carried out and the line emptied. Any other line is recorded in
    /// the history and added to the chat, followed by an empty answer to
    /// be filled by the stream; the chat then sticks to its end, and the
    /// conversation to send is returned.
    pub fn submit(&mut self) -> (r: Submitted)
        ensures
            trim(old(self).input@).len() == 0 ==> r is Nothing && *final(self) == *old(self),
            trim(old(self).input@).len() > 0 && slash_command_of(trim(old(self).input@)) is Some
                ==> {
                let cmd = slash_command_of(trim(old(self).input@)).unwrap();
                &&& r matches Submitted::Command { save }
                &&& Self::slash_applied(
                    *old(self),
                    App {
                        input: old(self).input,
                        input_cursor: old(self).input_cursor,
                        dirty: cmd is PickModel || old(self).dirty,
                        ..*final(self)
                    },
                    cmd,
                    save,
                )
                &&& final(self).input@.len() == 0
                &&& final(self).input_cursor == 0
                &&& final(self).dirty
            },
            trim(old(self).input@).len() > 0 && slash_command_of(trim(old(self).input@)) is None
                ==> {
                let text = trim(old(self).input@);
                &&& r matches Submitted::Send(sent)
                &&& llm::message_views(sent@) == snapshot_of(final(self).messages@)
                &&& *final(self) == (App {
                    input: final(self).input,
                    input_cursor: 0,
                    history: final(self).history,
                    history_index: None,
                    messages: final(self).messages,
                    collapsed: final(self).collapsed,
                    stick_to_bottom: true,
                    chat_scroll: 0,
                    dirty: true,
                    streaming: true,
                    ..*old(self)
                })
                &&& final(self).input@.len() == 0
                &&& final(self).messages@.len() == old(self).messages@.len() + 2
                &&& final(self).messages@.subrange(0, old(self).messages@.len() as int) == old(
                    self,
                ).messages@
                &&& final(self).messages@[old(self).messages@.len() as int]@ == (MessageView {
                    role: Role::User,
                    content: text,
                })
                &&& final(self).messages@.last()@ == (MessageView {
                    role: Role::Assistant,
                    content: Seq::empty(),
                })
                &&& final(self).collapsed@ == old(self).collapsed@.push(false).push(false)
                &&& crate::clusters::text_views(final(self).history@) == (if old(self).history@.len()
                    > 0 && old(self).history@.last()@ == text {
                    crate::clusters::text_views(old(self).history@)
                } else {
                    crate::clusters::text_views(old(self).history@).push(text)
                })
            },
    {
        let text = trimmed(self.input.as_str());
        if text.as_str().unicode_len() == 0 {
            return Submitted::Nothing;
        }
        if let Some(cmd) = parse_slash_command(text.as_str()) {
            let save = self.apply_slash_command(cmd);
            self.input = String::new();
            self.input_cursor = 0;
            self.dirty = true;
            return Submitted::Command { save };
        }
        self.record_history_entry(text.as_str());
        let ghost before = self.messages@;
        self.messages.push(Message { role: Role::User, content: text });
        self.collapsed.push(false);
        self.messages.push(Message { role: Role::Assistant, content: String::new() });
        self.collapsed.push(false);
        assert(self.messages@.subrange(0, before.len() as int) =~= before);
        let sent = snapshot(&self.messages);
        self.input = String::new();
        self.input_cursor = 0;
        self.stick_to_bottom = true;
        self.chat_scroll = 0;
        self.dirty = true;
        self.streaming = true;
        Submitted::Send(sent)
    }
}

} // verus!
