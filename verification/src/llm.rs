//! Provider-agnostic request data and the vocabulary of streamed progress.

use vstd::prelude::*;
use vstd::string::StringExecFns;

verus! {

/// Who wrote a message.
#[derive(Clone, Copy, Debug, PartialEq, Eq, Structural)]
pub enum Role {
    User,
    Assistant,
    System,
}

/// One turn of a conversation.
#[derive(Clone, Debug)]
pub struct Message {
    pub role: Role,
    pub content: String,
}

/// Which request/response shape is asked for. `Auto` is an intent only.
#[derive(Clone, Copy, Debug, PartialEq, Eq, Structural)]
pub enum ChatWire {
    Chat,
    Responses,
    Auto,
}

/// One unit of streamed progress.
#[derive(Clone, Debug)]
pub enum ChatDelta {
    RoleStart(Role),
    Text(String),
    Finish(Option<String>),
    Usage { prompt_tokens: Option<u32>, completion_tokens: Option<u32> },
}

/// The answer of a non-streaming exchange.
#[derive(Clone, Debug)]
pub struct ChatResult {
    pub text: String,
    pub finish_reason: Option<String>,
    pub prompt_tokens: Option<u32>,
    pub completion_tokens: Option<u32>,
}

/// The closed set of failure categories reported outward.
#[derive(Clone, Debug)]
pub enum ChatError {
    Auth(String),
    RateLimit(String),
    Timeout(String),
    Network(String),
    Decode(String),
    Protocol(String),
    Canceled,
    Other(String),
}

/// The characters of an optional string.
pub open spec fn opt_text(o: Option<String>) -> Option<Seq<char>> {
    match o {
        Some(s) => Some(s@),
        None => None,
    }
}

/// What a `Message` holds.
pub ghost struct MessageView {
    pub role: Role,
    pub content: Seq<char>,
}

impl View for Message {
    type V = MessageView;

    open spec fn view(&self) -> MessageView {
        MessageView { role: self.role, content: self.content@ }
    }
}

/// The views of a list of messages.
pub open spec fn message_views(msgs: Seq<Message>) -> Seq<MessageView> {
    msgs.map_values(|m: Message| m@)
}

/// What a `ChatDelta` holds.
pub ghost enum DeltaView {
    RoleStart(Role),
    Text(Seq<char>),
    Finish(Option<Seq<char>>),
    Usage { prompt_tokens: Option<u32>, completion_tokens: Option<u32> },
}

impl View for ChatDelta {
    type V = DeltaView;

    open spec fn view(&self) -> DeltaView {
        match self {
            ChatDelta::RoleStart(r) => DeltaView::RoleStart(*r),
            ChatDelta::Text(t) => DeltaView::Text(t@),
            ChatDelta::Finish(f) => DeltaView::Finish(opt_text(*f)),
            ChatDelta::Usage { prompt_tokens, completion_tokens } => DeltaView::Usage {
                prompt_tokens: *prompt_tokens,
                completion_tokens: *completion_tokens,
            },
        }
    }
}

/// The views of a list of deltas.
pub open spec fn delta_views(ds: Seq<ChatDelta>) -> Seq<DeltaView> {
    ds.map_values(|d: ChatDelta| d@)
}

/// What a `ChatResult` holds.
pub ghost struct ResultView {
    pub text: Seq<char>,
    pub finish_reason: Option<Seq<char>>,
    pub prompt_tokens: Option<u32>,
    pub completion_tokens: Option<u32>,
}

impl View for ChatResult {
    type V = ResultView;

    open spec fn view(&self) -> ResultView {
        ResultView {
            text: self.text@,
            finish_reason: opt_text(self.finish_reason),
            prompt_tokens: self.prompt_tokens,
            completion_tokens: self.completion_tokens,
        }
    }
}

/// What a `ChatError` holds: its category and its detail.
pub ghost enum ErrorView {
    Auth(Seq<char>),
    RateLimit(Seq<char>),
    Timeout(Seq<char>),
    Network(Seq<char>),
    Decode(Seq<char>),
    Protocol(Seq<char>),
    Canceled,
    Other(Seq<char>),
}

impl View for ChatError {
    type V = ErrorView;

    open spec fn view(&self) -> ErrorView {
        match self {
            ChatError::Auth(d) => ErrorView::Auth(d@),
            ChatError::RateLimit(d) => ErrorView::RateLimit(d@),
            ChatError::Timeout(d) => ErrorView::Timeout(d@),
            ChatError::Network(d) => ErrorView::Network(d@),
            ChatError::Decode(d) => ErrorView::Decode(d@),
            ChatError::Protocol(d) => ErrorView::Protocol(d@),
            ChatError::Canceled => ErrorView::Canceled,
            ChatError::Other(d) => ErrorView::Other(d@),
        }
    }
}

impl ErrorView {
    /// The human-readable detail; empty for `Canceled`.
    pub open spec fn detail(self) -> Seq<char> {
        match self {
            ErrorView::Auth(d) => d,
            ErrorView::RateLimit(d) => d,
            ErrorView::Timeout(d) => d,
            ErrorView::Network(d) => d,
            ErrorView::Decode(d) => d,
            ErrorView::Protocol(d) => d,
            ErrorView::Canceled => Seq::empty(),
            ErrorView::Other(d) => d,
        }
    }

    /// What stands before the detail in the rendered message.
    pub open spec fn label(self) -> Seq<char> {
        match self {
            ErrorView::Auth(_) => "auth error: "@,
            ErrorView::RateLimit(_) => "rate limit: "@,
            ErrorView::Timeout(_) => "timeout: "@,
            ErrorView::Network(_) => "network: "@,
            ErrorView::Decode(_) => "decode: "@,
            ErrorView::Protocol(_) => "protocol: "@,
            ErrorView::Canceled => "canceled"@,
            ErrorView::Other(_) => "other: "@,
        }
    }

    /// The rendered message: label, then detail.
    pub open spec fn rendered(self) -> Seq<char> {
        self.label() + self.detail()
    }
}

impl ChatError {
    /// The message shown for this error: its category label followed by
    /// its detail.
    pub fn message(&self) -> (s: String)
        ensures
            s@ == self@.rendered(),
    {
        match self {
            ChatError::Auth(d) => "auth error: ".to_owned().concat(d.as_str()),
            ChatError::RateLimit(d) => "rate limit: ".to_owned().concat(d.as_str()),
            ChatError::Timeout(d) => "timeout: ".to_owned().concat(d.as_str()),
            ChatError::Network(d) => "network: ".to_owned().concat(d.as_str()),
            ChatError::Decode(d) => "decode: ".to_owned().concat(d.as_str()),
            ChatError::Protocol(d) => "protocol: ".to_owned().concat(d.as_str()),
            ChatError::Canceled => {
                let s = "canceled".to_owned();
                assert(s@ + Seq::<char>::empty() =~= s@);
                s
            },
            ChatError::Other(d) => "other: ".to_owned().concat(d.as_str()),
        }
    }
}

} // verus!
