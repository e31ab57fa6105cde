//! Mapping the message model onto the two wires: request shapes, endpoints,
//! wire selection and fallback, and the classification of failures.

use crate::llm::{ChatError, ChatWire, ErrorView, Message, message_views, MessageView, Role};
use crate::text::{
    contains, contains_text, decimal_of, is_blank, push_decimal, push_text, same_text, string_of,
    to_chars, trim, trim_end_at, trim_start_at, trimmed,
};
use vstd::prelude::*;

verus! {

/// The options of a request. They are passed on to the wire bodies as
/// they are; none is validated. The two fractional knobs are held as the
/// bits of their single-precision form.
#[derive(Clone, Debug)]
pub struct ChatOpts {
    pub model: String,
    /// The bits of the temperature.
    pub temperature: Option<u32>,
    /// The bits of the nucleus size.
    pub top_p: Option<u32>,
    pub max_tokens: Option<u32>,
}

/// What a `ChatOpts` holds.
pub ghost struct OptsView {
    pub model: Seq<char>,
    pub temperature: Option<u32>,
    pub top_p: Option<u32>,
    pub max_tokens: Option<u32>,
}

impl View for ChatOpts {
    type V = OptsView;

    open spec fn view(&self) -> OptsView {
        OptsView {
            model: self.model@,
            temperature: self.temperature,
            top_p: self.top_p,
            max_tokens: self.max_tokens,
        }
    }
}

/// A model name and the effort hint that its preset suffix stands for.
pub ghost struct ModelView {
    pub name: Seq<char>,
    pub verbosity: Option<Seq<char>>,
}

/// The base model and the effort hint of a model name. The presets
/// `gpt-5-high`, `gpt-5-medium`, `gpt-5-low` and `gpt-5-minimal` stand for
/// `gpt-5` with that hint; any other name, trimmed, stands for itself.
pub open spec fn normalized_model(model: Seq<char>) -> ModelView {
    let m = trim(model);
    if m == "gpt-5-high"@ {
        ModelView { name: "gpt-5"@, verbosity: Some("high"@) }
    } else if m == "gpt-5-medium"@ {
        ModelView { name: "gpt-5"@, verbosity: Some("medium"@) }
    } else if m == "gpt-5-low"@ {
        ModelView { name: "gpt-5"@, verbosity: Some("low"@) }
    } else if m == "gpt-5-minimal"@ {
        ModelView { name: "gpt-5"@, verbosity: Some("minimal"@) }
    } else {
        ModelView { name: m, verbosity: None }
    }
}

/// The view of a normalized model.
pub open spec fn model_view(r: (String, Option<&'static str>)) -> ModelView {
    ModelView {
        name: r.0@,
        verbosity: match r.1 {
            Some(v) => Some(v@),
            None => None,
        },
    }
}

/// Splits a model name into the base model and the effort hint that a
/// preset suffix stands for.
pub fn normalize_gpt5(model: &str) -> (r: (String, Option<&'static str>))
    ensures
        model_view(r) == normalized_model(model@),
{
    let m = trimmed(model);
    if same_text(m.as_str(), "gpt-5-high") {
        ("gpt-5".to_owned(), Some("high"))
    } else if same_text(m.as_str(), "gpt-5-medium") {
        ("gpt-5".to_owned(), Some("medium"))
    } else if same_text(m.as_str(), "gpt-5-low") {
        ("gpt-5".to_owned(), Some("low"))
    } else if same_text(m.as_str(), "gpt-5-minimal") {
        ("gpt-5".to_owned(), Some("minimal"))
    } else {
        (m, None)
    }
}

/// The name of a role on either wire.
pub open spec fn role_name_of(role: Role) -> Seq<char> {
    match role {
        Role::User => "user"@,
        Role::Assistant => "assistant"@,
        Role::System => "system"@,
    }
}

/// The name of a role on either wire.
pub fn role_name(role: Role) -> (name: &'static str)
    ensures
        name@ == role_name_of(role),
{
    match role {
        Role::User => "user",
        Role::Assistant => "assistant",
        Role::System => "system",
    }
}

/// One message as the Chat-Completions body carries it.
#[derive(Clone, Debug)]
pub struct WireMessage {
    pub role: String,
    pub content: String,
}

/// What a `WireMessage` holds.
pub ghost struct WireMessageView {
    pub role: Seq<char>,
    pub content: Seq<char>,
}

impl View for WireMessage {
    type V = WireMessageView;

    open spec fn view(&self) -> WireMessageView {
        WireMessageView { role: self.role@, content: self.content@ }
    }
}

/// The views of a list of wire messages.
pub open spec fn wire_message_views(ms: Seq<WireMessage>) -> Seq<WireMessageView> {
    ms.map_values(|m: WireMessage| m@)
}

/// The Chat-Completions form of a message.
pub open spec fn wire_message_of(m: MessageView) -> WireMessageView {
    WireMessageView { role: role_name_of(m.role), content: m.content }
}

/// The Chat-Completions form of a conversation: every message, in order,
/// with its role by name.
pub open spec fn mapped_messages(msgs: Seq<MessageView>) -> Seq<WireMessageView> {
    msgs.map_values(|m: MessageView| wire_message_of(m))
}

/// Maps a conversation onto the `messages` of a Chat-Completions body.
pub fn map_messages(msgs: &[Message]) -> (out: Vec<WireMessage>)
    ensures
        wire_message_views(out@) == mapped_messages(message_views(msgs@)),
{
    let mut out: Vec<WireMessage> = Vec::new();
    let mut i: usize = 0;
    while i < msgs.len()
        invariant
            i <= msgs@.len(),
            out@.len() == i,
            forall|k: int|
                0 <= k < i ==> (#[trigger] out@[k])@ == wire_message_of(msgs@[k]@),
        decreases msgs@.len() - i,
    {
        let m = &msgs[i];
        out.push(WireMessage { role: role_name(m.role).to_owned(), content: m.content.clone() });
        i = i + 1;
    }
    assert(wire_message_views(out@) =~= mapped_messages(message_views(msgs@)));
    out
}

/// One item of the `input` of a Responses body: a role and one content
/// part of the given type.
#[derive(Clone, Debug)]
pub struct ResponsesItem {
    pub role: String,
    pub content_type: String,
    pub text: String,
}

/// What a `ResponsesItem` holds.
pub ghost struct ResponsesItemView {
    pub role: Seq<char>,
    pub content_type: Seq<char>,
    pub text: Seq<char>,
}

impl View for ResponsesItem {
    type V = ResponsesItemView;

    open spec fn view(&self) -> ResponsesItemView {
        ResponsesItemView { role: self.role@, content_type: self.content_type@, text: self.text@ }
    }
}

/// The views of a list of input items.
pub open spec fn item_views(items: Seq<ResponsesItem>) -> Seq<ResponsesItemView> {
    items.map_values(|m: ResponsesItem| m@)
}

/// An assistant turn without content: the placeholder of an answer that is
/// still to come.
pub open spec fn is_placeholder(m: MessageView) -> bool {
    m.role == Role::Assistant && trim(m.content).len() == 0
}

/// The content type of a turn on the Responses wire: what the model said
/// before is output, all else is input.
pub open spec fn content_type_of(role: Role) -> Seq<char> {
    match role {
        Role::Assistant => "output_text"@,
        _ => "input_text"@,
    }
}

/// The Responses form of a message.
pub open spec fn item_of(m: MessageView) -> ResponsesItemView {
    ResponsesItemView {
        role: role_name_of(m.role),
        content_type: content_type_of(m.role),
        text: m.content,
    }
}

/// The Responses form of a conversation: every message but the
/// placeholders, in order.
pub open spec fn mapped_input(msgs: Seq<MessageView>) -> Seq<ResponsesItemView>
    decreases msgs.len(),
{
    if msgs.len() == 0 {
        Seq::empty()
    } else if is_placeholder(msgs.last()) {
        mapped_input(msgs.drop_last())
    } else {
        mapped_input(msgs.drop_last()).push(item_of(msgs.last()))
    }
}

/// Maps a conversation onto the `input` of a Responses body, leaving out
/// the empty assistant placeholders.
pub fn map_input(msgs: &[Message]) -> (out: Vec<ResponsesItem>)
    ensures
        item_views(out@) == mapped_input(message_views(msgs@)),
{
    let mut out: Vec<ResponsesItem> = Vec::new();
    let mut i: usize = 0;
    assert(message_views(msgs@).subrange(0, 0) =~= Seq::<MessageView>::empty());
    assert(item_views(out@) =~= Seq::<ResponsesItemView>::empty());
    while i < msgs.len()
        invariant
            i <= msgs@.len(),
            item_views(out@) == mapped_input(message_views(msgs@).subrange(0, i as int)),
        decreases msgs@.len() - i,
    {
        let ghost sofar = message_views(msgs@).subrange(0, i as int);
        let ghost next = message_views(msgs@).subrange(0, i + 1);
        let ghost before = out@;
        let m = &msgs[i];
        proof {
            assert(next.drop_last() =~= sofar);
            assert(next.last() == m@);
        }
        let placeholder = match m.role {
            Role::Assistant => is_blank(m.content.as_str()),
            _ => false,
        };
        if !placeholder {
            let content_type = match m.role {
                Role::Assistant => "output_text",
                _ => "input_text",
            };
            let item = ResponsesItem {
                role: role_name(m.role).to_owned(),
                content_type: content_type.to_owned(),
                text: m.content.clone(),
            };
            out.push(item);
            assert(item_views(out@) =~= item_views(before).push(item_of(m@)));
        }
        i = i + 1;
    }
    assert(message_views(msgs@).subrange(0, msgs@.len() as int) =~= message_views(msgs@));
    out
}

/// The body of a Chat-Completions request.
#[derive(Clone, Debug)]
pub struct ChatBody {
    pub model: String,
    pub messages: Vec<WireMessage>,
    pub stream: bool,
    /// The bits of the temperature.
    pub temperature: Option<u32>,
    /// The bits of the nucleus size.
    pub top_p: Option<u32>,
    pub max_tokens: Option<u32>,
}

/// What a `ChatBody` holds.
pub ghost struct ChatBodyView {
    pub model: Seq<char>,
    pub messages: Seq<WireMessageView>,
    pub stream: bool,
    pub temperature: Option<u32>,
    pub top_p: Option<u32>,
    pub max_tokens: Option<u32>,
}

impl View for ChatBody {
    type V = ChatBodyView;

    open spec fn view(&self) -> ChatBodyView {
        ChatBodyView {
            model: self.model@,
            messages: wire_message_views(self.messages@),
            stream: self.stream,
            temperature: self.temperature,
            top_p: self.top_p,
            max_tokens: self.max_tokens,
        }
    }
}

/// The body of a Responses request.
#[derive(Clone, Debug)]
pub struct ResponsesBody {
    pub model: String,
    pub input: Vec<ResponsesItem>,
    pub stream: bool,
    pub verbosity: Option<String>,
}

/// What a `ResponsesBody` holds.
pub ghost struct ResponsesBodyView {
    pub model: Seq<char>,
    pub input: Seq<ResponsesItemView>,
    pub stream: bool,
    pub verbosity: Option<Seq<char>>,
}

impl View for ResponsesBody {
    type V = ResponsesBodyView;

    open spec fn view(&self) -> ResponsesBodyView {
        ResponsesBodyView {
            model: self.model@,
            input: item_views(self.input@),
            stream: self.stream,
            verbosity: crate::llm::opt_text(self.verbosity),
        }
    }
}

/// The body of the non-streaming exchange: the model as it was named,
/// every message, and the sampling options.
pub fn send_body(msgs: &[Message], opts: &ChatOpts) -> (body: ChatBody)
    ensures
        body@ == (ChatBodyView {
            model: opts.model@,
            messages: mapped_messages(message_views(msgs@)),
            stream: false,
            temperature: opts.temperature,
            top_p: opts.top_p,
            max_tokens: opts.max_tokens,
        }),
{
    ChatBody {
        model: opts.model.clone(),
        messages: map_messages(msgs),
        stream: false,
        temperature: opts.temperature,
        top_p: opts.top_p,
        max_tokens: opts.max_tokens,
    }
}

/// The body of a streamed Chat-Completions request: the base model, without
/// the effort hint, every message, and the sampling options.
pub fn chat_stream_body(msgs: &[Message], opts: &ChatOpts) -> (body: ChatBody)
    ensures
        body@ == (ChatBodyView {
            model: normalized_model(opts.model@).name,
            messages: mapped_messages(message_views(msgs@)),
            stream: true,
            temperature: opts.temperature,
            top_p: opts.top_p,
            max_tokens: opts.max_tokens,
        }),
{
    let (model, _verbosity) = normalize_gpt5(opts.model.as_str());
    ChatBody {
        model,
        messages: map_messages(msgs),
        stream: true,
        temperature: opts.temperature,
        top_p: opts.top_p,
        max_tokens: opts.max_tokens,
    }
}

/// The body of a streamed Responses request: the base model, the
/// conversation without placeholders, and the effort hint where the model
/// name carried one.
pub fn responses_stream_body(msgs: &[Message], opts: &ChatOpts) -> (body: ResponsesBody)
    ensures
        body@ == (ResponsesBodyView {
            model: normalized_model(opts.model@).name,
            input: mapped_input(message_views(msgs@)),
            stream: true,
            verbosity: normalized_model(opts.model@).verbosity,
        }),
{
    let (model, verbosity) = normalize_gpt5(opts.model.as_str());
    let verbosity = match verbosity {
        Some(v) => Some(v.to_owned()),
        None => None,
    };
    ResponsesBody { model, input: map_input(msgs), stream: true, verbosity }
}

/// `s` without the slashes at its end.
pub open spec fn without_trailing_slashes(s: Seq<char>) -> Seq<char>
    decreases s.len(),
{
    if s.len() > 0 && s.last() == '/' {
        without_trailing_slashes(s.drop_last())
    } else {
        s
    }
}

/// The path of a wire below the base URL. `Auto` has the path of the wire
/// it resolves to.
pub open spec fn wire_path(wire: ChatWire) -> Seq<char> {
    match wire {
        ChatWire::Chat => "/chat/completions"@,
        _ => "/responses"@,
    }
}

/// The URL of a wire: the base URL without trailing slashes, then the
/// wire's path.
pub fn endpoint_url(base_url: &str, wire: ChatWire) -> (url: String)
    ensures
        url@ == without_trailing_slashes(base_url@) + wire_path(wire),
{
    let chars = to_chars(base_url);
    let mut end: usize = chars.len();
    assert(chars@.subrange(0, end as int) =~= chars@);
    while end > 0 && chars[end - 1] == '/'
        invariant
            end <= chars@.len(),
            without_trailing_slashes(chars@.subrange(0, end as int)) == without_trailing_slashes(
                chars@,
            ),
        decreases end,
    {
        assert(chars@.subrange(0, end as int).drop_last() =~= chars@.subrange(0, end - 1));
        end = end - 1;
    }
    let mut url = string_of(&chars, 0, end);
    match wire {
        ChatWire::Chat => push_text(&mut url, "/chat/completions"),
        _ => push_text(&mut url, "/responses"),
    }
    url
}

/// The wire that an intent resolves to: `Auto` tries the Responses wire
/// first.
pub open spec fn resolved(wire: ChatWire) -> ChatWire {
    match wire {
        ChatWire::Chat => ChatWire::Chat,
        _ => ChatWire::Responses,
    }
}

/// Resolves an intent to the wire of the first attempt. The result is never
/// `Auto`.
pub fn resolve_wire(wire: ChatWire) -> (actual: ChatWire)
    ensures
        actual == resolved(wire),
        actual != ChatWire::Auto,
{
    match wire {
        ChatWire::Chat => ChatWire::Chat,
        _ => ChatWire::Responses,
    }
}

/// A failure that says the endpoint is absent: a `Protocol` or `Other`
/// error whose detail holds `404`.
pub open spec fn is_not_found(e: ErrorView) -> bool {
    match e {
        ErrorView::Protocol(d) => contains_text(d, "404"@),
        ErrorView::Other(d) => contains_text(d, "404"@),
        _ => false,
    }
}

/// Tells whether a failure says that the endpoint is absent.
pub fn indicates_not_found(e: &ChatError) -> (r: bool)
    ensures
        r == is_not_found(e@),
{
    match e {
        ChatError::Protocol(d) => contains(d.as_str(), "404"),
        ChatError::Other(d) => contains(d.as_str(), "404"),
        _ => false,
    }
}

/// Whether a failed attempt on `attempted` is answered by a fresh attempt
/// on the Chat wire: only under the `Auto` intent, only after the Responses
/// wire, and only where the failure says that the endpoint is absent.
pub open spec fn falls_back(intent: ChatWire, attempted: ChatWire, e: ErrorView) -> bool {
    intent == ChatWire::Auto && attempted == ChatWire::Responses && is_not_found(e)
}

/// Decides whether a failed attempt is answered by a fresh attempt on the
/// Chat wire.
pub fn should_fall_back(intent: ChatWire, attempted: ChatWire, e: &ChatError) -> (r: bool)
    ensures
        r == falls_back(intent, attempted, e@),
{
    intent == ChatWire::Auto && attempted == ChatWire::Responses && indicates_not_found(e)
}

/// What the transport says of a request that failed before any status
/// came back.
#[derive(Clone, Debug)]
pub struct TransportFailure {
    pub timeout: bool,
    pub request: bool,
    pub connect: bool,
    pub detail: String,
}

/// The category of a transport failure: a timeout first; else the network,
/// where the request could not be sent or the connection not made; else
/// uncategorized.
pub open spec fn transport_error_of(
    timeout: bool,
    request: bool,
    connect: bool,
    detail: Seq<char>,
) -> ErrorView {
    if timeout {
        ErrorView::Timeout(detail)
    } else if request || connect {
        ErrorView::Network(detail)
    } else {
        ErrorView::Other(detail)
    }
}

/// Classifies a transport failure.
pub fn map_transport_err(f: TransportFailure) -> (e: ChatError)
    ensures
        e@ == transport_error_of(f.timeout, f.request, f.connect, f.detail@),
{
    if f.timeout {
        ChatError::Timeout(f.detail)
    } else if f.request || f.connect {
        ChatError::Network(f.detail)
    } else {
        ChatError::Other(f.detail)
    }
}

/// The detail of a status failure: the status in decimal, a space, and the
/// body that came with it, if any.
pub open spec fn status_detail(status: u16, body: Option<Seq<char>>) -> Seq<char> {
    decimal_of(status as nat) + seq![' '] + match body {
        Some(b) => b,
        None => Seq::empty(),
    }
}

/// The category of a response whose status is not a success: 401 and 403
/// reject the credential, 429 is the rate limit, the 5xx class is the
/// network, 404 is the absent endpoint, all else is uncategorized.
pub open spec fn status_error_of(status: u16, body: Option<Seq<char>>) -> ErrorView {
    let s = status_detail(status, body);
    if status == 401 || status == 403 {
        ErrorView::Auth(s)
    } else if status == 429 {
        ErrorView::RateLimit(s)
    } else if 500 <= status <= 599 {
        ErrorView::Network(s)
    } else if status == 404 {
        ErrorView::Protocol("404"@)
    } else {
        ErrorView::Other(s)
    }
}

/// Classifies a response whose status is not a success.
pub fn map_status_err(status: u16, body: Option<String>) -> (e: ChatError)
    ensures
        e@ == status_error_of(status, crate::llm::opt_text(body)),
{
    let mut s = String::new();
    push_decimal(&mut s, status as u64);
    push_text(&mut s, " ");
    proof {
        reveal_strlit(" ");
        assert(" "@ =~= seq![' ']);
    }
    match &body {
        Some(b) => push_text(&mut s, b.as_str()),
        None => {
            assert(s@ + Seq::<char>::empty() =~= s@);
        },
    }
    assert(s@ =~= status_detail(status, crate::llm::opt_text(body)));
    if status == 401 || status == 403 {
        ChatError::Auth(s)
    } else if status == 429 {
        ChatError::RateLimit(s)
    } else if 500 <= status && status <= 599 {
        ChatError::Network(s)
    } else if status == 404 {
        ChatError::Protocol("404".to_owned())
    } else {
        ChatError::Other(s)
    }
}

/// The value of the authorization header for a credential.
pub fn bearer(api_key: &str) -> (value: String)
    ensures
        value@ == "Bearer "@ + api_key@,
{
    let mut value = String::new();
    push_text(&mut value, "Bearer ");
    push_text(&mut value, api_key);
    assert(value@ =~= "Bearer "@ + api_key@);
    value
}

/// The body of a streamed request, on the wire it is meant for.
#[derive(Clone, Debug)]
pub enum WireRequest {
    Chat(ChatBody),
    Responses(ResponsesBody),
}

/// What a `WireRequest` holds.
pub ghost enum WireRequestView {
    Chat(ChatBodyView),
    Responses(ResponsesBodyView),
}

impl View for WireRequest {
    type V = WireRequestView;

    open spec fn view(&self) -> WireRequestView {
        match self {
            WireRequest::Chat(b) => WireRequestView::Chat(b@),
            WireRequest::Responses(b) => WireRequestView::Responses(b@),
        }
    }
}

/// The streamed request that carries a conversation on a wire. `Auto`
/// reads as the wire it resolves to.
pub open spec fn request_of(wire: ChatWire, msgs: Seq<MessageView>, opts: OptsView) -> WireRequestView {
    match wire {
        ChatWire::Chat => WireRequestView::Chat(
            ChatBodyView {
                model: normalized_model(opts.model).name,
                messages: mapped_messages(msgs),
                stream: true,
                temperature: opts.temperature,
                top_p: opts.top_p,
                max_tokens: opts.max_tokens,
            },
        ),
        _ => WireRequestView::Responses(
            ResponsesBodyView {
                model: normalized_model(opts.model).name,
                input: mapped_input(msgs),
                stream: true,
                verbosity: normalized_model(opts.model).verbosity,
            },
        ),
    }
}

/// Builds the streamed request that carries a conversation on a wire.
pub fn stream_request(wire: ChatWire, msgs: &[Message], opts: &ChatOpts) -> (r: WireRequest)
    ensures
        r@ == request_of(wire, message_views(msgs@), opts@),
{
    match wire {
        ChatWire::Chat => WireRequest::Chat(chat_stream_body(msgs, opts)),
        _ => WireRequest::Responses(responses_stream_body(msgs, opts)),
    }
}

} // verus!
