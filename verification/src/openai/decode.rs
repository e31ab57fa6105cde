//! Decoding one framed event block into zero or one unit of progress, for
//! each of the two wires.

use crate::openai::json::{
    json_as_str, json_field, json_item, json_model, json_parse, json_parsed, JsonModel, model_field,
    model_item, model_text,
};
use crate::llm::{
    ChatDelta, ChatError, ChatResult, ChatWire, DeltaView, ErrorView, opt_text, ResultView, Role,
};
use crate::text::{
    copy_range, has_prefix, join, join_lines, line_views, lines, same_text, split_lines, string_of,
    strip_prefix, to_chars, trim, trim_end_at, trim_start, trim_start_at,
};
use vstd::prelude::*;
use vstd::utf8::{decode_utf8, valid_utf8};

verus! {

/// The message of the UTF-8 validator for bytes that are not UTF-8.
pub uninterp spec fn utf8_error_text(bytes: Seq<u8>) -> Seq<char>;

/// Calls `std::str::from_utf8`: the text that the bytes encode, or, where
/// they are not valid UTF-8, the validator's message, which depends on the
/// bytes alone.
#[verifier::external_body]
fn utf8_text(bytes: &[u8]) -> (r: Result<&str, String>)
    ensures
        match r {
            Ok(s) => valid_utf8(bytes@) && s@ == decode_utf8(bytes@),
            Err(m) => !valid_utf8(bytes@) && m@ == utf8_error_text(bytes@),
        },
{
    match std::str::from_utf8(bytes) {
        Ok(s) => Ok(s),
        Err(e) => Err(e.to_string()),
    }
}

/// The field name `data:`.
pub open spec fn data_prefix() -> Seq<char> {
    seq!['d', 'a', 't', 'a', ':']
}

/// The field name `event:`.
pub open spec fn event_prefix() -> Seq<char> {
    seq!['e', 'v', 'e', 'n', 't', ':']
}

/// The sentinel `[DONE]`.
pub open spec fn done_mark() -> Seq<char> {
    seq!['[', 'D', 'O', 'N', 'E', ']']
}

/// The payloads of the `data:` lines among `ls`, in order, each without the
/// field name and the whitespace that follows it.
pub open spec fn chat_data_lines(ls: Seq<Seq<char>>) -> Seq<Seq<char>>
    decreases ls.len(),
{
    if ls.len() == 0 {
        Seq::empty()
    } else {
        let head = chat_data_lines(ls.drop_last());
        match strip_prefix(ls.last(), data_prefix()) {
            Some(rest) => head.push(trim_start(rest)),
            None => head,
        }
    }
}

/// What the data lines of a Chat-Completions block amount to.
pub ghost enum ChatPayloadView {
    /// No `data:` line at all.
    Nothing,
    /// The single data line `[DONE]`.
    Done,
    /// The data lines joined by line feeds: JSON text is expected.
    Json(Seq<char>),
}

/// What the data lines of a Chat-Completions block amount to.
pub enum ChatPayload {
    /// No `data:` line at all.
    Nothing,
    /// The single data line `[DONE]`.
    Done,
    /// The data lines joined by line feeds: JSON text is expected.
    Json(String),
}

impl View for ChatPayload {
    type V = ChatPayloadView;

    open spec fn view(&self) -> ChatPayloadView {
        match self {
            ChatPayload::Nothing => ChatPayloadView::Nothing,
            ChatPayload::Done => ChatPayloadView::Done,
            ChatPayload::Json(t) => ChatPayloadView::Json(t@),
        }
    }
}

/// The payload of a Chat-Completions block given as text.
pub open spec fn chat_payload_of(text: Seq<char>) -> ChatPayloadView {
    let data = chat_data_lines(lines(text));
    if data.len() == 0 {
        ChatPayloadView::Nothing
    } else if data.len() == 1 && data[0] == done_mark() {
        ChatPayloadView::Done
    } else {
        ChatPayloadView::Json(join_lines(data))
    }
}

/// The role that a role name stands for; an unknown name is the assistant.
pub open spec fn role_of(name: Seq<char>) -> Role {
    if name == "user"@ {
        Role::User
    } else if name == "assistant"@ {
        Role::Assistant
    } else if name == "system"@ {
        Role::System
    } else {
        Role::Assistant
    }
}

/// The first choice of a Chat-Completions fragment.
pub open spec fn first_choice(m: JsonModel) -> JsonModel {
    model_item(model_field(m, "choices"@), 0)
}

/// The delta that a Chat-Completions fragment carries: its text delta; else
/// its role; else its finish reason; else nothing.
pub open spec fn chat_delta_of(m: JsonModel) -> Option<DeltaView> {
    let choice = first_choice(m);
    let delta = model_field(choice, "delta"@);
    if let Some(content) = model_text(model_field(delta, "content"@)) {
        Some(DeltaView::Text(content))
    } else if let Some(role) = model_text(model_field(delta, "role"@)) {
        Some(DeltaView::RoleStart(role_of(role)))
    } else if let Some(reason) = model_text(model_field(choice, "finish_reason"@)) {
        Some(DeltaView::Finish(Some(reason)))
    } else {
        None
    }
}

/// What a Chat-Completions block decodes to: nothing, one delta, or a
/// `Decode` error where its bytes are not UTF-8 or its payload is not JSON.
pub open spec fn chat_event_of(block: Seq<u8>) -> Result<Option<DeltaView>, ErrorView> {
    if !valid_utf8(block) {
        Err(ErrorView::Decode(utf8_error_text(block)))
    } else {
        match chat_payload_of(decode_utf8(block)) {
            ChatPayloadView::Nothing => Ok(None),
            ChatPayloadView::Done => Ok(Some(DeltaView::Finish(None))),
            ChatPayloadView::Json(text) => match json_parsed(text) {
                Ok(m) => Ok(chat_delta_of(m)),
                Err(msg) => Err(ErrorView::Decode(msg)),
            },
        }
    }
}

/// The view of a decoding result.
pub open spec fn decoded_view(r: Result<Option<ChatDelta>, ChatError>) -> Result<
    Option<DeltaView>,
    ErrorView,
> {
    match r {
        Ok(Some(d)) => Ok(Some(d@)),
        Ok(None) => Ok(None),
        Err(e) => Err(e@),
    }
}

/// The view of an optional delta.
pub open spec fn opt_delta_view(o: Option<ChatDelta>) -> Option<DeltaView> {
    match o {
        Some(d) => Some(d@),
        None => None,
    }
}

/// Tells whether the characters are exactly those of `word`.
fn chars_are(chars: &Vec<char>, word: &[char]) -> (r: bool)
    ensures
        r == (chars@ == word@),
{
    if chars.len() != word.len() {
        return false;
    }
    let r = has_prefix(chars, word);
    assert(chars@.subrange(0, word@.len() as int) =~= chars@);
    r
}

/// Collects the payloads of the `data:` lines of a block given as text, and
/// says what they amount to.
pub fn chat_payload(text: &str) -> (p: ChatPayload)
    ensures
        p@ == chat_payload_of(text@),
{
    let chars = to_chars(text);
    let ls = split_lines(&chars);
    let prefix: [char; 5] = ['d', 'a', 't', 'a', ':'];
    let done: [char; 6] = ['[', 'D', 'O', 'N', 'E', ']'];
    assert(prefix@ =~= data_prefix());
    assert(done@ =~= done_mark());
    let mut data: Vec<Vec<char>> = Vec::new();
    let mut i: usize = 0;
    assert(line_views(ls@).subrange(0, 0) =~= Seq::<Seq<char>>::empty());
    assert(line_views(data@) =~= Seq::<Seq<char>>::empty());
    while i < ls.len()
        invariant
            i <= ls@.len(),
            prefix@ == data_prefix(),
            line_views(data@) == chat_data_lines(line_views(ls@).subrange(0, i as int)),
        decreases ls@.len() - i,
    {
        let ghost sofar = line_views(ls@).subrange(0, i as int);
        let ghost next = line_views(ls@).subrange(0, i + 1);
        let ghost before = data@;
        let line = &ls[i];
        proof {
            assert(next.drop_last() =~= sofar);
            assert(next.last() == line@);
        }
        if has_prefix(line, prefix.as_slice()) {
            let from = trim_start_at(line, 5, line.len());
            let payload = copy_range(line, from, line.len());
            data.push(payload);
            assert(line_views(data@) =~= line_views(before).push(payload@));
        }
        i = i + 1;
    }
    assert(line_views(ls@).subrange(0, ls@.len() as int) =~= line_views(ls@));
    assert(done@ =~= done_mark());
    assert(line_views(data@).len() == data@.len());
    if data.len() == 0 {
        ChatPayload::Nothing
    } else if data.len() == 1 && chars_are(&data[0], done.as_slice()) {
        ChatPayload::Done
    } else {
        assert(data@.len() == 1 ==> line_views(data@)[0] == data@[0]@);
        let joined = join(&data);
        assert(joined@.subrange(0, joined@.len() as int) =~= joined@);
        ChatPayload::Json(string_of(&joined, 0, joined.len()))
    }
}

/// Maps a role name to the role; an unknown name is the assistant.
pub fn role_from_name(name: &str) -> (r: Role)
    ensures
        r == role_of(name@),
{
    if same_text(name, "user") {
        Role::User
    } else if same_text(name, "assistant") {
        Role::Assistant
    } else if same_text(name, "system") {
        Role::System
    } else {
        Role::Assistant
    }
}

/// Reads the delta out of a parsed Chat-Completions fragment: its text
/// delta; else its role; else its finish reason; else nothing.
pub fn chat_delta_from_json(v: &serde_json::Value) -> (r: Option<ChatDelta>)
    ensures
        opt_delta_view(r) == chat_delta_of(json_model(*v)),
{
    let choice = json_item(json_field(v, "choices"), 0);
    let delta = json_field(choice, "delta");
    if let Some(content) = json_as_str(json_field(delta, "content")) {
        return Some(ChatDelta::Text(content));
    }
    if let Some(role) = json_as_str(json_field(delta, "role")) {
        return Some(ChatDelta::RoleStart(role_from_name(role.as_str())));
    }
    if let Some(reason) = json_as_str(json_field(choice, "finish_reason")) {
        return Some(ChatDelta::Finish(Some(reason)));
    }
    None
}

/// Decodes one framed Chat-Completions block.
pub fn parse_chat_sse_event(ev: &[u8]) -> (r: Result<Option<ChatDelta>, ChatError>)
    ensures
        decoded_view(r) == chat_event_of(ev@),
{
    let text = match utf8_text(ev) {
        Ok(s) => s,
        Err(m) => {
            return Err(ChatError::Decode(m));
        },
    };
    match chat_payload(text) {
        ChatPayload::Nothing => Ok(None),
        ChatPayload::Done => Ok(Some(ChatDelta::Finish(None))),
        ChatPayload::Json(json_text) => match json_parse(json_text.as_str()) {
            Ok(v) => Ok(chat_delta_from_json(&v)),
            Err(m) => Err(ChatError::Decode(m)),
        },
    }
}

/// The name on the last `event:` line among `ls`, trimmed.
pub open spec fn last_event_name(ls: Seq<Seq<char>>) -> Option<Seq<char>>
    decreases ls.len(),
{
    if ls.len() == 0 {
        None
    } else {
        match strip_prefix(ls.last(), event_prefix()) {
            Some(rest) => Some(trim(rest)),
            None => last_event_name(ls.drop_last()),
        }
    }
}

/// The payloads of the `data:` lines among `ls`, in order, each trimmed on
/// both sides.
pub open spec fn responses_data_lines(ls: Seq<Seq<char>>) -> Seq<Seq<char>>
    decreases ls.len(),
{
    if ls.len() == 0 {
        Seq::empty()
    } else {
        let head = responses_data_lines(ls.drop_last());
        match strip_prefix(ls.last(), data_prefix()) {
            Some(rest) => head.push(trim(rest)),
            None => head,
        }
    }
}

/// The two fields of a Responses-API block.
pub ghost struct ResponsesFieldsView {
    pub event: Option<Seq<char>>,
    pub data: Seq<char>,
}

/// The two fields of a Responses-API block: the event name, where an
/// `event:` line gives one, and the data lines joined by line feeds.
pub struct ResponsesFields {
    pub event: Option<String>,
    pub data: String,
}

impl View for ResponsesFields {
    type V = ResponsesFieldsView;

    open spec fn view(&self) -> ResponsesFieldsView {
        ResponsesFieldsView { event: opt_text(self.event), data: self.data@ }
    }
}

/// The fields of a Responses-API block given as text.
pub open spec fn responses_fields_of(text: Seq<char>) -> ResponsesFieldsView {
    ResponsesFieldsView {
        event: last_event_name(lines(text)),
        data: join_lines(responses_data_lines(lines(text))),
    }
}

/// The text of a string node, or the given default for any other node.
pub open spec fn text_or(m: JsonModel, default: Seq<char>) -> Seq<char> {
    match model_text(m) {
        Some(t) => t,
        None => default,
    }
}

/// The event type of a block: the name its `event:` line gives; without
/// one, the `type` member of its payload where the payload is JSON that has
/// one; else empty.
pub open spec fn responses_event_name(
    event: Option<Seq<char>>,
    data: Seq<char>,
    parsed: Option<JsonModel>,
) -> Seq<char> {
    match event {
        Some(e) => e,
        None => if data.len() > 0 {
            match parsed {
                Some(m) => text_or(model_field(m, "type"@), Seq::empty()),
                None => Seq::empty(),
            }
        } else {
            Seq::empty()
        },
    }
}

/// The payload, trimmed, opens a JSON object.
pub open spec fn looks_structured(data: Seq<char>) -> bool {
    trim(data).len() > 0 && trim(data)[0] == '{'
}

/// What a block of the given event type carries. A text delta carries the
/// `delta` member of a structured payload; an error carries its
/// `error.message`; whatever is not structured, or is of another type, is
/// carried raw.
pub open spec fn responses_data(name: Seq<char>, data: Seq<char>, parsed: Option<JsonModel>) -> Seq<
    char,
> {
    if name == "response.output_text.delta"@ {
        if looks_structured(data) {
            match parsed {
                Some(m) => text_or(model_field(m, "delta"@), Seq::empty()),
                None => data,
            }
        } else {
            data
        }
    } else if name == "response.error"@ {
        if looks_structured(data) {
            match parsed {
                Some(m) => text_or(model_field(model_field(m, "error"@), "message"@), data),
                None => data,
            }
        } else {
            data
        }
    } else {
        data
    }
}

/// The event that the fields of a block and the parse of its payload give:
/// its type and what it carries; nothing where the type is empty.
pub open spec fn responses_event_from(
    fields: ResponsesFieldsView,
    parsed: Option<JsonModel>,
) -> Option<(Seq<char>, Seq<char>)> {
    let name = responses_event_name(fields.event, fields.data, parsed);
    if name.len() == 0 {
        None
    } else {
        Some((name, responses_data(name, fields.data, parsed)))
    }
}

/// What a Responses-API block decodes to. Bytes that are not UTF-8 decode
/// to nothing.
pub open spec fn responses_event_of(block: Seq<u8>) -> Option<(Seq<char>, Seq<char>)> {
    if !valid_utf8(block) {
        None
    } else {
        let fields = responses_fields_of(decode_utf8(block));
        responses_event_from(fields, parsed_model(json_parsed(fields.data)))
    }
}

/// The document of a parse, where there is one.
pub open spec fn parsed_model(r: Result<JsonModel, Seq<char>>) -> Option<JsonModel> {
    match r {
        Ok(m) => Some(m),
        Err(_) => None,
    }
}

/// The view of an optional event.
pub open spec fn opt_event_view(o: Option<(String, String)>) -> Option<(Seq<char>, Seq<char>)> {
    match o {
        Some((name, data)) => Some((name@, data@)),
        None => None,
    }
}

/// The tree of an optional parsed document.
pub open spec fn opt_model(o: Option<serde_json::Value>) -> Option<JsonModel> {
    match o {
        Some(v) => Some(json_model(v)),
        None => None,
    }
}

/// Collects the event name and the data of a block given as text.
pub fn responses_fields(text: &str) -> (f: ResponsesFields)
    ensures
        f@ == responses_fields_of(text@),
{
    let chars = to_chars(text);
    let ls = split_lines(&chars);
    let data_key: [char; 5] = ['d', 'a', 't', 'a', ':'];
    let event_key: [char; 6] = ['e', 'v', 'e', 'n', 't', ':'];
    assert(data_key@ =~= data_prefix());
    assert(event_key@ =~= event_prefix());
    let mut event: Option<String> = None;
    let mut data: Vec<Vec<char>> = Vec::new();
    let mut i: usize = 0;
    assert(line_views(ls@).subrange(0, 0) =~= Seq::<Seq<char>>::empty());
    assert(line_views(data@) =~= Seq::<Seq<char>>::empty());
    while i < ls.len()
        invariant
            i <= ls@.len(),
            data_key@ == data_prefix(),
            event_key@ == event_prefix(),
            line_views(data@) == responses_data_lines(line_views(ls@).subrange(0, i as int)),
            opt_text(event) == last_event_name(line_views(ls@).subrange(0, i as int)),
        decreases ls@.len() - i,
    {
        let ghost sofar = line_views(ls@).subrange(0, i as int);
        let ghost next = line_views(ls@).subrange(0, i + 1);
        let ghost before = data@;
        let line = &ls[i];
        proof {
            assert(next.drop_last() =~= sofar);
            assert(next.last() == line@);
        }
        if has_prefix(line, event_key.as_slice()) {
            let from = trim_start_at(line, 6, line.len());
            let to = trim_end_at(line, from, line.len());
            event = Some(string_of(line, from, to));
        }
        if has_prefix(line, data_key.as_slice()) {
            let from = trim_start_at(line, 5, line.len());
            let to = trim_end_at(line, from, line.len());
            let payload = copy_range(line, from, to);
            data.push(payload);
            assert(line_views(data@) =~= line_views(before).push(payload@));
        }
        i = i + 1;
    }
    assert(line_views(ls@).subrange(0, ls@.len() as int) =~= line_views(ls@));
    let joined = join(&data);
    assert(joined@.subrange(0, joined@.len() as int) =~= joined@);
    ResponsesFields { event, data: string_of(&joined, 0, joined.len()) }
}

/// Tells whether a payload, trimmed, opens a JSON object.
pub fn is_structured(data: &str) -> (r: bool)
    ensures
        r == looks_structured(data@),
{
    let chars = to_chars(data);
    let from = trim_start_at(&chars, 0, chars.len());
    let to = trim_end_at(&chars, from, chars.len());
    assert(chars@.subrange(0, chars@.len() as int) =~= chars@);
    from < to && chars[from] == '{'
}

/// Gives the event of a block from its fields and the parse of its payload
/// (`None` where the payload is not JSON): its type and what it carries.
pub fn responses_event(fields: ResponsesFields, parsed: Option<serde_json::Value>) -> (r: Option<
    (String, String),
>)
    ensures
        opt_event_view(r) == responses_event_from(fields@, opt_model(parsed)),
{
    let ResponsesFields { event, data } = fields;
    let name: String = match event {
        Some(e) => e,
        None => {
            let mut inferred = String::new();
            if data.as_str().unicode_len() > 0 {
                if let Some(v) = &parsed {
                    if let Some(t) = json_as_str(json_field(v, "type")) {
                        inferred = t;
                    }
                }
            }
            inferred
        },
    };
    if name.as_str().unicode_len() == 0 {
        return None;
    }
    let is_delta = same_text(name.as_str(), "response.output_text.delta");
    let is_error = same_text(name.as_str(), "response.error");
    let mut carried: Option<String> = None;
    if (is_delta || is_error) && is_structured(data.as_str()) {
        if let Some(v) = &parsed {
            if is_delta {
                carried =
                match json_as_str(json_field(v, "delta")) {
                    Some(d) => Some(d),
                    None => Some(String::new()),
                };
            } else {
                carried = json_as_str(json_field(json_field(v, "error"), "message"));
            }
        }
    }
    match carried {
        Some(c) => Some((name, c)),
        None => Some((name, data)),
    }
}

/// Decodes one framed Responses-API block into its event type and what it
/// carries; a block without an event type decodes to nothing.
pub fn parse_responses_event(block: &[u8]) -> (r: Option<(String, String)>)
    ensures
        opt_event_view(r) == responses_event_of(block@),
{
    let text = match utf8_text(block) {
        Ok(s) => s,
        Err(_) => {
            return None;
        },
    };
    let fields = responses_fields(text);
    let parsed = match json_parse(fields.data.as_str()) {
        Ok(v) => Some(v),
        Err(_) => None,
    };
    responses_event(fields, parsed)
}

/// The answer that a complete Chat-Completions response carries: the
/// content of the first choice's message, empty where there is none. The
/// response names no finish reason and no token counts that are read.
pub open spec fn chat_result_of(m: JsonModel) -> ResultView {
    ResultView {
        text: text_or(
            model_field(model_field(first_choice(m), "message"@), "content"@),
            Seq::empty(),
        ),
        finish_reason: None,
        prompt_tokens: None,
        completion_tokens: None,
    }
}

/// What the body of a successful non-streaming response decodes to: the
/// answer, or a `Decode` error where the body is not JSON.
pub open spec fn chat_response_of(body: Seq<char>) -> Result<ResultView, ErrorView> {
    match json_parsed(body) {
        Ok(m) => Ok(chat_result_of(m)),
        Err(msg) => Err(ErrorView::Decode(msg)),
    }
}

/// The view of a decoded response.
pub open spec fn response_view(r: Result<ChatResult, ChatError>) -> Result<ResultView, ErrorView> {
    match r {
        Ok(x) => Ok(x@),
        Err(e) => Err(e@),
    }
}

/// Reads the answer out of a parsed Chat-Completions response.
pub fn chat_result_from_json(v: &serde_json::Value) -> (r: ChatResult)
    ensures
        r@ == chat_result_of(json_model(*v)),
{
    let choice = json_item(json_field(v, "choices"), 0);
    let content = json_field(json_field(choice, "message"), "content");
    let text = match json_as_str(content) {
        Some(t) => t,
        None => String::new(),
    };
    ChatResult { text, finish_reason: None, prompt_tokens: None, completion_tokens: None }
}

/// Decodes the body of a successful non-streaming response.
pub fn decode_chat_response(body: &str) -> (r: Result<ChatResult, ChatError>)
    ensures
        response_view(r) == chat_response_of(body@),
{
    match json_parse(body) {
        Ok(v) => Ok(chat_result_from_json(&v)),
        Err(m) => Err(ChatError::Decode(m)),
    }
}

/// What one event block means for the stream.
pub enum BlockOutcome {
    /// Nothing to surface; the stream goes on.
    Skip,
    /// A delta; the stream goes on.
    Yield(ChatDelta),
    /// The finishing delta; the stream ends with it.
    End(ChatDelta),
    /// A failure; the stream ends with it.
    Fail(ChatError),
}

/// What a `BlockOutcome` holds.
pub ghost enum OutcomeView {
    Skip,
    Yield(DeltaView),
    End(DeltaView),
    Fail(ErrorView),
}

impl View for BlockOutcome {
    type V = OutcomeView;

    open spec fn view(&self) -> OutcomeView {
        match self {
            BlockOutcome::Skip => OutcomeView::Skip,
            BlockOutcome::Yield(d) => OutcomeView::Yield(d@),
            BlockOutcome::End(d) => OutcomeView::End(d@),
            BlockOutcome::Fail(e) => OutcomeView::Fail(e@),
        }
    }
}

/// What a decoded Chat-Completions block means for the stream: a finish
/// ends it, any other delta goes on, a failure ends it.
pub open spec fn chat_outcome_from(r: Result<Option<DeltaView>, ErrorView>) -> OutcomeView {
    match r {
        Ok(None) => OutcomeView::Skip,
        Ok(Some(d)) => if d is Finish {
            OutcomeView::End(d)
        } else {
            OutcomeView::Yield(d)
        },
        Err(e) => OutcomeView::Fail(e),
    }
}

/// What a decoded Responses-API event means for the stream: a text delta
/// goes on, completion ends it, an error ends it with a `Protocol`
/// failure, and any other event type is passed over.
pub open spec fn responses_outcome_from(ev: Option<(Seq<char>, Seq<char>)>) -> OutcomeView {
    match ev {
        None => OutcomeView::Skip,
        Some((name, data)) => if name == "response.output_text.delta"@ {
            OutcomeView::Yield(DeltaView::Text(data))
        } else if name == "response.completed"@ {
            OutcomeView::End(DeltaView::Finish(None))
        } else if name == "response.error"@ {
            OutcomeView::Fail(ErrorView::Protocol(data))
        } else {
            OutcomeView::Skip
        },
    }
}

/// What a block means on the given wire. `Auto` reads as the wire it
/// resolves to.
pub open spec fn outcome_of(wire: ChatWire, block: Seq<u8>) -> OutcomeView {
    match wire {
        ChatWire::Chat => chat_outcome_from(chat_event_of(block)),
        _ => responses_outcome_from(responses_event_of(block)),
    }
}

/// Says what a decoded Chat-Completions block means for the stream.
pub fn chat_outcome(r: Result<Option<ChatDelta>, ChatError>) -> (o: BlockOutcome)
    ensures
        o@ == chat_outcome_from(decoded_view(r)),
{
    match r {
        Ok(None) => BlockOutcome::Skip,
        Ok(Some(d)) => match d {
            ChatDelta::Finish(f) => BlockOutcome::End(ChatDelta::Finish(f)),
            other => BlockOutcome::Yield(other),
        },
        Err(e) => BlockOutcome::Fail(e),
    }
}

/// Says what a decoded Responses-API event means for the stream.
pub fn responses_outcome(ev: Option<(String, String)>) -> (o: BlockOutcome)
    ensures
        o@ == responses_outcome_from(opt_event_view(ev)),
{
    match ev {
        None => BlockOutcome::Skip,
        Some((name, data)) => {
            if same_text(name.as_str(), "response.output_text.delta") {
                BlockOutcome::Yield(ChatDelta::Text(data))
            } else if same_text(name.as_str(), "response.completed") {
                BlockOutcome::End(ChatDelta::Finish(None))
            } else if same_text(name.as_str(), "response.error") {
                BlockOutcome::Fail(ChatError::Protocol(data))
            } else {
                BlockOutcome::Skip
            }
        },
    }
}

/// Decodes one framed block on the given wire and says what it means for
/// the stream.
pub fn decode_block(wire: ChatWire, block: &[u8]) -> (o: BlockOutcome)
    ensures
        o@ == outcome_of(wire, block@),
{
    match wire {
        ChatWire::Chat => chat_outcome(parse_chat_sse_event(block)),
        _ => responses_outcome(parse_responses_event(block)),
    }
}

} // verus!
