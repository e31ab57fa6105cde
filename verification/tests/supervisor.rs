use fast_chat::llm::{ChatDelta, ChatError, ChatWire, Message, Role};
use fast_chat::openai::stream::{
    surface, Phase, StreamAction, StreamEvent, StreamItem, Supervisor, BACKOFF_UNIT_MS,
};
use fast_chat::openai::wire::{ChatOpts, WireRequest};

fn conversation() -> Vec<Message> {
    vec![
        Message { role: Role::System, content: "be terse".to_string() },
        Message { role: Role::User, content: "2+2?".to_string() },
    ]
}

fn supervisor(intent: ChatWire, retries: u32, idle_ms: u64) -> Supervisor {
    let opts = ChatOpts {
        model: "gpt-5".to_string(),
        temperature: None,
        top_p: Some(0.9f32.to_bits()),
        max_tokens: None,
    };
    Supervisor::new(conversation(), opts, intent, retries, idle_ms)
}

fn chunk(bytes: &[u8], now_ms: u64) -> StreamEvent {
    StreamEvent::Chunk { bytes: bytes.to_vec(), now_ms }
}

fn texts(items: &[StreamItem]) -> Vec<String> {
    items
        .iter()
        .map(|i| match i {
            Ok(ChatDelta::Text(t)) => format!("text:{}", t),
            Ok(ChatDelta::Finish(None)) => "finish".to_string(),
            Ok(ChatDelta::Finish(Some(r))) => format!("finish:{}", r),
            Ok(ChatDelta::RoleStart(_)) => "role".to_string(),
            Ok(ChatDelta::Usage { .. }) => "usage".to_string(),
            Err(e) => format!("error:{}", e.message()),
        })
        .collect()
}

#[test]
fn chat_wire_example_yields_text_then_finish() {
    let mut s = supervisor(ChatWire::Chat, 5, 300_000);
    assert_eq!(s.action(), StreamAction::Connect(ChatWire::Chat));
    match s.request() {
        WireRequest::Chat(body) => {
            assert!(body.stream);
            assert_eq!(body.temperature, None);
            assert_eq!(body.top_p.map(f32::from_bits), Some(0.9));
            assert_eq!(body.messages.len(), 2);
            assert_eq!(body.messages[0].role, "system");
            assert_eq!(body.messages[0].content, "be terse");
            assert_eq!(body.messages[1].role, "user");
            assert_eq!(body.messages[1].content, "2+2?");
        }
        _ => panic!("the chat wire was asked for"),
    }
    let (items, action) = s.step(StreamEvent::Connected { now_ms: 10 });
    assert!(items.is_empty());
    assert_eq!(action, StreamAction::Read);
    let (items, action) =
        s.step(chunk(b"data: {\"choices\":[{\"delta\":{\"content\":\"4\"}}]}\n\n", 20));
    assert_eq!(texts(&items), vec!["text:4"]);
    assert_eq!(action, StreamAction::Read);
    let (items, action) = s.step(chunk(b"data: [DONE]\n\n", 30));
    assert_eq!(texts(&items), vec!["finish"]);
    assert_eq!(action, StreamAction::Stop);
    assert_eq!(s.phase, Phase::Done);
}

#[test]
fn both_blocks_in_one_chunk() {
    let mut s = supervisor(ChatWire::Chat, 5, 300_000);
    s.step(StreamEvent::Connected { now_ms: 0 });
    let (items, action) = s.step(chunk(
        b"data: {\"choices\":[{\"delta\":{\"content\":\"4\"}}]}\r\n\r\ndata: [DONE]\r\n\r\n",
        1,
    ));
    assert_eq!(texts(&items), vec!["text:4", "finish"]);
    assert_eq!(action, StreamAction::Stop);
}

#[test]
fn nothing_is_surfaced_after_the_finish() {
    let mut s = supervisor(ChatWire::Chat, 5, 300_000);
    s.step(StreamEvent::Connected { now_ms: 0 });
    let (items, action) = s.step(chunk(
        b"data: [DONE]\n\ndata: {\"choices\":[{\"delta\":{\"content\":\"late\"}}]}\n\n",
        1,
    ));
    assert_eq!(texts(&items), vec!["finish"]);
    assert_eq!(action, StreamAction::Stop);
    let (items, action) =
        s.step(chunk(b"data: {\"choices\":[{\"delta\":{\"content\":\"later\"}}]}\n\n", 2));
    assert!(items.is_empty());
    assert_eq!(action, StreamAction::Stop);
    let (items, action) = s.step(StreamEvent::ReadFailed(ChatError::Network("x".to_string())));
    assert!(items.is_empty());
    assert_eq!(action, StreamAction::Stop);
    assert_eq!(s.phase, Phase::Done);
}

#[test]
fn a_block_split_over_chunks_is_decoded_once() {
    let mut s = supervisor(ChatWire::Responses, 1, 1000);
    s.step(StreamEvent::Connected { now_ms: 0 });
    let (items, _) = s.step(chunk(b"event: response.output_text.delta\nda", 1));
    assert!(items.is_empty());
    let (items, _) = s.step(chunk(b"ta: {\"delta\":\"Hi\"}\n", 2));
    assert!(items.is_empty());
    let (items, action) = s.step(chunk(b"\nevent: response.created\ndata: {}\n\n", 3));
    assert_eq!(texts(&items), vec!["text:Hi"]);
    assert_eq!(action, StreamAction::Read);
    let (items, action) = s.step(chunk(b"event: response.completed\ndata: {}\n\n", 4));
    assert_eq!(texts(&items), vec!["finish"]);
    assert_eq!(action, StreamAction::Stop);
}

#[test]
fn responses_error_event_ends_the_stream() {
    let mut s = supervisor(ChatWire::Responses, 3, 1000);
    s.step(StreamEvent::Connected { now_ms: 0 });
    let (items, action) = s.step(chunk(
        b"event: response.error\ndata: {\"error\":{\"message\":\"X\"}}\n\nevent: response.output_text.delta\ndata: late\n\n",
        1,
    ));
    assert_eq!(texts(&items), vec!["error:protocol: X"]);
    assert_eq!(action, StreamAction::Stop);
    assert_eq!(s.phase, Phase::Failed);
}

#[test]
fn malformed_chat_payload_ends_the_stream() {
    let mut s = supervisor(ChatWire::Chat, 3, 1000);
    s.step(StreamEvent::Connected { now_ms: 0 });
    let (items, action) = s.step(chunk(b"data: {oops\n\ndata: [DONE]\n\n", 1));
    assert_eq!(items.len(), 1);
    assert!(matches!(items[0], Err(ChatError::Decode(_))));
    assert_eq!(action, StreamAction::Stop);
    assert_eq!(s.phase, Phase::Failed);
}

#[test]
fn failed_starts_are_retried_with_growing_pauses() {
    let n: u32 = 4;
    let mut s = supervisor(ChatWire::Chat, n, 1000);
    let mut connects = 0;
    let mut pauses: Vec<u64> = Vec::new();
    let mut action = s.action();
    let mut surfaced: Vec<StreamItem> = Vec::new();
    loop {
        match action {
            StreamAction::Connect(w) => {
                assert_eq!(w, ChatWire::Chat);
                connects += 1;
                let (items, next) = s.step(StreamEvent::ConnectFailed(ChatError::Network(
                    format!("refused {}", connects),
                )));
                surfaced.extend(items);
                action = next;
            }
            StreamAction::Sleep(ms) => {
                assert!(surfaced.is_empty());
                pauses.push(ms);
                let (items, next) = s.step(StreamEvent::BackoffElapsed);
                assert!(items.is_empty());
                action = next;
            }
            StreamAction::Read => panic!("never connected"),
            StreamAction::Stop => break,
        }
    }
    assert_eq!(connects, n);
    assert_eq!(pauses, vec![300, 600, 900]);
    assert_eq!(BACKOFF_UNIT_MS, 300);
    assert_eq!(texts(&surfaced), vec!["error:network: refused 4"]);
    assert_eq!(s.phase, Phase::Failed);
}

#[test]
fn a_budget_of_zero_is_one_attempt() {
    let mut s = supervisor(ChatWire::Responses, 0, 1000);
    assert_eq!(s.max_attempts, 1);
    let (items, action) = s.step(StreamEvent::ConnectFailed(ChatError::Auth("401 ".to_string())));
    assert_eq!(texts(&items), vec!["error:auth error: 401 "]);
    assert_eq!(action, StreamAction::Stop);
}

#[test]
fn a_failure_after_a_delta_is_surfaced_at_once() {
    let mut s = supervisor(ChatWire::Chat, 5, 1000);
    s.step(StreamEvent::Connected { now_ms: 0 });
    let (items, _) =
        s.step(chunk(b"data: {\"choices\":[{\"delta\":{\"content\":\"a\"}}]}\n\n", 1));
    assert_eq!(texts(&items), vec!["text:a"]);
    let (items, action) = s.step(StreamEvent::ReadFailed(ChatError::Network("reset".to_string())));
    assert_eq!(texts(&items), vec!["error:network: reset"]);
    assert_eq!(action, StreamAction::Stop);
    assert_eq!(s.attempt, 0);
    let (items, action) = s.step(StreamEvent::BackoffElapsed);
    assert!(items.is_empty());
    assert_eq!(action, StreamAction::Stop);
}

#[test]
fn auto_falls_back_to_chat_on_an_absent_endpoint() {
    let mut s = supervisor(ChatWire::Auto, 1, 1000);
    assert_eq!(s.action(), StreamAction::Connect(ChatWire::Responses));
    assert!(matches!(s.request(), WireRequest::Responses(_)));
    let (items, action) =
        s.step(StreamEvent::ConnectFailed(ChatError::Protocol("404".to_string())));
    assert!(items.is_empty());
    assert_eq!(action, StreamAction::Connect(ChatWire::Chat));
    match s.request() {
        WireRequest::Chat(body) => {
            assert_eq!(body.messages.len(), 2);
            assert_eq!(body.messages[0].content, "be terse");
            assert_eq!(body.messages[1].content, "2+2?");
        }
        _ => panic!("fallback is on the chat wire"),
    }
    let (items, action) =
        s.step(StreamEvent::ConnectFailed(ChatError::Protocol("404".to_string())));
    assert_eq!(texts(&items), vec!["error:protocol: 404"]);
    assert_eq!(action, StreamAction::Stop);
}

#[test]
fn auto_falls_back_after_the_budget_and_starts_afresh() {
    let mut s = supervisor(ChatWire::Auto, 2, 1000);
    let (items, action) =
        s.step(StreamEvent::ConnectFailed(ChatError::Other("404 not here".to_string())));
    assert!(items.is_empty());
    assert_eq!(action, StreamAction::Sleep(300));
    assert_eq!(s.step(StreamEvent::BackoffElapsed).1, StreamAction::Connect(ChatWire::Responses));
    let (items, action) =
        s.step(StreamEvent::ConnectFailed(ChatError::Other("404 not here".to_string())));
    assert!(items.is_empty());
    assert_eq!(action, StreamAction::Connect(ChatWire::Chat));
    assert_eq!(s.attempt, 0);
    let (items, action) = s.step(StreamEvent::Connected { now_ms: 5 });
    assert!(items.is_empty());
    assert_eq!(action, StreamAction::Read);
    let (items, _) = s.step(chunk(b"data: [DONE]\n\n", 6));
    assert_eq!(texts(&items), vec!["finish"]);
}

#[test]
fn other_failures_and_explicit_intents_do_not_fall_back() {
    let mut s = supervisor(ChatWire::Auto, 1, 1000);
    let (items, action) =
        s.step(StreamEvent::ConnectFailed(ChatError::RateLimit("429 ".to_string())));
    assert_eq!(texts(&items), vec!["error:rate limit: 429 "]);
    assert_eq!(action, StreamAction::Stop);
    let mut s = supervisor(ChatWire::Responses, 1, 1000);
    let (items, action) =
        s.step(StreamEvent::ConnectFailed(ChatError::Protocol("404".to_string())));
    assert_eq!(texts(&items), vec!["error:protocol: 404"]);
    assert_eq!(action, StreamAction::Stop);
    let mut s = supervisor(ChatWire::Chat, 1, 1000);
    let (items, _) = s.step(StreamEvent::ConnectFailed(ChatError::Protocol("404".to_string())));
    assert_eq!(texts(&items), vec!["error:protocol: 404"]);
}

#[test]
fn idle_timeout_fires_while_the_connection_stays_open() {
    let mut s = supervisor(ChatWire::Chat, 5, 1000);
    s.step(StreamEvent::Connected { now_ms: 100 });
    let (items, action) = s.step(StreamEvent::Tick { now_ms: 600 });
    assert!(items.is_empty());
    assert_eq!(action, StreamAction::Read);
    let (items, action) = s.step(StreamEvent::Tick { now_ms: 1100 });
    assert!(items.is_empty());
    assert_eq!(action, StreamAction::Read);
    let (items, action) = s.step(StreamEvent::Tick { now_ms: 1101 });
    assert_eq!(texts(&items), vec!["error:timeout: idle"]);
    assert_eq!(action, StreamAction::Stop);
    assert_eq!(s.phase, Phase::Failed);
}

#[test]
fn bytes_push_the_idle_deadline_back() {
    let mut s = supervisor(ChatWire::Chat, 5, 1000);
    s.step(StreamEvent::Connected { now_ms: 0 });
    let (items, _) = s.step(chunk(b"data: {\"cho", 900));
    assert!(items.is_empty());
    let (items, action) = s.step(StreamEvent::Tick { now_ms: 1500 });
    assert!(items.is_empty());
    assert_eq!(action, StreamAction::Read);
    let (items, _) = s.step(StreamEvent::Tick { now_ms: 1901 });
    assert_eq!(texts(&items), vec!["error:timeout: idle"]);
    let mut s = supervisor(ChatWire::Chat, 5, 1000);
    s.step(StreamEvent::Connected { now_ms: 5000 });
    let (items, action) = s.step(StreamEvent::Tick { now_ms: 10 });
    assert!(items.is_empty());
    assert_eq!(action, StreamAction::Read);
}

#[test]
fn the_end_of_the_body_ends_the_sequence() {
    let mut s = supervisor(ChatWire::Chat, 5, 1000);
    s.step(StreamEvent::Connected { now_ms: 0 });
    let (items, _) = s.step(chunk(b"data: {\"choices\":[{\"delta\":{\"content\":\"cut\"}}]}", 1));
    assert!(items.is_empty());
    let (items, action) = s.step(StreamEvent::BodyEnded);
    assert!(items.is_empty());
    assert_eq!(action, StreamAction::Stop);
    assert_eq!(s.phase, Phase::Done);
}

#[test]
fn events_that_are_not_waited_for_change_nothing() {
    let mut s = supervisor(ChatWire::Chat, 3, 1000);
    let (items, action) = s.step(StreamEvent::Tick { now_ms: 99_999 });
    assert!(items.is_empty());
    assert_eq!(action, StreamAction::Connect(ChatWire::Chat));
    let (items, action) = s.step(chunk(b"data: [DONE]\n\n", 1));
    assert!(items.is_empty());
    assert_eq!(action, StreamAction::Connect(ChatWire::Chat));
    s.step(StreamEvent::ConnectFailed(ChatError::Network("x".to_string())));
    let (items, action) = s.step(StreamEvent::Connected { now_ms: 1 });
    assert!(items.is_empty());
    assert_eq!(action, StreamAction::Sleep(300));
    assert_eq!(s.phase, Phase::BackingOff);
}

#[test]
fn surface_stops_at_the_first_end() {
    let blocks = vec![
        b": ping".to_vec(),
        b"data: {\"choices\":[{\"delta\":{\"role\":\"assistant\"}}]}".to_vec(),
        b"data: {\"choices\":[{\"delta\":{\"content\":\"a\"}}]}".to_vec(),
        b"data: {\"choices\":[{\"delta\":{},\"finish_reason\":\"stop\"}]}".to_vec(),
        b"data: [DONE]".to_vec(),
    ];
    let (items, phase) = surface(ChatWire::Chat, &blocks);
    assert_eq!(texts(&items), vec!["role", "text:a", "finish:stop"]);
    assert_eq!(phase, Phase::Done);
    let (items, phase) = surface(ChatWire::Chat, &blocks[..3].to_vec());
    assert_eq!(texts(&items), vec!["role", "text:a"]);
    assert_eq!(phase, Phase::Streaming);
    let (items, phase) = surface(ChatWire::Responses, &Vec::new());
    assert!(items.is_empty());
    assert_eq!(phase, Phase::Streaming);
}
