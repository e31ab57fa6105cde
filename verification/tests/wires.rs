use fast_chat::llm::{ChatError, ChatWire, Message, Role};
use fast_chat::text::{is_blank, trimmed};
use fast_chat::openai::wire::{
    chat_stream_body, endpoint_url, indicates_not_found, map_input, map_messages, map_status_err,
    map_transport_err, normalize_gpt5, resolve_wire, responses_stream_body, role_name, send_body,
    should_fall_back, stream_request, ChatOpts, TransportFailure, WireRequest,
};

fn msg(role: Role, content: &str) -> Message {
    Message { role, content: content.to_string() }
}

#[test]
fn presets_split_into_model_and_hint() {
    assert_eq!(normalize_gpt5("gpt-5-high"), ("gpt-5".to_string(), Some("high")));
    assert_eq!(normalize_gpt5("gpt-5-medium"), ("gpt-5".to_string(), Some("medium")));
    assert_eq!(normalize_gpt5("gpt-5-low"), ("gpt-5".to_string(), Some("low")));
    assert_eq!(normalize_gpt5("  gpt-5-minimal\n"), ("gpt-5".to_string(), Some("minimal")));
    assert_eq!(normalize_gpt5(" gpt-4o "), ("gpt-4o".to_string(), None));
    assert_eq!(normalize_gpt5("gpt-5"), ("gpt-5".to_string(), None));
    assert_eq!(normalize_gpt5("GPT-5-HIGH"), ("GPT-5-HIGH".to_string(), None));
    assert_eq!(normalize_gpt5(""), ("".to_string(), None));
}

#[test]
fn trimming_is_unicode_aware() {
    assert_eq!(trimmed("\u{a0}\t a b \u{2003}\r\n"), "a b");
    assert_eq!(trimmed("\u{200b}x"), "\u{200b}x");
    assert!(is_blank(" \u{3000}\n"));
    assert!(!is_blank(" . "));
}

#[test]
fn role_names() {
    assert_eq!(role_name(Role::User), "user");
    assert_eq!(role_name(Role::Assistant), "assistant");
    assert_eq!(role_name(Role::System), "system");
}

#[test]
fn chat_messages_keep_every_turn() {
    let msgs = vec![msg(Role::System, "be terse"), msg(Role::User, "2+2?"), msg(Role::Assistant, "")];
    let out = map_messages(&msgs);
    assert_eq!(out.len(), 3);
    assert_eq!((out[0].role.as_str(), out[0].content.as_str()), ("system", "be terse"));
    assert_eq!((out[1].role.as_str(), out[1].content.as_str()), ("user", "2+2?"));
    assert_eq!((out[2].role.as_str(), out[2].content.as_str()), ("assistant", ""));
}

#[test]
fn responses_input_types_and_placeholders() {
    let msgs = vec![
        msg(Role::System, "be terse"),
        msg(Role::Assistant, "  \n"),
        msg(Role::User, ""),
        msg(Role::Assistant, "4"),
        msg(Role::Assistant, ""),
    ];
    let out = map_input(&msgs);
    assert_eq!(out.len(), 3);
    assert_eq!(
        (out[0].role.as_str(), out[0].content_type.as_str(), out[0].text.as_str()),
        ("system", "input_text", "be terse")
    );
    assert_eq!(
        (out[1].role.as_str(), out[1].content_type.as_str(), out[1].text.as_str()),
        ("user", "input_text", "")
    );
    assert_eq!(
        (out[2].role.as_str(), out[2].content_type.as_str(), out[2].text.as_str()),
        ("assistant", "output_text", "4")
    );
}

#[test]
fn bodies_of_the_three_requests() {
    let msgs = vec![msg(Role::User, "hi")];
    let opts = ChatOpts {
        model: " gpt-5-low ".to_string(),
        temperature: Some(0.5f32.to_bits()),
        top_p: None,
        max_tokens: Some(64),
    };
    let b = send_body(&msgs, &opts);
    assert_eq!(b.model, " gpt-5-low ");
    assert!(!b.stream);
    assert_eq!(b.temperature.map(f32::from_bits), Some(0.5));
    assert_eq!(b.top_p, None);
    assert_eq!(b.max_tokens, Some(64));
    assert_eq!(b.messages.len(), 1);
    let b = chat_stream_body(&msgs, &opts);
    assert_eq!(b.model, "gpt-5");
    assert!(b.stream);
    assert_eq!(b.temperature, Some(0.5f32.to_bits()));
    assert_eq!(b.max_tokens, Some(64));
    let b = responses_stream_body(&msgs, &opts);
    assert_eq!(b.model, "gpt-5");
    assert!(b.stream);
    assert_eq!(b.verbosity, Some("low".to_string()));
    assert_eq!(b.input.len(), 1);
    let opts =
        ChatOpts { model: "o3".to_string(), temperature: None, top_p: None, max_tokens: None };
    assert_eq!(responses_stream_body(&msgs, &opts).verbosity, None);
    assert!(matches!(stream_request(ChatWire::Chat, &msgs, &opts), WireRequest::Chat(_)));
    assert!(matches!(stream_request(ChatWire::Responses, &msgs, &opts), WireRequest::Responses(_)));
    assert!(matches!(stream_request(ChatWire::Auto, &msgs, &opts), WireRequest::Responses(_)));
}

#[test]
fn endpoints() {
    assert_eq!(
        endpoint_url("https://api.openai.com/v1", ChatWire::Chat),
        "https://api.openai.com/v1/chat/completions"
    );
    assert_eq!(endpoint_url("http://h/v1///", ChatWire::Responses), "http://h/v1/responses");
    assert_eq!(endpoint_url("http://h/v1/", ChatWire::Auto), "http://h/v1/responses");
    assert_eq!(endpoint_url("", ChatWire::Chat), "/chat/completions");
    assert_eq!(endpoint_url("//", ChatWire::Chat), "/chat/completions");
}

#[test]
fn auto_resolves_to_responses() {
    assert_eq!(resolve_wire(ChatWire::Auto), ChatWire::Responses);
    assert_eq!(resolve_wire(ChatWire::Responses), ChatWire::Responses);
    assert_eq!(resolve_wire(ChatWire::Chat), ChatWire::Chat);
}

#[test]
fn only_an_absent_endpoint_under_auto_falls_back() {
    let nf = ChatError::Protocol("404".to_string());
    assert!(indicates_not_found(&nf));
    assert!(indicates_not_found(&ChatError::Other("HTTP 404 Not Found".to_string())));
    assert!(!indicates_not_found(&ChatError::Other("40 4".to_string())));
    assert!(!indicates_not_found(&ChatError::Network("404".to_string())));
    assert!(!indicates_not_found(&ChatError::Auth("404".to_string())));
    assert!(!indicates_not_found(&ChatError::RateLimit("404".to_string())));
    assert!(!indicates_not_found(&ChatError::Timeout("404".to_string())));
    assert!(!indicates_not_found(&ChatError::Decode("404".to_string())));
    assert!(!indicates_not_found(&ChatError::Canceled));
    assert!(should_fall_back(ChatWire::Auto, ChatWire::Responses, &nf));
    assert!(!should_fall_back(ChatWire::Responses, ChatWire::Responses, &nf));
    assert!(!should_fall_back(ChatWire::Chat, ChatWire::Chat, &nf));
    assert!(!should_fall_back(ChatWire::Auto, ChatWire::Chat, &nf));
    assert!(!should_fall_back(
        ChatWire::Auto,
        ChatWire::Responses,
        &ChatError::Network("503 ".to_string())
    ));
}

#[test]
fn statuses_map_to_categories() {
    assert!(matches!(map_status_err(401, Some("no".to_string())), ChatError::Auth(d) if d == "401 no"));
    assert!(matches!(map_status_err(403, None), ChatError::Auth(d) if d == "403 "));
    assert!(matches!(map_status_err(429, Some("slow".to_string())), ChatError::RateLimit(d) if d == "429 slow"));
    assert!(matches!(map_status_err(500, None), ChatError::Network(d) if d == "500 "));
    assert!(matches!(map_status_err(502, None), ChatError::Network(_)));
    assert!(matches!(map_status_err(503, None), ChatError::Network(_)));
    assert!(matches!(map_status_err(504, None), ChatError::Network(_)));
    assert!(matches!(map_status_err(507, None), ChatError::Network(d) if d == "507 "));
    assert!(matches!(map_status_err(599, None), ChatError::Network(_)));
    assert!(matches!(map_status_err(404, Some("gone".to_string())), ChatError::Protocol(d) if d == "404"));
    assert!(matches!(map_status_err(400, Some("bad".to_string())), ChatError::Other(d) if d == "400 bad"));
    assert!(matches!(map_status_err(600, None), ChatError::Other(d) if d == "600 "));
    assert!(matches!(map_status_err(0, None), ChatError::Other(d) if d == "0 "));
    assert!(matches!(map_status_err(65535, None), ChatError::Other(d) if d == "65535 "));
}

#[test]
fn transport_failures_map_to_categories() {
    let f = |timeout, request, connect| TransportFailure {
        timeout,
        request,
        connect,
        detail: "d".to_string(),
    };
    assert!(matches!(map_transport_err(f(true, true, true)), ChatError::Timeout(d) if d == "d"));
    assert!(matches!(map_transport_err(f(false, true, false)), ChatError::Network(_)));
    assert!(matches!(map_transport_err(f(false, false, true)), ChatError::Network(_)));
    assert!(matches!(map_transport_err(f(false, false, false)), ChatError::Other(_)));
}

#[test]
fn error_messages() {
    assert_eq!(ChatError::Auth("k".to_string()).message(), "auth error: k");
    assert_eq!(ChatError::RateLimit("k".to_string()).message(), "rate limit: k");
    assert_eq!(ChatError::Timeout("idle".to_string()).message(), "timeout: idle");
    assert_eq!(ChatError::Network("k".to_string()).message(), "network: k");
    assert_eq!(ChatError::Decode("k".to_string()).message(), "decode: k");
    assert_eq!(ChatError::Protocol("404".to_string()).message(), "protocol: 404");
    assert_eq!(ChatError::Canceled.message(), "canceled");
    assert_eq!(ChatError::Other("k".to_string()).message(), "other: k");
}
