use fast_chat::openai::decode::{chat_payload, responses_fields, ChatPayload};

const LINES: [&str; 14] = [
    "data: x",
    "data:y ",
    " data: z",
    "event: e1",
    "event:e2 \t",
    "id: 1",
    "",
    "data:",
    "event:",
    ": c",
    "data: [DONE]",
    "data:\u{a0} {\"a\":1} ",
    "DATA: no",
    "data: tail\r",
];

fn blocks() -> Vec<String> {
    let mut out = vec![String::new()];
    for sep in ["\n", "\r\n"] {
        for a in LINES {
            out.push(a.to_string());
            out.push(format!("{}{}", a, sep));
            for b in LINES {
                out.push(format!("{}{}{}", a, sep, b));
                for c in LINES {
                    out.push(format!("{}{}{}{}{}", a, sep, b, sep, c));
                }
            }
        }
    }
    out
}

fn data_lines_keeping_the_end(block: &str) -> Vec<&str> {
    let mut data = Vec::new();
    for line in block.lines() {
        if let Some(rest) = line.strip_prefix("data:") {
            data.push(rest.trim_start());
        }
    }
    data
}

#[test]
fn chat_payload_of_every_small_block() {
    for block in blocks() {
        let data = data_lines_keeping_the_end(&block);
        match chat_payload(&block) {
            ChatPayload::Nothing => assert!(data.is_empty(), "{:?}", block),
            ChatPayload::Done => assert_eq!(data, vec!["[DONE]"], "{:?}", block),
            ChatPayload::Json(t) => {
                assert!(!data.is_empty(), "{:?}", block);
                assert!(data != vec!["[DONE]"], "{:?}", block);
                assert_eq!(t, data.join("\n"), "{:?}", block);
            }
        }
    }
}

#[test]
fn responses_fields_of_every_small_block() {
    for block in blocks() {
        let mut event: Option<String> = None;
        let mut data: Vec<&str> = Vec::new();
        for line in block.lines() {
            if let Some(v) = line.strip_prefix("event:") {
                event = Some(v.trim().to_string());
            }
            if let Some(v) = line.strip_prefix("data:") {
                data.push(v.trim());
            }
        }
        let got = responses_fields(&block);
        assert_eq!(got.event, event, "{:?}", block);
        assert_eq!(got.data, data.join("\n"), "{:?}", block);
    }
}
