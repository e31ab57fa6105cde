//! What holds of the two decoders for every block of a given shape.

use crate::openai::decode::{
    chat_data_lines, chat_event_of, chat_payload_of, ChatPayloadView, data_prefix, done_mark,
    looks_structured, outcome_of, OutcomeView, responses_event_of, responses_fields_of,
    responses_outcome_from,
};
use crate::openai::json::{json_parsed, JsonModel, model_field, model_text};
use crate::llm::{ChatWire, DeltaView, ErrorView};
use crate::text::{is_space, line_end, lines, strip_prefix, trim_start};
use vstd::prelude::*;
use vstd::utf8::{decode_utf8, valid_utf8};

verus! {

/// Every character of `s` is whitespace.
pub open spec fn all_space(s: Seq<char>) -> bool {
    forall|i: int| 0 <= i < s.len() ==> is_space(#[trigger] s[i])
}

/// A text without a line feed is its own only line.
pub proof fn lemma_one_line(s: Seq<char>)
    requires
        s.len() > 0,
        forall|i: int| 0 <= i < s.len() ==> s[i] != '\n',
    ensures
        lines(s) == seq![s],
{
    lemma_line_end_is_len(s);
}

proof fn lemma_line_end_is_len(s: Seq<char>)
    requires
        forall|i: int| 0 <= i < s.len() ==> s[i] != '\n',
    ensures
        line_end(s) == s.len(),
    decreases s.len(),
{
    if s.len() > 0 {
        let t = s.drop_first();
        assert forall|i: int| 0 <= i < t.len() implies t[i] != '\n' by {
            assert(t[i] == s[i + 1]);
        }
        lemma_line_end_is_len(t);
    }
}

/// Leading whitespace before a text that does not begin with whitespace is
/// all that trimming at the start takes away.
pub proof fn lemma_trim_start_of_padded(ws: Seq<char>, p: Seq<char>)
    requires
        all_space(ws),
        p.len() == 0 || !is_space(p[0]),
    ensures
        trim_start(ws + p) == p,
    decreases ws.len(),
{
    if ws.len() == 0 {
        assert(ws + p =~= p);
    } else {
        let rest = ws.drop_first();
        assert(is_space(ws[0]));
        assert((ws + p)[0] == ws[0]);
        assert((ws + p).drop_first() =~= rest + p);
        assert forall|i: int| 0 <= i < rest.len() implies is_space(#[trigger] rest[i]) by {
            assert(rest[i] == ws[i + 1]);
        }
        lemma_trim_start_of_padded(rest, p);
    }
}

/// A block that consists of the one line `data:`, any whitespace, and the
/// sentinel `[DONE]` has that sentinel as its whole payload.
pub proof fn lemma_done_line(ws: Seq<char>)
    requires
        all_space(ws),
        forall|i: int| 0 <= i < ws.len() ==> ws[i] != '\n',
    ensures
        chat_payload_of(data_prefix() + ws + done_mark()) == ChatPayloadView::Done,
{
    let text = data_prefix() + ws + done_mark();
    let prefix = data_prefix();
    let done = done_mark();
    assert(!is_space('['));
    assert forall|i: int| 0 <= i < text.len() implies text[i] != '\n' by {
        if i < 5 {
            assert(text[i] == prefix[i]);
        } else if i < 5 + ws.len() {
            assert(text[i] == ws[i - 5]);
        } else {
            assert(text[i] == done[i - 5 - ws.len()]);
        }
    }
    lemma_one_line(text);
    let ls = lines(text);
    assert(ls.drop_last() =~= Seq::<Seq<char>>::empty());
    assert(ls.last() == text);
    assert(text.subrange(0, 5) =~= prefix);
    assert(text.subrange(5, text.len() as int) =~= ws + done);
    assert(strip_prefix(text, prefix) == Some(ws + done));
    lemma_trim_start_of_padded(ws, done);
    assert(chat_data_lines(ls.drop_last()) =~= Seq::<Seq<char>>::empty());
    assert(chat_data_lines(ls) =~= seq![done]);
}

/// A Chat-Completions block whose only data line is the sentinel `[DONE]`
/// decodes to `Finish(None)` and nothing else, whatever other lines the
/// block holds; its payload is never parsed. On the stream it is the last
/// item.
pub proof fn lemma_done_is_finish(block: Seq<u8>)
    requires
        valid_utf8(block),
        chat_data_lines(lines(decode_utf8(block))) == seq![done_mark()],
    ensures
        chat_event_of(block) == Ok::<Option<DeltaView>, ErrorView>(
            Some(DeltaView::Finish(None)),
        ),
        outcome_of(ChatWire::Chat, block) == OutcomeView::End(DeltaView::Finish(None)),
{
}

/// A Responses-API block with the event type `response.error` and a
/// structured payload whose `error.message` is the text `x` decodes to the
/// event `response.error` carrying `x`, and ends the stream with a
/// `Protocol` failure that carries `x`.
pub proof fn lemma_error_event_is_protocol_failure(block: Seq<u8>, m: JsonModel, x: Seq<char>)
    requires
        valid_utf8(block),
        responses_fields_of(decode_utf8(block)).event == Some("response.error"@),
        looks_structured(responses_fields_of(decode_utf8(block)).data),
        json_parsed(responses_fields_of(decode_utf8(block)).data) == Ok::<JsonModel, Seq<char>>(m),
        model_text(model_field(model_field(m, "error"@), "message"@)) == Some(x),
    ensures
        responses_event_of(block) == Some(("response.error"@, x)),
        outcome_of(ChatWire::Responses, block) == OutcomeView::Fail(ErrorView::Protocol(x)),
{
    reveal_strlit("response.error");
    reveal_strlit("response.output_text.delta");
    reveal_strlit("response.completed");
    let a = "response.error"@;
    let b = "response.output_text.delta"@;
    let c = "response.completed"@;
    assert(a.len() == 14);
    assert(b.len() == 26);
    assert(c.len() == 18);
}

/// On the Responses wire, an event of a type other than the three that
/// are handled surfaces nothing and lets the stream go on.
pub proof fn lemma_other_event_types_are_passed_over(name: Seq<char>, data: Seq<char>)
    requires
        name != "response.output_text.delta"@,
        name != "response.completed"@,
        name != "response.error"@,
    ensures
        responses_outcome_from(Some((name, data))) == OutcomeView::Skip,
{
}

} // verus!
