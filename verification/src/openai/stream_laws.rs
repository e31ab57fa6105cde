//! What holds of the supervisor in every state and over every run of
//! events.

use crate::openai::decode::{outcome_of, OutcomeView};
use crate::llm::{ChatWire, DeltaView, ErrorView};
use crate::openai::stream::{
    backoff_ms, BACKOFF_UNIT_MS, EventView, idle_expired, ItemView, next_items, next_state,
    pending_action, Phase, phase_after, StreamAction, SupervisorView, yielded_by,
};
use crate::openai::wire::{falls_back, is_not_found, request_of};
use vstd::prelude::*;

verus! {

/// An item with which a sequence ends: a finishing delta or a failure.
pub open spec fn is_terminal(item: ItemView) -> bool {
    match item {
        Ok(d) => d is Finish,
        Err(_) => true,
    }
}

/// In `items`, nothing follows a terminal item.
pub open spec fn ends_at_terminal(items: Seq<ItemView>) -> bool {
    forall|i: int| 0 <= i < items.len() && is_terminal(#[trigger] items[i]) ==> i == items.len() - 1
}

/// `items` holds a terminal item.
pub open spec fn has_terminal(items: Seq<ItemView>) -> bool {
    exists|i: int| 0 <= i < items.len() && is_terminal(#[trigger] items[i])
}

/// A block that lets the stream go on never carries a finishing delta.
pub proof fn lemma_yield_is_not_finish(wire: ChatWire, block: Seq<u8>)
    ensures
        outcome_of(wire, block) matches OutcomeView::Yield(d) ==> !(d is Finish),
        outcome_of(wire, block) matches OutcomeView::End(d) ==> d is Finish,
{
}

/// Of the items that a run of blocks surfaces, only the last can be
/// terminal, and it is terminal exactly where the run ends the stream.
pub proof fn lemma_blocks_end_at_terminal(wire: ChatWire, blocks: Seq<Seq<u8>>)
    ensures
        ends_at_terminal(yielded_by(wire, blocks)),
        has_terminal(yielded_by(wire, blocks)) <==> phase_after(wire, blocks) != Phase::Streaming,
        phase_after(wire, blocks) == Phase::Streaming || phase_after(wire, blocks) == Phase::Done
            || phase_after(wire, blocks) == Phase::Failed,
    decreases blocks.len(),
{
    let items = yielded_by(wire, blocks);
    if blocks.len() == 0 {
    } else {
        let rest = blocks.drop_first();
        let tail = yielded_by(wire, rest);
        lemma_blocks_end_at_terminal(wire, rest);
        lemma_yield_is_not_finish(wire, blocks[0]);
        match outcome_of(wire, blocks[0]) {
            OutcomeView::Skip => {},
            OutcomeView::Yield(d) => {
                assert forall|i: int| 0 <= i < items.len() && is_terminal(
                    #[trigger] items[i],
                ) implies i == items.len() - 1 by {
                    assert(i > 0);
                    assert(items[i] == tail[i - 1]);
                }
                if has_terminal(tail) {
                    let j = choose|j: int| 0 <= j < tail.len() && is_terminal(#[trigger] tail[j]);
                    assert(items[j + 1] == tail[j]);
                }
                if has_terminal(items) {
                    let j = choose|j: int| 0 <= j < items.len() && is_terminal(#[trigger] items[j]);
                    assert(j > 0);
                    assert(items[j] == tail[j - 1]);
                }
            },
            OutcomeView::End(d) => {
                assert(is_terminal(items[0]));
            },
            OutcomeView::Fail(e) => {
                assert(is_terminal(items[0]));
            },
        }
    }
}

/// Every step keeps the state one that the machine can be in.
pub proof fn lemma_step_keeps_wf(s: SupervisorView, e: EventView)
    requires
        s.wf(),
    ensures
        next_state(s, e).wf(),
{
    if s.phase == Phase::Streaming {
        if let EventView::Chunk { bytes, now_ms } = e {
            lemma_blocks_end_at_terminal(s.wire, crate::openai::sse::frame_blocks(s.buf + bytes));
        }
    }
}

/// Once the exchange has ended, no event changes the state, surfaces an
/// item or asks for anything but to stop.
pub proof fn lemma_ended_is_final(s: SupervisorView, e: EventView)
    requires
        s.ended(),
    ensures
        next_state(s, e) == s,
        next_items(s, e) == Seq::<ItemView>::empty(),
        pending_action(next_state(s, e)) == StreamAction::Stop,
{
}

/// The items of one step end at the first terminal item, and a step
/// surfaces a terminal item exactly where it ends the exchange.
pub proof fn lemma_step_ends_at_terminal(s: SupervisorView, e: EventView)
    requires
        s.wf(),
        !s.ended(),
    ensures
        ends_at_terminal(next_items(s, e)),
        has_terminal(next_items(s, e)) ==> next_state(s, e).ended(),
{
    let items = next_items(s, e);
    if s.phase == Phase::Streaming {
        if let EventView::Chunk { bytes, now_ms } = e {
            lemma_blocks_end_at_terminal(s.wire, crate::openai::sse::frame_blocks(s.buf + bytes));
        }
    }
    if has_terminal(items) {
        let j = choose|j: int| 0 <= j < items.len() && is_terminal(#[trigger] items[j]);
    }
}

/// The state after a run of events.
pub open spec fn state_after(s: SupervisorView, events: Seq<EventView>) -> SupervisorView
    decreases events.len(),
{
    if events.len() == 0 {
        s
    } else {
        next_state(state_after(s, events.drop_last()), events.last())
    }
}

/// All the items surfaced over a run of events, in order.
pub open spec fn items_over(s: SupervisorView, events: Seq<EventView>) -> Seq<ItemView>
    decreases events.len(),
{
    if events.len() == 0 {
        Seq::empty()
    } else {
        items_over(s, events.drop_last()) + next_items(
            state_after(s, events.drop_last()),
            events.last(),
        )
    }
}

/// Over any run of events from a state in which the exchange has not
/// ended, nothing is surfaced after a finishing delta or a failure: such an
/// item is the last of the whole sequence, and the exchange has then ended.
pub proof fn lemma_nothing_after_the_end(s: SupervisorView, events: Seq<EventView>)
    requires
        s.wf(),
        !s.ended(),
    ensures
        state_after(s, events).wf(),
        ends_at_terminal(items_over(s, events)),
        has_terminal(items_over(s, events)) ==> state_after(s, events).ended(),
    decreases events.len(),
{
    if events.len() > 0 {
        let before = events.drop_last();
        let e = events.last();
        let mid = state_after(s, before);
        let head = items_over(s, before);
        let step = next_items(mid, e);
        let all = items_over(s, events);
        lemma_nothing_after_the_end(s, before);
        lemma_step_keeps_wf(mid, e);
        if mid.ended() {
            lemma_ended_is_final(mid, e);
            assert(all =~= head);
        } else {
            lemma_step_ends_at_terminal(mid, e);
            assert(!has_terminal(head));
            assert forall|i: int| 0 <= i < all.len() && is_terminal(#[trigger] all[i]) implies i
                == all.len() - 1 by {
                if i < head.len() {
                    assert(all[i] == head[i]);
                } else {
                    assert(all[i] == step[i - head.len()]);
                }
            }
            if has_terminal(all) {
                let j = choose|j: int| 0 <= j < all.len() && is_terminal(#[trigger] all[j]);
                if j < head.len() {
                    assert(all[j] == head[j]);
                } else {
                    assert(all[j] == step[j - head.len()]);
                }
            }
        }
    }
}

/// Under the `Auto` intent, when the last start allowed on the Responses
/// wire fails with a failure that says the endpoint is absent, no error is
/// surfaced: the next action is a fresh start on the Chat wire, with the
/// same conversation and options, and a full budget.
pub proof fn lemma_absent_endpoint_falls_back(s: SupervisorView, err: ErrorView)
    requires
        s.wf(),
        s.phase == Phase::Connecting,
        s.intent == ChatWire::Auto,
        s.wire == ChatWire::Responses,
        s.attempt + 1 == s.max_attempts,
        is_not_found(err),
    ensures
        next_items(s, EventView::ConnectFailed(err)) == Seq::<ItemView>::empty(),
        next_state(s, EventView::ConnectFailed(err)) == (SupervisorView {
            wire: ChatWire::Chat,
            attempt: 0,
            ..s
        }),
        pending_action(next_state(s, EventView::ConnectFailed(err))) == StreamAction::Connect(
            ChatWire::Chat,
        ),
        request_of(
            next_state(s, EventView::ConnectFailed(err)).wire,
            next_state(s, EventView::ConnectFailed(err)).msgs,
            next_state(s, EventView::ConnectFailed(err)).opts,
        ) == request_of(ChatWire::Chat, s.msgs, s.opts),
{
}

/// The wire in use changes only by fallback: never under an explicit
/// intent, never from the Chat wire, and never on a failure that does not
/// say that the endpoint is absent. The conversation and the options never
/// change.
pub proof fn lemma_wire_changes_only_by_fallback(s: SupervisorView, e: EventView)
    requires
        s.wf(),
    ensures
        next_state(s, e).wire != s.wire ==> s.intent == ChatWire::Auto && s.wire
            == ChatWire::Responses && s.phase == Phase::Connecting && (e matches EventView::ConnectFailed(
            err,
        ) && is_not_found(err)),
        next_state(s, e).msgs == s.msgs,
        next_state(s, e).opts == s.opts,
        next_state(s, e).intent == s.intent,
{
}

/// While the body is being read, a tick that finds it silent for longer
/// than the idle time ends the exchange with a `Timeout` failure, whatever
/// the state of the connection; a tick within the idle time changes
/// nothing.
pub proof fn lemma_idle_timeout(s: SupervisorView, now_ms: u64)
    requires
        s.wf(),
        s.phase == Phase::Streaming,
    ensures
        idle_expired(s, now_ms) ==> next_items(s, EventView::Tick { now_ms }) == seq![
            Err::<DeltaView, ErrorView>(ErrorView::Timeout("idle"@)),
        ] && next_state(s, EventView::Tick { now_ms }).phase == Phase::Failed && pending_action(
            next_state(s, EventView::Tick { now_ms }),
        ) == StreamAction::Stop,
        !idle_expired(s, now_ms) ==> next_items(s, EventView::Tick { now_ms }) == Seq::<
            ItemView,
        >::empty() && next_state(s, EventView::Tick { now_ms }) == s,
        idle_expired(s, now_ms) <==> now_ms - s.last_progress_ms > s.idle_ms,
{
}

/// The state after the given starts failed, each followed by its pause.
pub open spec fn after_failed_starts(s: SupervisorView, errs: Seq<ErrorView>) -> SupervisorView
    decreases errs.len(),
{
    if errs.len() == 0 {
        s
    } else {
        next_state(
            next_state(
                after_failed_starts(s, errs.drop_last()),
                EventView::ConnectFailed(errs.last()),
            ),
            EventView::BackoffElapsed,
        )
    }
}

/// One failed start within the budget: nothing is surfaced, a pause of
/// as many units as starts have failed is asked for, and after it the
/// machine connects again on the same wire.
pub proof fn lemma_one_failed_start(t: SupervisorView, err: ErrorView)
    requires
        t.wf(),
        t.phase == Phase::Connecting,
        t.attempt + 1 < t.max_attempts,
    ensures
        next_items(t, EventView::ConnectFailed(err)) == Seq::<ItemView>::empty(),
        pending_action(next_state(t, EventView::ConnectFailed(err))) == StreamAction::Sleep(
            backoff_ms((t.attempt + 1) as u32),
        ),
        next_state(next_state(t, EventView::ConnectFailed(err)), EventView::BackoffElapsed) == (
        SupervisorView { attempt: (t.attempt + 1) as u32, ..t }),
{
}

/// After k failed starts, k below the budget, the machine is connecting
/// again, on the same wire, with k failures counted.
pub proof fn lemma_state_after_failed_starts(s: SupervisorView, errs: Seq<ErrorView>)
    requires
        s.wf(),
        s.phase == Phase::Connecting,
        s.attempt == 0,
        errs.len() < s.max_attempts,
    ensures
        after_failed_starts(s, errs) == (SupervisorView { attempt: errs.len() as u32, ..s }),
        pending_action(after_failed_starts(s, errs)) == StreamAction::Connect(s.wire),
    decreases errs.len(),
{
    if errs.len() > 0 {
        let head = errs.drop_last();
        lemma_state_after_failed_starts(s, head);
        lemma_one_failed_start(after_failed_starts(s, head), errs.last());
    }
}

/// The pause grows with every failed start: the k-th lasts k units.
pub proof fn lemma_backoff_grows(k: u32)
    requires
        k < u32::MAX,
    ensures
        backoff_ms(k) == BACKOFF_UNIT_MS * k,
        backoff_ms((k + 1) as u32) == BACKOFF_UNIT_MS * (k + 1),
        backoff_ms((k + 1) as u32) > backoff_ms(k),
{
}

/// While fewer starts have failed than the budget allows, every failed
/// start is answered by a pause and a new start on the same wire: nothing
/// is surfaced, the k-th pause lasts k units, and each pause is longer than
/// the one before.
pub proof fn lemma_failed_starts_are_retried(s: SupervisorView, errs: Seq<ErrorView>, i: int)
    requires
        s.wf(),
        s.phase == Phase::Connecting,
        s.attempt == 0,
        errs.len() < s.max_attempts,
        0 <= i < errs.len(),
    ensures
        next_items(
            after_failed_starts(s, errs.subrange(0, i)),
            EventView::ConnectFailed(errs[i]),
        ) == Seq::<ItemView>::empty(),
        pending_action(
            next_state(
                after_failed_starts(s, errs.subrange(0, i)),
                EventView::ConnectFailed(errs[i]),
            ),
        ) == StreamAction::Sleep(backoff_ms((i + 1) as u32)),
        backoff_ms((i + 1) as u32) == BACKOFF_UNIT_MS * (i + 1),
        backoff_ms((i + 1) as u32) > backoff_ms(i as u32),
        after_failed_starts(s, errs.subrange(0, i + 1)) == (SupervisorView {
            attempt: (i + 1) as u32,
            ..s
        }),
{
    let before = errs.subrange(0, i);
    lemma_state_after_failed_starts(s, before);
    lemma_one_failed_start(after_failed_starts(s, before), errs[i]);
    lemma_backoff_grows(i as u32);
    lemma_state_after_failed_starts(s, errs.subrange(0, i + 1));
}

/// With a budget of N starts, the N-th failed start in a row is surfaced,
/// unless it falls back: after N - 1 failures that were retried, the next
/// failure is the one item surfaced, the exchange has failed, and nothing
/// more is asked for.
pub proof fn lemma_budget_exhausted(s: SupervisorView, errs: Seq<ErrorView>, last: ErrorView)
    requires
        s.wf(),
        s.phase == Phase::Connecting,
        s.attempt == 0,
        errs.len() + 1 == s.max_attempts,
        !falls_back(s.intent, s.wire, last),
    ensures
        next_items(after_failed_starts(s, errs), EventView::ConnectFailed(last)) == seq![
            Err::<DeltaView, ErrorView>(last),
        ],
        next_state(after_failed_starts(s, errs), EventView::ConnectFailed(last)).phase
            == Phase::Failed,
        pending_action(next_state(after_failed_starts(s, errs), EventView::ConnectFailed(last)))
            == StreamAction::Stop,
{
    lemma_state_after_failed_starts(s, errs);
}

/// Once the body is being read, no failure leads to another start: a read
/// failure is surfaced at once and ends the exchange, and from the
/// `Streaming` phase no event leads back to connecting or to a pause.
pub proof fn lemma_no_retry_once_streaming(s: SupervisorView, e: EventView)
    requires
        s.wf(),
        s.phase == Phase::Streaming,
    ensures
        next_state(s, e).phase == Phase::Streaming || next_state(s, e).ended(),
        next_state(s, e).attempt == s.attempt,
        pending_action(next_state(s, e)) == StreamAction::Read || pending_action(next_state(s, e))
            == StreamAction::Stop,
        e matches EventView::ReadFailed(err) ==> next_items(s, e) == seq![
            Err::<DeltaView, ErrorView>(err),
        ] && next_state(s, e).phase == Phase::Failed,
{
    if let EventView::Chunk { bytes, now_ms } = e {
        lemma_blocks_end_at_terminal(s.wire, crate::openai::sse::frame_blocks(s.buf + bytes));
    }
}

} // verus!
