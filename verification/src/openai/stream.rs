//! The supervisor of one streamed exchange: an explicit state machine from
//! state and event to next state, items to surface and the next action.
//!
//! The caller performs the actions (connect, read, sleep) and reports what
//! happened as events. The machine decides: it frames and decodes what was
//! read, retries a failed start within its budget, falls back to the Chat
//! wire where the Responses endpoint is absent, and watches for idleness.

use crate::openai::decode::{BlockOutcome, decode_block, outcome_of, OutcomeView};
use crate::llm::{
    ChatDelta, ChatError, ChatWire, DeltaView, ErrorView, Message, message_views, MessageView,
};
use crate::openai::sse::{block_views, buf_new, buffered, feed, frame_blocks, frame_rest};
use crate::openai::wire::{
    ChatOpts, falls_back, OptsView, request_of, resolve_wire, resolved, should_fall_back,
    stream_request, WireRequest,
};
use vstd::prelude::*;

verus! {

/// The delay unit of the backoff, in milliseconds: the k-th failed start is
/// followed by a pause of k units.
pub const BACKOFF_UNIT_MS: u64 = 300;

/// Where an exchange stands.
#[derive(Clone, Copy, Debug, PartialEq, Eq, Structural)]
pub enum Phase {
    /// A request is about to be issued, or is on its way.
    Connecting,
    /// The response body is being read.
    Streaming,
    /// A failed start is being waited out.
    BackingOff,
    /// The exchange ended with a failure.
    Failed,
    /// The exchange ended without one.
    Done,
}

/// What the caller is to do next.
#[derive(Clone, Copy, Debug, PartialEq, Eq, Structural)]
pub enum StreamAction {
    /// Issue the request on the given wire.
    Connect(ChatWire),
    /// Wait for the given number of milliseconds, then report it.
    Sleep(u64),
    /// Wait for the next chunk of the body, the end of the body, a read
    /// failure or a tick of the clock.
    Read,
    /// Nothing more: the sequence has ended.
    Stop,
}

/// What happened since the last action.
pub enum StreamEvent {
    /// The request was answered with a success status at the given time.
    Connected { now_ms: u64 },
    /// The request failed, or was answered with another status.
    ConnectFailed(ChatError),
    /// A chunk of the body arrived at the given time.
    Chunk { bytes: Vec<u8>, now_ms: u64 },
    /// Reading the body failed.
    ReadFailed(ChatError),
    /// The body ended.
    BodyEnded,
    /// The clock ticked: it is now the given time.
    Tick { now_ms: u64 },
    /// The pause asked for is over.
    BackoffElapsed,
}

/// What a `StreamEvent` holds.
pub ghost enum EventView {
    Connected { now_ms: u64 },
    ConnectFailed(ErrorView),
    Chunk { bytes: Seq<u8>, now_ms: u64 },
    ReadFailed(ErrorView),
    BodyEnded,
    Tick { now_ms: u64 },
    BackoffElapsed,
}

impl View for StreamEvent {
    type V = EventView;

    open spec fn view(&self) -> EventView {
        match self {
            StreamEvent::Connected { now_ms } => EventView::Connected { now_ms: *now_ms },
            StreamEvent::ConnectFailed(e) => EventView::ConnectFailed(e@),
            StreamEvent::Chunk { bytes, now_ms } => EventView::Chunk {
                bytes: bytes@,
                now_ms: *now_ms,
            },
            StreamEvent::ReadFailed(e) => EventView::ReadFailed(e@),
            StreamEvent::BodyEnded => EventView::BodyEnded,
            StreamEvent::Tick { now_ms } => EventView::Tick { now_ms: *now_ms },
            StreamEvent::BackoffElapsed => EventView::BackoffElapsed,
        }
    }
}

/// One item of the sequence handed to the caller.
pub type StreamItem = Result<ChatDelta, ChatError>;

/// What a `StreamItem` holds.
pub type ItemView = Result<DeltaView, ErrorView>;

/// The view of an item.
pub open spec fn item_view(item: StreamItem) -> ItemView {
    match item {
        Ok(d) => Ok(d@),
        Err(e) => Err(e@),
    }
}

/// The views of a list of items.
pub open spec fn item_views(items: Seq<StreamItem>) -> Seq<ItemView> {
    items.map_values(|i: StreamItem| item_view(i))
}

/// The supervisor of one exchange.
pub struct Supervisor {
    /// The wire that was asked for.
    pub intent: ChatWire,
    /// The wire in use; never `Auto`.
    pub wire: ChatWire,
    /// How many starts may fail on one wire before the failure is
    /// surfaced; at least one.
    pub max_attempts: u32,
    /// How long the body may stay silent, in milliseconds.
    pub idle_ms: u64,
    /// How many starts have failed on the wire in use.
    pub attempt: u32,
    /// Where the exchange stands.
    pub phase: Phase,
    /// When bytes were last seen.
    pub last_progress_ms: u64,
    /// The bytes read and not yet framed.
    pub buf: bytes::BytesMut,
    /// The conversation that every attempt carries.
    pub msgs: Vec<Message>,
    /// The options that every attempt carries.
    pub opts: ChatOpts,
}

/// What a `Supervisor` holds.
pub ghost struct SupervisorView {
    pub intent: ChatWire,
    pub wire: ChatWire,
    pub max_attempts: u32,
    pub idle_ms: u64,
    pub attempt: u32,
    pub phase: Phase,
    pub last_progress_ms: u64,
    pub buf: Seq<u8>,
    pub msgs: Seq<MessageView>,
    pub opts: OptsView,
}

impl View for Supervisor {
    type V = SupervisorView;

    open spec fn view(&self) -> SupervisorView {
        SupervisorView {
            intent: self.intent,
            wire: self.wire,
            max_attempts: self.max_attempts,
            idle_ms: self.idle_ms,
            attempt: self.attempt,
            phase: self.phase,
            last_progress_ms: self.last_progress_ms,
            buf: buffered(self.buf),
            msgs: message_views(self.msgs@),
            opts: self.opts@,
        }
    }
}

impl SupervisorView {
    /// The state is one that the machine can be in: the wire in use is
    /// resolved, the budget is at least one, and while a start is still
    /// possible the budget is not used up.
    pub open spec fn wf(self) -> bool {
        &&& self.wire != ChatWire::Auto
        &&& self.max_attempts >= 1
        &&& (self.phase == Phase::Connecting || self.phase == Phase::BackingOff) ==> self.attempt
            < self.max_attempts
        &&& self.phase == Phase::BackingOff ==> self.attempt >= 1
    }

    /// The exchange has ended.
    pub open spec fn ended(self) -> bool {
        self.phase == Phase::Failed || self.phase == Phase::Done
    }
}

/// The state in which an exchange begins.
pub open spec fn initial_state(
    msgs: Seq<MessageView>,
    opts: OptsView,
    intent: ChatWire,
    max_retries: u32,
    idle_ms: u64,
) -> SupervisorView {
    SupervisorView {
        intent,
        wire: resolved(intent),
        max_attempts: if max_retries >= 1 {
            max_retries
        } else {
            1
        },
        idle_ms,
        attempt: 0,
        phase: Phase::Connecting,
        last_progress_ms: 0,
        buf: Seq::empty(),
        msgs,
        opts,
    }
}

/// The pause after the k-th failed start.
pub open spec fn backoff_ms(k: u32) -> u64 {
    (BACKOFF_UNIT_MS * k) as u64
}

/// The action that a state is waiting on.
pub open spec fn pending_action(s: SupervisorView) -> StreamAction {
    match s.phase {
        Phase::Connecting => StreamAction::Connect(s.wire),
        Phase::BackingOff => StreamAction::Sleep(backoff_ms(s.attempt)),
        Phase::Streaming => StreamAction::Read,
        Phase::Failed => StreamAction::Stop,
        Phase::Done => StreamAction::Stop,
    }
}

/// The items that a run of blocks surfaces, in order: every delta up to
/// and including the first that ends the stream, or the failure that ends
/// it. Nothing after the end is surfaced.
pub open spec fn yielded_by(wire: ChatWire, blocks: Seq<Seq<u8>>) -> Seq<ItemView>
    decreases blocks.len(),
{
    if blocks.len() == 0 {
        Seq::empty()
    } else {
        match outcome_of(wire, blocks[0]) {
            OutcomeView::Skip => yielded_by(wire, blocks.drop_first()),
            OutcomeView::Yield(d) => seq![Ok(d)] + yielded_by(wire, blocks.drop_first()),
            OutcomeView::End(d) => seq![Ok(d)],
            OutcomeView::Fail(e) => seq![Err(e)],
        }
    }
}

/// How a run of blocks leaves the stream: `Streaming` where none of them
/// ends it, else `Done` or `Failed`.
pub open spec fn phase_after(wire: ChatWire, blocks: Seq<Seq<u8>>) -> Phase
    decreases blocks.len(),
{
    if blocks.len() == 0 {
        Phase::Streaming
    } else {
        match outcome_of(wire, blocks[0]) {
            OutcomeView::Skip => phase_after(wire, blocks.drop_first()),
            OutcomeView::Yield(_) => phase_after(wire, blocks.drop_first()),
            OutcomeView::End(_) => Phase::Done,
            OutcomeView::Fail(_) => Phase::Failed,
        }
    }
}

/// The body has been silent for longer than allowed.
pub open spec fn idle_expired(s: SupervisorView, now_ms: u64) -> bool {
    now_ms > s.last_progress_ms && now_ms - s.last_progress_ms > s.idle_ms
}

/// The failure that idleness is reported as.
pub open spec fn idle_failure() -> ErrorView {
    ErrorView::Timeout("idle"@)
}

/// The state that follows `s` on event `e`.
pub open spec fn next_state(s: SupervisorView, e: EventView) -> SupervisorView {
    match (s.phase, e) {
        (Phase::Connecting, EventView::Connected { now_ms }) => SupervisorView {
            phase: Phase::Streaming,
            last_progress_ms: now_ms,
            buf: Seq::empty(),
            ..s
        },
        (Phase::Connecting, EventView::ConnectFailed(err)) => if s.attempt + 1 < s.max_attempts {
            SupervisorView { phase: Phase::BackingOff, attempt: (s.attempt + 1) as u32, ..s }
        } else if falls_back(s.intent, s.wire, err) {
            SupervisorView { wire: ChatWire::Chat, attempt: 0, ..s }
        } else {
            SupervisorView { phase: Phase::Failed, attempt: (s.attempt + 1) as u32, ..s }
        },
        (Phase::BackingOff, EventView::BackoffElapsed) => SupervisorView {
            phase: Phase::Connecting,
            ..s
        },
        (Phase::Streaming, EventView::Chunk { bytes, now_ms }) => SupervisorView {
            phase: phase_after(s.wire, frame_blocks(s.buf + bytes)),
            last_progress_ms: now_ms,
            buf: frame_rest(s.buf + bytes),
            ..s
        },
        (Phase::Streaming, EventView::ReadFailed(_)) => SupervisorView { phase: Phase::Failed, ..s },
        (Phase::Streaming, EventView::BodyEnded) => SupervisorView { phase: Phase::Done, ..s },
        (Phase::Streaming, EventView::Tick { now_ms }) => if idle_expired(s, now_ms) {
            SupervisorView { phase: Phase::Failed, ..s }
        } else {
            s
        },
        _ => s,
    }
}

/// The items that the step from `s` on event `e` surfaces.
pub open spec fn next_items(s: SupervisorView, e: EventView) -> Seq<ItemView> {
    match (s.phase, e) {
        (Phase::Connecting, EventView::ConnectFailed(err)) => if s.attempt + 1 < s.max_attempts {
            Seq::empty()
        } else if falls_back(s.intent, s.wire, err) {
            Seq::empty()
        } else {
            seq![Err(err)]
        },
        (Phase::Streaming, EventView::Chunk { bytes, now_ms }) => yielded_by(
            s.wire,
            frame_blocks(s.buf + bytes),
        ),
        (Phase::Streaming, EventView::ReadFailed(err)) => seq![Err(err)],
        (Phase::Streaming, EventView::Tick { now_ms }) => if idle_expired(s, now_ms) {
            seq![Err(idle_failure())]
        } else {
            Seq::empty()
        },
        _ => Seq::empty(),
    }
}

/// Decodes a run of blocks on a wire, up to the first that ends the
/// stream: the items to surface, and how the run leaves the stream.
pub fn surface(wire: ChatWire, blocks: &Vec<Vec<u8>>) -> (r: (Vec<StreamItem>, Phase))
    ensures
        item_views(r.0@) == yielded_by(wire, block_views(blocks@)),
        r.1 == phase_after(wire, block_views(blocks@)),
        r.1 == Phase::Streaming || r.1 == Phase::Done || r.1 == Phase::Failed,
{
    let ghost all = block_views(blocks@);
    let mut items: Vec<StreamItem> = Vec::new();
    let mut i: usize = 0;
    assert(all.subrange(0, all.len() as int) =~= all);
    assert(item_views(items@) =~= Seq::<ItemView>::empty());
    while i < blocks.len()
        invariant
            i <= blocks@.len(),
            all == block_views(blocks@),
            yielded_by(wire, all) == item_views(items@) + yielded_by(
                wire,
                all.subrange(i as int, all.len() as int),
            ),
            phase_after(wire, all) == phase_after(wire, all.subrange(i as int, all.len() as int)),
        decreases blocks@.len() - i,
    {
        let ghost rest = all.subrange(i as int, all.len() as int);
        let ghost before = items@;
        proof {
            assert(rest[0] == blocks@[i as int]@);
            assert(rest.drop_first() =~= all.subrange(i + 1, all.len() as int));
        }
        match decode_block(wire, blocks[i].as_slice()) {
            BlockOutcome::Skip => {},
            BlockOutcome::Yield(d) => {
                items.push(Ok(d));
                assert(item_views(items@) =~= item_views(before) + seq![Ok(d@)]);
            },
            BlockOutcome::End(d) => {
                items.push(Ok(d));
                assert(item_views(items@) =~= item_views(before) + seq![Ok(d@)]);
                return (items, Phase::Done);
            },
            BlockOutcome::Fail(e) => {
                items.push(Err(e));
                assert(item_views(items@) =~= item_views(before) + seq![Err(e@)]);
                return (items, Phase::Failed);
            },
        }
        i = i + 1;
    }
    assert(item_views(items@) + Seq::<ItemView>::empty() =~= item_views(items@));
    (items, Phase::Streaming)
}

impl Supervisor {
    /// A supervisor at the beginning of an exchange. The retry budget is at
    /// least one attempt.
    pub fn new(
        msgs: Vec<Message>,
        opts: ChatOpts,
        intent: ChatWire,
        max_retries: u32,
        idle_ms: u64,
    ) -> (s: Supervisor)
        ensures
            s@ == initial_state(
                message_views(msgs@),
                opts@,
                intent,
                max_retries,
                idle_ms,
            ),
            s@.wf(),
    {
        Supervisor {
            intent,
            wire: resolve_wire(intent),
            max_attempts: if max_retries >= 1 {
                max_retries
            } else {
                1
            },
            idle_ms,
            attempt: 0,
            phase: Phase::Connecting,
            last_progress_ms: 0,
            buf: buf_new(),
            msgs,
            opts,
        }
    }

    /// The action that the supervisor is waiting on.
    pub fn action(&self) -> (a: StreamAction)
        ensures
            a == pending_action(self@),
    {
        match self.phase {
            Phase::Connecting => StreamAction::Connect(self.wire),
            Phase::BackingOff => StreamAction::Sleep(BACKOFF_UNIT_MS * (self.attempt as u64)),
            Phase::Streaming => StreamAction::Read,
            Phase::Failed => StreamAction::Stop,
            Phase::Done => StreamAction::Stop,
        }
    }

    /// The request of the attempt at hand: the conversation and options
    /// that the exchange began with, on the wire in use.
    pub fn request(&self) -> (r: WireRequest)
        ensures
            r@ == request_of(self@.wire, self@.msgs, self@.opts),
    {
        stream_request(self.wire, self.msgs.as_slice(), &self.opts)
    }

    /// Takes one event: moves to the next state and returns the items to
    /// surface, in order, and the next action. An event that the state does
    /// not wait for changes nothing.
    pub fn step(&mut self, event: StreamEvent) -> (r: (Vec<StreamItem>, StreamAction))
        requires
            old(self)@.wf(),
            event@ is Chunk ==> old(self)@.buf.len() + event@->Chunk_bytes.len() <= usize::MAX,
        ensures
            final(self)@ == next_state(old(self)@, event@),
            item_views(r.0@) == next_items(old(self)@, event@),
            r.0@.len() == next_items(old(self)@, event@).len(),
            r.1 == pending_action(final(self)@),
            final(self)@.wf(),
    {
        let mut items: Vec<StreamItem> = Vec::new();
        assert(item_views(items@) =~= Seq::<ItemView>::empty());
        match (self.phase, event) {
            (Phase::Connecting, StreamEvent::Connected { now_ms }) => {
                self.phase = Phase::Streaming;
                self.last_progress_ms = now_ms;
                self.buf = buf_new();
            },
            (Phase::Connecting, StreamEvent::ConnectFailed(err)) => {
                if self.attempt + 1 < self.max_attempts {
                    self.attempt = self.attempt + 1;
                    self.phase = Phase::BackingOff;
                } else if should_fall_back(self.intent, self.wire, &err) {
                    self.wire = ChatWire::Chat;
                    self.attempt = 0;
                } else {
                    self.attempt = self.attempt + 1;
                    self.phase = Phase::Failed;
                    items.push(Err(err));
                    assert(item_views(items@) =~= seq![Err(err@)]);
                }
            },
            (Phase::BackingOff, StreamEvent::BackoffElapsed) => {
                self.phase = Phase::Connecting;
            },
            (Phase::Streaming, StreamEvent::Chunk { bytes, now_ms }) => {
                let blocks = feed(&mut self.buf, bytes.as_slice());
                let (surfaced, phase) = surface(self.wire, &blocks);
                items = surfaced;
                self.phase = phase;
                self.last_progress_ms = now_ms;
            },
            (Phase::Streaming, StreamEvent::ReadFailed(err)) => {
                self.phase = Phase::Failed;
                items.push(Err(err));
                assert(item_views(items@) =~= seq![Err(err@)]);
            },
            (Phase::Streaming, StreamEvent::BodyEnded) => {
                self.phase = Phase::Done;
            },
            (Phase::Streaming, StreamEvent::Tick { now_ms }) => {
                if now_ms > self.last_progress_ms && now_ms - self.last_progress_ms
                    > self.idle_ms {
                    self.phase = Phase::Failed;
                    let e = ChatError::Timeout("idle".to_owned());
                    items.push(Err(e));
                    assert(item_views(items@) =~= seq![Err(idle_failure())]);
                }
            },
            _ => {},
        }
        let a = self.action();
        (items, a)
    }
}

} // verus!
