use vstd::prelude::*;

use std::collections::HashSet;

use crate::error::{ProtocolViolation, ViolationView};
use crate::json::{object, JsonView};
use crate::messages::{
    events_view, ContentPart, DeltaView, Event, EventMessageDelta, EventView, MessageResponse,
    MessageResponseStream, PartView, ResponseView, StopReason, StreamResponseView, Usage,
};

verus! {

broadcast use vstd::std_specs::hash::group_hash_axioms;

/// The fragment a native block delta carries.
#[derive(Debug)]
pub enum NativeDelta {
    /// A piece of text.
    Text(String),
    /// A piece of a tool invocation's input, as JSON text.
    ToolUse(String),
}

/// What a native block start announces.
#[derive(Debug)]
pub enum NativeBlockStart {
    ToolUse { tool_use_id: String, name: String },
}

/// Token counts as the native stream's trailing metadata reports them.
#[derive(Clone, Copy, Debug, PartialEq, Eq, Structural)]
pub struct NativeUsage {
    pub input_tokens: u32,
    pub output_tokens: u32,
}

/// One event of the gateway's native streaming protocol.
#[derive(Debug)]
pub enum NativeEvent {
    MessageStart,
    ContentBlockStart { index: u64, start: Option<NativeBlockStart> },
    ContentBlockDelta { index: u64, delta: NativeDelta },
    ContentBlockStop { index: u64 },
    MessageStop { stop_reason: StopReason },
    Metadata { usage: Option<NativeUsage> },
    /// An event of a kind that has no canonical form; it holds a description
    /// of the event.
    Unrecognized(String),
}

pub enum NativeDeltaView {
    Text(Seq<char>),
    ToolUse(Seq<char>),
}

pub enum NativeEventView {
    MessageStart,
    ContentBlockStart { index: u64, start: Option<(Seq<char>, Seq<char>)> },
    ContentBlockDelta { index: u64, delta: NativeDeltaView },
    ContentBlockStop { index: u64 },
    MessageStop { stop_reason: StopReason },
    Metadata { usage: Option<NativeUsage> },
    Unrecognized(Seq<char>),
}

impl View for NativeEvent {
    type V = NativeEventView;

    open spec fn view(&self) -> NativeEventView {
        match self {
            NativeEvent::MessageStart => NativeEventView::MessageStart,
            NativeEvent::ContentBlockStart { index, start } => NativeEventView::ContentBlockStart {
                index: *index,
                start: match start {
                    Some(NativeBlockStart::ToolUse { tool_use_id, name }) => Some(
                        (tool_use_id@, name@),
                    ),
                    None => None,
                },
            },
            NativeEvent::ContentBlockDelta { index, delta } => NativeEventView::ContentBlockDelta {
                index: *index,
                delta: match delta {
                    NativeDelta::Text(t) => NativeDeltaView::Text(t@),
                    NativeDelta::ToolUse(t) => NativeDeltaView::ToolUse(t@),
                },
            },
            NativeEvent::ContentBlockStop { index } => NativeEventView::ContentBlockStop {
                index: *index,
            },
            NativeEvent::MessageStop { stop_reason } => NativeEventView::MessageStop {
                stop_reason: *stop_reason,
            },
            NativeEvent::Metadata { usage } => NativeEventView::Metadata { usage: *usage },
            NativeEvent::Unrecognized(d) => NativeEventView::Unrecognized(d@),
        }
    }
}

/// The bookkeeping of one reconstructed stream.
pub struct AdapterState {
    /// The block indices already announced with a block start.
    pub announced: Set<u64>,
    /// The end-of-turn information waiting for its usage.
    pub staged: Option<DeltaView>,
    /// Whether the stream's one end-of-turn signal has come.
    pub stopped: bool,
    /// Whether the stream has failed; it then produces nothing more.
    pub failed: bool,
}

/// The state of a stream before its first native event.
pub open spec fn fresh_state() -> AdapterState {
    AdapterState { announced: Set::empty(), staged: None, stopped: false, failed: false }
}

/// The empty text block that stands for a block the native stream did not
/// announce.
pub open spec fn empty_text() -> PartView {
    PartView::Text { text: Seq::empty() }
}

/// The canonical form of a native block start: a tool invocation with an
/// empty input object, or else an empty text block.
pub open spec fn start_part(start: Option<(Seq<char>, Seq<char>)>) -> PartView {
    match start {
        Some((id, name)) => PartView::ToolUse { id, name, input: JsonView::Object(Seq::empty()) },
        None => empty_text(),
    }
}

/// The canonical form of a native block delta.
pub open spec fn delta_part(d: NativeDeltaView) -> PartView {
    match d {
        NativeDeltaView::Text(t) => PartView::TextDelta { text: t },
        NativeDeltaView::ToolUse(t) => PartView::InputJsonDelta { partial_json: t },
    }
}

/// The event that opens every reconstructed stream: a message with no
/// content and zero usage.
pub open spec fn opening_event(request_id: Seq<char>, model: Seq<char>) -> EventView {
    EventView::MessageStart {
        message: StreamResponseView {
            kind: "message"@,
            response: ResponseView {
                id: request_id,
                model,
                role: "assistant"@,
                content: Seq::empty(),
                stop_reason: None,
                stop_sequence: None,
                usage: Usage { input_tokens: Some(0), output_tokens: 0 },
            },
        },
    }
}

/// Whether the stream is complete: its end-of-turn signal came and its
/// message delta and message stop went out.
pub open spec fn finished(st: AdapterState) -> bool {
    st.stopped && st.staged is None
}

/// The step for an event about the message's content, in a stream that is
/// not complete.
pub open spec fn content_step(st: AdapterState, ev: NativeEventView) -> (AdapterState, Seq<EventView>) {
    match ev {
        NativeEventView::ContentBlockDelta { index, delta } => {
            let d = EventView::ContentBlockDelta { index, delta: delta_part(delta) };
            if st.announced.contains(index) {
                (st, seq![d])
            } else {
                (
                    AdapterState { announced: st.announced.insert(index), ..st },
                    seq![EventView::ContentBlockStart { index, content_block: empty_text() }, d],
                )
            }
        },
        NativeEventView::ContentBlockStart { index, start } => (
            AdapterState { announced: st.announced.insert(index), ..st },
            seq![EventView::ContentBlockStart { index, content_block: start_part(start) }],
        ),
        NativeEventView::ContentBlockStop { index } => (st, seq![EventView::ContentBlockStop { index }]),
        _ => (st, Seq::empty()),
    }
}

/// One step of the adapter: the next state, the canonical events produced,
/// and the broken rule, if the native event broke one. A stream has one
/// end-of-turn signal: a second one, even after its usage, is a broken rule.
/// Once the message stop went out, content events produce nothing.
pub open spec fn step(st: AdapterState, ev: NativeEventView) -> (AdapterState, Seq<EventView>, Option<ViolationView>) {
    let fail = AdapterState { failed: true, ..st };
    if st.failed {
        (st, Seq::empty(), None)
    } else {
        match ev {
            NativeEventView::MessageStop { stop_reason } => if st.stopped {
                (fail, Seq::empty(), Some(ViolationView::DuplicatedTerminalSignal))
            } else {
                (
                    AdapterState {
                        staged: Some(DeltaView { stop_reason, stop_sequence: None }),
                        stopped: true,
                        ..st
                    },
                    Seq::empty(),
                    None,
                )
            },
            NativeEventView::Metadata { usage } => match (st.staged, usage) {
                (None, _) => (fail, Seq::empty(), Some(ViolationView::MissingStopReason)),
                (Some(_), None) => (
                    fail,
                    Seq::empty(),
                    Some(ViolationView::UnrecognizedEvent("metadata without usage"@)),
                ),
                (Some(delta), Some(u)) => (
                    AdapterState { staged: None, ..st },
                    seq![
                        EventView::MessageDelta {
                            delta,
                            usage: Usage {
                                input_tokens: Some(u.input_tokens),
                                output_tokens: u.output_tokens,
                            },
                        },
                        EventView::MessageStop,
                    ],
                    None,
                ),
            },
            NativeEventView::Unrecognized(d) => (
                fail,
                Seq::empty(),
                Some(ViolationView::UnrecognizedEvent(d)),
            ),
            _ => if finished(st) {
                (st, Seq::empty(), None)
            } else {
                let (next, out) = content_step(st, ev);
                (next, out, None)
            },
        }
    }
}

/// The adapter's reconstruction of a canonical stream so far: its state,
/// the events produced, and the broken rules reported.
pub struct Run {
    pub state: AdapterState,
    pub output: Seq<EventView>,
    pub errors: Seq<ViolationView>,
}

/// A run after one more native event.
pub open spec fn advance(r: Run, ev: NativeEventView) -> Run {
    let (st, out, err) = step(r.state, ev);
    Run {
        state: st,
        output: r.output + out,
        errors: match err {
            Some(p) => r.errors.push(p),
            None => r.errors,
        },
    }
}

/// A run after the native events `evs`, in order.
pub open spec fn run_from(r: Run, evs: Seq<NativeEventView>) -> Run
    decreases evs.len(),
{
    if evs.len() == 0 {
        r
    } else {
        run_from(advance(r, evs[0]), evs.drop_first())
    }
}

/// The whole reconstruction of a stream whose native events are `evs`.
pub open spec fn run(request_id: Seq<char>, model: Seq<char>, evs: Seq<NativeEventView>) -> Run {
    run_from(
        Run {
            state: fresh_state(),
            output: seq![opening_event(request_id, model)],
            errors: Seq::empty(),
        },
        evs,
    )
}

/// The per-stream bookkeeping of the reconstruction adapter.
pub struct Reconstructor {
    announced: HashSet<u64>,
    staged: Option<EventMessageDelta>,
    stopped: bool,
    failed: bool,
}

impl View for Reconstructor {
    type V = AdapterState;

    closed spec fn view(&self) -> AdapterState {
        AdapterState {
            announced: self.announced@,
            staged: match self.staged {
                Some(d) => Some(d@),
                None => None,
            },
            stopped: self.stopped,
            failed: self.failed,
        }
    }
}

impl Reconstructor {
    /// The bookkeeping of a stream that has seen no native event yet.
    pub fn new() -> (r: Reconstructor)
        ensures
            r@ == fresh_state(),
    {
        Reconstructor { announced: HashSet::new(), staged: None, stopped: false, failed: false }
    }

    /// The event to emit as soon as the stream is acquired.
    pub fn opening_event(request_id: &String, model: &String) -> (r: Event)
        ensures
            r@ == opening_event(request_id@, model@),
    {
        let r = Event::MessageStart {
            message: MessageResponseStream {
                kind: String::from_str("message"),
                message_response: MessageResponse {
                    id: request_id.clone(),
                    model: model.clone(),
                    role: String::from_str("assistant"),
                    content: Vec::new(),
                    stop_reason: None,
                    stop_sequence: None,
                    usage: Usage { input_tokens: Some(0), output_tokens: 0 },
                },
            },
        };
        assert(r@ == opening_event(request_id@, model@)) by {
            let ghost m = r->MessageStart_message;
            assert(crate::messages::parts_view(m.message_response.content@) =~= Seq::<PartView>::empty());
        }
        r
    }

    /// Whether the stream has failed.
    pub fn has_failed(&self) -> (r: bool)
        ensures
            r == self@.failed,
    {
        self.failed
    }

    /// Consumes one native event: the canonical events it produces, or the
    /// rule it broke. After a broken rule nothing more is produced.
    pub fn feed(&mut self, ev: NativeEvent) -> (r: Result<Vec<Event>, ProtocolViolation>)
        ensures
            ({
                let (st, out, err) = step(old(self)@, ev@);
                &&& final(self)@ == st
                &&& match r {
                    Ok(events) => events_view(events@) == out && err is None,
                    Err(p) => out.len() == 0 && err == Some(p@),
                }
            }),
    {
        if self.failed {
            let v: Vec<Event> = Vec::new();
            assert(events_view(v@) =~= Seq::<EventView>::empty());
            return Ok(v);
        }
        let complete = self.stopped && self.staged.is_none();
        match ev {
            NativeEvent::MessageStop { stop_reason } => {
                if self.stopped {
                    self.failed = true;
                    return Err(ProtocolViolation::DuplicatedTerminalSignal);
                } else {
                    self.staged = Some(EventMessageDelta { stop_reason, stop_sequence: None });
                    self.stopped = true;
                    let v: Vec<Event> = Vec::new();
                    assert(events_view(v@) =~= Seq::<EventView>::empty());
                    return Ok(v);
                }
            },
            NativeEvent::Metadata { usage } => {
                return match (self.staged.take(), usage) {
                    (None, _) => {
                        self.failed = true;
                        Err(ProtocolViolation::MissingStopReason)
                    },
                    (Some(delta), None) => {
                        self.staged = Some(delta);
                        self.failed = true;
                        Err(ProtocolViolation::UnrecognizedEvent(String::from_str("metadata without usage")))
                    },
                    (Some(delta), Some(u)) => {
                        let v = vec![
                            Event::MessageDelta {
                                delta,
                                usage: Usage {
                                    input_tokens: Some(u.input_tokens),
                                    output_tokens: u.output_tokens,
                                },
                            },
                            Event::MessageStop,
                        ];
                        assert(events_view(v@) =~= seq![v@[0]@, v@[1]@]);
                        Ok(v)
                    },
                };
            },
            NativeEvent::Unrecognized(d) => {
                self.failed = true;
                return Err(ProtocolViolation::UnrecognizedEvent(d));
            },
            _ => {},
        }
        if complete {
            let v: Vec<Event> = Vec::new();
            assert(events_view(v@) =~= Seq::<EventView>::empty());
            return Ok(v);
        }
        match ev {
            NativeEvent::MessageStart => {
                let v: Vec<Event> = Vec::new();
                assert(events_view(v@) =~= Seq::<EventView>::empty());
                Ok(v)
            },
            NativeEvent::ContentBlockDelta { index, delta } => {
                let part = match delta {
                    NativeDelta::Text(t) => ContentPart::TextDelta { text: t },
                    NativeDelta::ToolUse(t) => ContentPart::InputJsonDelta { partial_json: t },
                };
                let d = Event::ContentBlockDelta { index, delta: part };
                if self.announced.contains(&index) {
                    let v = vec![d];
                    assert(events_view(v@) =~= seq![v@[0]@]);
                    Ok(v)
                } else {
                    self.announced.insert(index);
                    let s = Event::ContentBlockStart {
                        index,
                        content_block: ContentPart::Text { text: String::new() },
                    };
                    let v = vec![s, d];
                    assert(events_view(v@) =~= seq![v@[0]@, v@[1]@]);
                    Ok(v)
                }
            },
            NativeEvent::ContentBlockStart { index, start } => {
                let ghost before = self.announced@;
                self.announced.insert(index);
                assert(self.announced@ =~= before.insert(index));
                let part = match start {
                    Some(NativeBlockStart::ToolUse { tool_use_id, name }) => {
                        let input = object(Vec::new());
                        assert(input@ == JsonView::Object(Seq::empty())) by {
                            assert(input@->Object_0 =~= Seq::<(Seq<char>, JsonView)>::empty());
                        }
                        ContentPart::ToolUse { id: tool_use_id, name, input }
                    },
                    None => ContentPart::Text { text: String::new() },
                };
                let v = vec![Event::ContentBlockStart { index, content_block: part }];
                assert(events_view(v@) =~= seq![v@[0]@]);
                Ok(v)
            },
            NativeEvent::ContentBlockStop { index } => {
                let v = vec![Event::ContentBlockStop { index }];
                assert(events_view(v@) =~= seq![v@[0]@]);
                Ok(v)
            },
            _ => {
                let v: Vec<Event> = Vec::new();
                assert(events_view(v@) =~= Seq::<EventView>::empty());
                Ok(v)
            },
        }
    }
}


/// The views of a list of broken rules.
pub open spec fn violations_view(s: Seq<ProtocolViolation>) -> Seq<ViolationView> {
    Seq::new(s.len(), |i: int| s[i]@)
}

/// The views of a list of native events.
pub open spec fn natives_view(s: Seq<NativeEvent>) -> Seq<NativeEventView> {
    Seq::new(s.len(), |i: int| s[i]@)
}

/// Reconstructs a whole native stream at once: the canonical events, from
/// the opening one on, and the broken rules, exactly as `run` describes them.
pub fn reconstruct_all(request_id: &String, model: &String, native: Vec<NativeEvent>) -> (r: (
    Vec<Event>,
    Vec<ProtocolViolation>,
))
    ensures
        events_view(r.0@) == run(request_id@, model@, natives_view(native@)).output,
        violations_view(r.1@) == run(request_id@, model@, natives_view(native@)).errors,
{
    let ghost all = natives_view(native@);
    let ghost init = Run {
        state: fresh_state(),
        output: seq![opening_event(request_id@, model@)],
        errors: Seq::empty(),
    };
    let mut rest = native;
    let mut adapter = Reconstructor::new();
    let mut out = vec![Reconstructor::opening_event(request_id, model)];
    let mut errors: Vec<ProtocolViolation> = Vec::new();
    let ghost mut done: int = 0;
    assert(events_view(out@) =~= init.output);
    assert(violations_view(errors@) =~= Seq::<ViolationView>::empty());
    assert(all.subrange(0, 0) =~= Seq::<NativeEventView>::empty());
    assert(natives_view(rest@) =~= all.subrange(0, all.len() as int));
    while rest.len() > 0
        invariant
            0 <= done <= all.len(),
            natives_view(rest@) == all.subrange(done, all.len() as int),
            adapter@ == run(request_id@, model@, all.subrange(0, done)).state,
            events_view(out@) == run(request_id@, model@, all.subrange(0, done)).output,
            violations_view(errors@) == run(request_id@, model@, all.subrange(0, done)).errors,
            init == (Run {
                state: fresh_state(),
                output: seq![opening_event(request_id@, model@)],
                errors: Seq::empty(),
            }),
        decreases rest@.len(),
    {
        let ghost before_rest = rest@;
        assert(natives_view(before_rest).len() == before_rest.len());
        assert(done < all.len());
        let e = rest.remove(0);
        let ghost ev = e@;
        assert(ev == all[done]) by {
            assert(e == before_rest[0]);
            assert(natives_view(before_rest)[0] == before_rest[0]@);
            assert(natives_view(before_rest)[0] == all.subrange(done, all.len() as int)[0]);
            assert(all.subrange(done, all.len() as int)[0] == all[done]);
        }
        assert(natives_view(rest@) =~= all.subrange(done + 1, all.len() as int)) by {
            assert forall|k: int| 0 <= k < rest@.len() implies #[trigger] natives_view(rest@)[k] == all.subrange(done + 1, all.len() as int)[k] by {
                assert(rest@ == before_rest.remove(0));
                assert(rest@[k] == before_rest[k + 1]);
                assert(natives_view(before_rest)[k + 1] == before_rest[k + 1]@);
                assert(natives_view(before_rest)[k + 1] == all.subrange(done, all.len() as int)[k + 1]);
                assert(all.subrange(done, all.len() as int)[k + 1] == all[done + 1 + k]);
                assert(natives_view(rest@)[k] == rest@[k]@);
            }
        }
        let ghost prefix = all.subrange(0, done);
        proof {
            lemma_run_push(init, prefix, ev);
            assert(all.subrange(0, done + 1) =~= prefix.push(ev));
        }
        let ghost out_before = out@;
        match adapter.feed(e) {
            Ok(mut produced) => {
                let ghost pv = produced@;
                out.append(&mut produced);
                assert(events_view(out@) =~= events_view(out_before) + events_view(pv));
            },
            Err(p) => {
                let ghost errors_before = errors@;
                let ghost pv = p@;
                errors.push(p);
                assert(violations_view(errors@) =~= violations_view(errors_before).push(pv));
                assert(out@ == out_before);
            },
        }
        proof {
            done = done + 1;
        }
    }
    assert(all.subrange(0, all.len() as int) =~= all);
    (out, errors)
}

// ----- laws of the reconstructed stream -----

/// Whether the event at `j` starts the block `index`.
pub open spec fn starts_block(out: Seq<EventView>, j: int, index: u64) -> bool {
    out[j] matches EventView::ContentBlockStart { index: k, .. } && k == index
}

pub open spec fn is_metadata(e: NativeEventView) -> bool {
    e is Metadata
}

pub open spec fn is_terminal(e: NativeEventView) -> bool {
    e is MessageStop
}

proof fn lemma_run_concat(r: Run, a: Seq<NativeEventView>, b: Seq<NativeEventView>)
    ensures
        run_from(r, a + b) == run_from(run_from(r, a), b),
    decreases a.len(),
{
    if a.len() == 0 {
        assert(a + b =~= b);
    } else {
        assert((a + b).drop_first() =~= a.drop_first() + b);
        assert((a + b)[0] == a[0]);
        lemma_run_concat(advance(r, a[0]), a.drop_first(), b);
    }
}

proof fn lemma_run_push(r: Run, a: Seq<NativeEventView>, e: NativeEventView)
    ensures
        run_from(r, a.push(e)) == advance(run_from(r, a), e),
{
    assert(a.push(e) =~= a + seq![e]);
    lemma_run_concat(r, a, seq![e]);
    let x = run_from(r, a);
    assert(seq![e].drop_first() =~= Seq::<NativeEventView>::empty());
    assert(run_from(x, seq![e]) == run_from(advance(x, e), Seq::<NativeEventView>::empty()));
}

/// A failed stream stays as it is, whatever else comes.
proof fn lemma_failed_sticky(r: Run, m: Seq<NativeEventView>)
    requires
        r.state.failed,
    ensures
        run_from(r, m) == r,
    decreases m.len(),
{
    if m.len() > 0 {
        assert(r.output + Seq::<EventView>::empty() =~= r.output);
        assert(advance(r, m[0]) == r);
        lemma_failed_sticky(r, m.drop_first());
    }
}

/// Once the end-of-turn signal has come, the stream remembers it.
proof fn lemma_stopped_kept(r: Run, m: Seq<NativeEventView>)
    requires
        r.state.stopped,
    ensures
        run_from(r, m).state.stopped,
    decreases m.len(),
{
    if m.len() > 0 {
        lemma_stopped_kept(advance(r, m[0]), m.drop_first());
    }
}

/// Nothing is staged until an end-of-turn signal comes.
proof fn lemma_unstaged_kept(r: Run, m: Seq<NativeEventView>)
    requires
        r.state.staged is None,
        forall|i: int| 0 <= i < m.len() ==> !is_terminal(#[trigger] m[i]),
    ensures
        run_from(r, m).state.staged is None,
    decreases m.len(),
{
    if m.len() > 0 {
        assert(!is_terminal(m[0]));
        let m2 = m.drop_first();
        assert forall|i: int| 0 <= i < m2.len() implies !is_terminal(#[trigger] m2[i]) by {
            assert(m2[i] == m[i + 1]);
        }
        lemma_unstaged_kept(advance(r, m[0]), m2);
    }
}

/// What holds of every reconstruction, whatever the native events.
proof fn lemma_run_invariants(request_id: Seq<char>, model: Seq<char>, evs: Seq<NativeEventView>)
    ensures
        ({
            let r = run(request_id, model, evs);
            let out = r.output;
            &&& out.len() >= 1
            &&& out[0] == opening_event(request_id, model)
            &&& (r.state.failed <==> r.errors.len() > 0)
            &&& r.errors.len() <= 1
            &&& (r.state.staged is Some ==> r.state.stopped)
            &&& forall|k: u64| #[trigger] r.state.announced.contains(k) ==> exists|j: int|
                0 <= j < out.len() && starts_block(out, j, k)
            &&& forall|i: int| 0 <= i < out.len() && (#[trigger] out[i]) is ContentBlockDelta
                ==> exists|j: int| 0 <= j < i && starts_block(out, j, out[i]->ContentBlockDelta_index)
            &&& !finished(r.state) ==> forall|i: int|
                1 <= i < out.len() ==> !((#[trigger] out[i]) is MessageDelta) && !(out[i] is MessageStop)
            &&& finished(r.state) ==> {
                &&& out.len() >= 3
                &&& out.last() is MessageStop
                &&& out[out.len() - 2] is MessageDelta
                &&& forall|i: int| 0 <= i < out.len() - 2 ==> !((#[trigger] out[i]) is MessageDelta) && !(out[i] is MessageStop)
            }
            &&& (r.errors.len() == 0 && exists|i: int| 0 <= i < evs.len() && is_metadata(#[trigger] evs[i]))
                ==> finished(r.state)
        }),
    decreases evs.len(),
{
    let init = Run {
        state: fresh_state(),
        output: seq![opening_event(request_id, model)],
        errors: Seq::empty(),
    };
    if evs.len() == 0 {
        assert(run(request_id, model, evs) == init);
    } else {
        let p = evs.drop_last();
        let e = evs.last();
        assert(evs =~= p.push(e));
        lemma_run_invariants(request_id, model, p);
        lemma_run_push(init, p, e);
        let before = run(request_id, model, p);
        let after = run(request_id, model, evs);
        assert(after == advance(before, e));
        let (st, out, err) = step(before.state, e);
        assert(after.output == before.output + out);
        assert forall|i: int| 0 <= i < before.output.len() implies after.output[i] == before.output[i] by {}
        assert forall|k: u64| #[trigger] after.state.announced.contains(k) implies exists|j: int|
            0 <= j < after.output.len() && starts_block(after.output, j, k) by {
            if before.state.announced.contains(k) {
                let j = choose|j: int| 0 <= j < before.output.len() && starts_block(before.output, j, k);
                assert(starts_block(after.output, j, k));
            } else {
                let n = before.output.len() as int;
                assert(starts_block(after.output, n, k));
            }
        }
        assert forall|i: int| 0 <= i < after.output.len() && (#[trigger] after.output[i]) is ContentBlockDelta
            implies exists|j: int| 0 <= j < i && starts_block(after.output, j, after.output[i]->ContentBlockDelta_index) by {
            let n = before.output.len() as int;
            let k = after.output[i]->ContentBlockDelta_index;
            if i < n {
                assert(before.output[i] is ContentBlockDelta);
                let j = choose|j: int| 0 <= j < i && starts_block(before.output, j, k);
                assert(starts_block(after.output, j, k));
            } else if before.state.announced.contains(k) {
                let j = choose|j: int| 0 <= j < before.output.len() && starts_block(before.output, j, k);
                assert(starts_block(after.output, j, k));
            } else {
                assert(starts_block(after.output, n, k));
            }
        }
        if finished(before.state) {
            assert(out.len() == 0);
            assert(after.output =~= before.output);
        }
        if !finished(before.state) && finished(after.state) {
            assert(out.len() == 2);
            let n = before.output.len() as int;
            assert forall|i: int| 0 <= i < after.output.len() - 2 implies !((#[trigger] after.output[i]) is MessageDelta) && !(after.output[i] is MessageStop) by {
                assert(after.output[i] == before.output[i]);
                if i == 0 {
                    assert(before.output[0] == opening_event(request_id, model));
                }
            }
        }
        if !finished(after.state) {
            assert(!finished(before.state));
            assert forall|i: int| 1 <= i < after.output.len() implies !((#[trigger] after.output[i]) is MessageDelta) && !(after.output[i] is MessageStop) by {
                if i < before.output.len() {
                    assert(after.output[i] == before.output[i]);
                }
            }
        }
        if after.errors.len() == 0 && exists|i: int| 0 <= i < evs.len() && is_metadata(#[trigger] evs[i]) {
            assert(before.errors.len() == 0);
            if !is_metadata(e) {
                let i = choose|i: int| 0 <= i < evs.len() && is_metadata(#[trigger] evs[i]);
                assert(i < p.len());
                assert(p[i] == evs[i]);
                assert(finished(before.state));
            }
        }
    }
}

/// The reconstructed stream always opens with the synthesized message start,
/// whatever the native events.
pub proof fn lemma_stream_opens_with_message_start(
    request_id: Seq<char>,
    model: Seq<char>,
    evs: Seq<NativeEventView>,
)
    ensures
        run(request_id, model, evs).output.len() >= 1,
        run(request_id, model, evs).output[0] == opening_event(request_id, model),
        run(request_id, model, evs).output[0] is MessageStart,
{
    lemma_run_invariants(request_id, model, evs);
}

/// A successful stream, whose native events bring the trailing metadata and
/// break no rule, opens with the message start and ends with one message
/// delta immediately followed by the message stop; no other message delta or
/// message stop comes anywhere before.
pub proof fn lemma_completed_stream_shape(
    request_id: Seq<char>,
    model: Seq<char>,
    evs: Seq<NativeEventView>,
)
    requires
        exists|i: int| 0 <= i < evs.len() && is_metadata(#[trigger] evs[i]),
        run(request_id, model, evs).errors.len() == 0,
    ensures
        ({
            let out = run(request_id, model, evs).output;
            &&& out.len() >= 3
            &&& out[0] is MessageStart
            &&& out.last() is MessageStop
            &&& out[out.len() - 2] is MessageDelta
            &&& forall|i: int| 0 <= i < out.len() - 2 ==> !((#[trigger] out[i]) is MessageDelta) && !(out[i] is MessageStop)
        }),
{
    lemma_run_invariants(request_id, model, evs);
}

/// Every block delta of a reconstructed stream comes after a block start
/// for the same index, whatever the native events: the adapter synthesizes
/// a start for an index that the native stream never announced.
pub proof fn lemma_delta_follows_start(request_id: Seq<char>, model: Seq<char>, evs: Seq<NativeEventView>)
    ensures
        ({
            let out = run(request_id, model, evs).output;
            forall|i: int| 0 <= i < out.len() && (#[trigger] out[i]) is ContentBlockDelta
                ==> exists|j: int| 0 <= j < i && starts_block(out, j, out[i]->ContentBlockDelta_index)
        }),
{
    lemma_run_invariants(request_id, model, evs);
}

/// A second end-of-turn signal in one stream, whatever came between the
/// two, leaves the stream with exactly one broken rule and produces nothing,
/// then or after. When no rule broke before it, that rule is the duplicated
/// terminal signal.
pub proof fn lemma_duplicated_stop_fails(
    request_id: Seq<char>,
    model: Seq<char>,
    before: Seq<NativeEventView>,
    first: StopReason,
    between: Seq<NativeEventView>,
    second: StopReason,
    after: Seq<NativeEventView>,
)
    ensures
        ({
            let upto = before.push(NativeEventView::MessageStop { stop_reason: first }) + between;
            let all = upto.push(NativeEventView::MessageStop { stop_reason: second }) + after;
            &&& run(request_id, model, all).errors.len() == 1
            &&& run(request_id, model, all).output == run(request_id, model, upto).output
            &&& run(request_id, model, upto).errors.len() == 0 ==> run(request_id, model, all).errors
                == seq![ViolationView::DuplicatedTerminalSignal]
        }),
{
    let init = Run {
        state: fresh_state(),
        output: seq![opening_event(request_id, model)],
        errors: Seq::empty(),
    };
    let stop1 = NativeEventView::MessageStop { stop_reason: first };
    let stop2 = NativeEventView::MessageStop { stop_reason: second };
    let a = before.push(stop1);
    let upto = a + between;
    lemma_run_concat(init, a, between);
    lemma_run_push(init, before, stop1);
    lemma_run_invariants(request_id, model, before);
    lemma_run_invariants(request_id, model, upto);
    let r0 = run(request_id, model, before);
    let r1 = run(request_id, model, a);
    let r2 = run(request_id, model, upto);
    lemma_errors_grow(r1, between);
    assert(r1 == advance(r0, stop1));
    lemma_run_push(init, upto, stop2);
    let r3 = run(request_id, model, upto.push(stop2));
    assert(r3 == advance(r2, stop2));
    lemma_run_concat(init, upto.push(stop2), after);
    if r2.state.failed {
        assert(r3 == r2) by {
            assert(r2.output + Seq::<EventView>::empty() =~= r2.output);
        }
        lemma_failed_sticky(r3, after);
    } else {
        assert(r2.errors.len() == 0);
        assert(r0.errors.len() == 0);
        assert(!r0.state.failed);
        assert(r1.state.stopped);
        lemma_stopped_kept(r1, between);
        assert(r3.errors =~= seq![ViolationView::DuplicatedTerminalSignal]);
        assert(r3.output =~= r2.output);
        lemma_failed_sticky(r3, after);
    }
}

/// The rules reported only accumulate as the stream goes on.
proof fn lemma_errors_grow(r: Run, m: Seq<NativeEventView>)
    ensures
        run_from(r, m).errors.len() >= r.errors.len(),
    decreases m.len(),
{
    if m.len() > 0 {
        lemma_errors_grow(advance(r, m[0]), m.drop_first());
    }
}

/// Trailing metadata that comes before any end-of-turn signal leaves the
/// stream with exactly one broken rule and produces nothing, then or after.
/// When no rule broke before it, that rule is the missing stop reason.
pub proof fn lemma_metadata_before_stop_fails(
    request_id: Seq<char>,
    model: Seq<char>,
    before: Seq<NativeEventView>,
    usage: Option<NativeUsage>,
    after: Seq<NativeEventView>,
)
    requires
        forall|i: int| 0 <= i < before.len() ==> !is_terminal(#[trigger] before[i]),
    ensures
        ({
            let all = before.push(NativeEventView::Metadata { usage }) + after;
            &&& run(request_id, model, all).errors.len() == 1
            &&& run(request_id, model, all).output == run(request_id, model, before).output
            &&& run(request_id, model, before).errors.len() == 0 ==> run(request_id, model, all).errors
                == seq![ViolationView::MissingStopReason]
        }),
{
    let init = Run {
        state: fresh_state(),
        output: seq![opening_event(request_id, model)],
        errors: Seq::empty(),
    };
    let meta = NativeEventView::Metadata { usage };
    lemma_run_invariants(request_id, model, before);
    lemma_unstaged_kept(init, before);
    let r0 = run(request_id, model, before);
    lemma_run_push(init, before, meta);
    let r1 = run(request_id, model, before.push(meta));
    assert(r1 == advance(r0, meta));
    lemma_run_concat(init, before.push(meta), after);
    if r0.state.failed {
        assert(r1 == r0) by {
            assert(r0.output + Seq::<EventView>::empty() =~= r0.output);
        }
        lemma_failed_sticky(r1, after);
    } else {
        assert(r1.errors =~= seq![ViolationView::MissingStopReason]);
        assert(r1.output =~= r0.output);
        lemma_failed_sticky(r1, after);
    }
}

/// Whether a native event starts, or adds to, the block `index`.
pub open spec fn mentions(e: NativeEventView, index: u64) -> bool {
    ||| e matches NativeEventView::ContentBlockStart { index: k, .. } && k == index
    ||| e matches NativeEventView::ContentBlockDelta { index: k, .. } && k == index
}

/// Only an index that some native event mentioned is ever announced.
proof fn lemma_announced_mentioned(request_id: Seq<char>, model: Seq<char>, evs: Seq<NativeEventView>, index: u64)
    requires
        forall|i: int| 0 <= i < evs.len() ==> !mentions(#[trigger] evs[i], index),
    ensures
        !run(request_id, model, evs).state.announced.contains(index),
    decreases evs.len(),
{
    let init = Run {
        state: fresh_state(),
        output: seq![opening_event(request_id, model)],
        errors: Seq::empty(),
    };
    if evs.len() == 0 {
        assert(run(request_id, model, evs) == init);
    } else {
        let p = evs.drop_last();
        let e = evs.last();
        assert(evs =~= p.push(e));
        assert forall|i: int| 0 <= i < p.len() implies !mentions(#[trigger] p[i], index) by {
            assert(p[i] == evs[i]);
        }
        assert(!mentions(evs[evs.len() - 1], index));
        lemma_announced_mentioned(request_id, model, p, index);
        lemma_run_push(init, p, e);
    }
}

/// A delta for a block that no earlier native event mentioned, in a stream
/// that has neither failed nor completed, comes out immediately after a
/// synthesized block start for it, an empty text block.
pub proof fn lemma_unannounced_delta_gets_start(
    request_id: Seq<char>,
    model: Seq<char>,
    before: Seq<NativeEventView>,
    index: u64,
    delta: NativeDeltaView,
)
    requires
        forall|i: int| 0 <= i < before.len() ==> !mentions(#[trigger] before[i], index),
        !run(request_id, model, before).state.failed,
        !finished(run(request_id, model, before).state),
    ensures
        run(request_id, model, before.push(NativeEventView::ContentBlockDelta { index, delta })).output
            == run(request_id, model, before).output + seq![
            EventView::ContentBlockStart { index, content_block: empty_text() },
            EventView::ContentBlockDelta { index, delta: delta_part(delta) },
        ],
{
    let init = Run {
        state: fresh_state(),
        output: seq![opening_event(request_id, model)],
        errors: Seq::empty(),
    };
    lemma_announced_mentioned(request_id, model, before, index);
    lemma_run_push(init, before, NativeEventView::ContentBlockDelta { index, delta });
}

} // verus!
