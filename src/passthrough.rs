use vstd::prelude::*;

use crate::error::{ClientError, ClientErrorView};
use crate::json::{parse_json, parsed_json, print_json, printed_json, JsonValue};
use crate::messages::{event_of_json, events_view, Event, EventView};

verus! {

/// A signal of a server-sent-events source.
#[derive(Debug)]
pub enum SseSignal {
    /// The source opened.
    Open,
    /// A frame arrived; it holds the frame's data.
    Message(String),
    /// The source ended cleanly.
    StreamEnded,
    /// The transport failed; it holds what it said.
    Failed(String),
}

/// What the passthrough adapter does with a signal.
#[derive(Debug)]
pub enum StreamAction {
    /// Nothing: wait for the next signal.
    Skip,
    /// Produce this event.
    Emit(Event),
    /// End the stream without error.
    Finish,
    /// End the stream with this error, after closing the source.
    Fail(ClientError),
}

/// What the adapter does with a frame whose data parsed to `doc` (or failed
/// to parse, for `None`).
pub open spec fn frame_action_ok(doc: Option<crate::json::JsonView>, data: Seq<char>, a: StreamAction) -> bool {
    match doc {
        Some(j) => match event_of_json(j) {
            Some(e) => a matches StreamAction::Emit(x) && x@ == e,
            None => a matches StreamAction::Fail(err) && err@ == ClientErrorView::Decode(data),
        },
        None => a matches StreamAction::Fail(err) && err@ == ClientErrorView::Decode(data),
    }
}

/// What the adapter does with a frame whose data parsed to `j`: the
/// canonical event it denotes, or a decode error carrying the data.
pub fn frame_action(j: &JsonValue, data: &String) -> (r: StreamAction)
    ensures
        frame_action_ok(Some(j@), data@, r),
{
    match Event::from_json(j) {
        Some(e) => StreamAction::Emit(e),
        None => StreamAction::Fail(ClientError::Decode(data.clone())),
    }
}

/// One step of the passthrough adapter: an opening is ignored, a frame's
/// data is read as a canonical event, a clean end finishes the stream and a
/// transport failure fails it.
pub fn passthrough_step(signal: SseSignal) -> (r: StreamAction)
    ensures
        match signal {
            SseSignal::Open => r is Skip,
            SseSignal::Message(data) => frame_action_ok(parsed_json(data@), data@, r),
            SseSignal::StreamEnded => r is Finish,
            SseSignal::Failed(reason) => r matches StreamAction::Fail(e) && e@ == ClientErrorView::Transport(reason@),
        },
{
    match signal {
        SseSignal::Open => StreamAction::Skip,
        SseSignal::Message(data) => match parse_json(data.as_str()) {
            Some(j) => frame_action(&j, &data),
            None => StreamAction::Fail(ClientError::Decode(data)),
        },
        SseSignal::StreamEnded => StreamAction::Finish,
        SseSignal::Failed(reason) => StreamAction::Fail(ClientError::Transport(reason)),
    }
}

/// The text of a request body, or a validation error naming `body` when a
/// number in it (a sampling parameter's decimal text) is no JSON number.
pub fn body_text(body: &JsonValue) -> (r: Result<String, ClientError>)
    ensures
        match printed_json(body@) {
            Some(t) => r matches Ok(s) && s@ == t,
            None => r matches Err(e) && e@ == ClientErrorView::Validation("body"@),
        },
{
    match print_json(body) {
        Some(t) => Ok(t),
        None => Err(ClientError::Validation(String::from_str("body"))),
    }
}

// ----- a whole relayed stream -----

pub enum SignalView {
    Open,
    Message(Seq<char>),
    StreamEnded,
    Failed(Seq<char>),
}

impl View for SseSignal {
    type V = SignalView;

    open spec fn view(&self) -> SignalView {
        match self {
            SseSignal::Open => SignalView::Open,
            SseSignal::Message(d) => SignalView::Message(d@),
            SseSignal::StreamEnded => SignalView::StreamEnded,
            SseSignal::Failed(r) => SignalView::Failed(r@),
        }
    }
}

pub open spec fn signals_view(s: Seq<SseSignal>) -> Seq<SignalView> {
    Seq::new(s.len(), |i: int| s[i]@)
}

/// The canonical event a frame's data denotes, if any.
pub open spec fn frame_event(data: Seq<char>) -> Option<EventView> {
    match parsed_json(data) {
        Some(j) => event_of_json(j),
        None => None,
    }
}

/// What the passthrough adapter makes of a source's signals: the events
/// produced, in order, and the error that ended the stream, if one did. A
/// source that runs out without a clean end simply ends.
pub open spec fn relay(sigs: Seq<SignalView>) -> (Seq<EventView>, Option<ClientErrorView>)
    decreases sigs.len(),
{
    if sigs.len() == 0 {
        (Seq::empty(), None)
    } else {
        match sigs[0] {
            SignalView::Open => relay(sigs.drop_first()),
            SignalView::Message(d) => match frame_event(d) {
                Some(e) => {
                    let (rest, err) = relay(sigs.drop_first());
                    (seq![e] + rest, err)
                },
                None => (Seq::empty(), Some(ClientErrorView::Decode(d))),
            },
            SignalView::StreamEnded => (Seq::empty(), None),
            SignalView::Failed(r) => (Seq::empty(), Some(ClientErrorView::Transport(r))),
        }
    }
}

/// Relays a whole source at once: the events, and the error that ended the
/// stream, exactly as `relay` describes them.
pub fn passthrough_all(signals: Vec<SseSignal>) -> (r: (Vec<Event>, Option<ClientError>))
    ensures
        events_view(r.0@) == relay(signals_view(signals@)).0,
        match r.1 {
            Some(e) => relay(signals_view(signals@)).1 == Some(e@),
            None => relay(signals_view(signals@)).1 is None,
        },
{
    let ghost all = signals_view(signals@);
    let mut rest = signals;
    let mut out: Vec<Event> = Vec::new();
    assert(events_view(out@) + relay(signals_view(rest@)).0 =~= relay(all).0);
    while rest.len() > 0
        invariant
            all == signals_view(signals@),
            relay(all).0 == events_view(out@) + relay(signals_view(rest@)).0,
            relay(all).1 == relay(signals_view(rest@)).1,
        decreases rest@.len(),
    {
        let ghost before = rest@;
        let ghost bv = signals_view(before);
        let sig = rest.remove(0);
        assert(sig@ == bv[0]);
        assert(bv.len() > 0);
        assert(signals_view(rest@) =~= bv.drop_first()) by {
            assert forall|k: int| 0 <= k < rest@.len() implies #[trigger] signals_view(rest@)[k] == bv.drop_first()[k] by {
                assert(rest@[k] == before[k + 1]);
            }
        }
        let ghost out_before = out@;
        match passthrough_step(sig) {
            StreamAction::Skip => {},
            StreamAction::Emit(e) => {
                let ghost ev = e@;
                out.push(e);
                assert(events_view(out@) =~= events_view(out_before).push(ev));
                assert(events_view(out@) + relay(signals_view(rest@)).0 =~= events_view(out_before) + (
                seq![ev] + relay(signals_view(rest@)).0));
            },
            StreamAction::Finish => {
                assert(bv[0] is StreamEnded);
                assert(relay(bv) == (Seq::<EventView>::empty(), None::<ClientErrorView>));
                assert(relay(all).0 =~= events_view(out@));
                return (out, None);
            },
            StreamAction::Fail(e) => {
                assert(relay(all).0 =~= events_view(out@));
                return (out, Some(e));
            },
        }
    }
    assert(relay(all).0 =~= events_view(out@));
    (out, None)
}

/// The passthrough adapter relays a stream as it is: when every frame's data
/// is a canonical event and the source then ends cleanly, the output is
/// exactly those events, in order, with no error. So a canonical stream that
/// opens with a message start and ends with one message delta immediately
/// followed by the message stop comes out with that very shape.
pub proof fn lemma_relay_is_exact(data: Seq<Seq<char>>, events: Seq<EventView>)
    requires
        data.len() == events.len(),
        forall|i: int| 0 <= i < data.len() ==> frame_event(#[trigger] data[i]) == Some(events[i]),
    ensures
        relay(data.map_values(|d: Seq<char>| SignalView::Message(d)).push(SignalView::StreamEnded)) == (
            events,
            None::<ClientErrorView>,
        ),
    decreases data.len(),
{
    let sigs = data.map_values(|d: Seq<char>| SignalView::Message(d)).push(SignalView::StreamEnded);
    if data.len() == 0 {
        assert(sigs[0] == SignalView::StreamEnded);
    } else {
        let d2 = data.drop_first();
        let e2 = events.drop_first();
        assert forall|i: int| 0 <= i < d2.len() implies frame_event(#[trigger] d2[i]) == Some(e2[i]) by {
            assert(d2[i] == data[i + 1]);
        }
        lemma_relay_is_exact(d2, e2);
        assert(sigs.drop_first() =~= d2.map_values(|d: Seq<char>| SignalView::Message(d)).push(SignalView::StreamEnded));
        assert(frame_event(data[0]) == Some(events[0]));
        assert(sigs[0] == SignalView::Message(data[0]));
        assert(seq![events[0]] + e2 =~= events);
    }
}

} // verus!
