//! The outbound pump: the only writer of its stream.
//!
//! The pump takes queued messages in the order in which the queue releases
//! them and puts each on the wire as one line, flushed before the next is
//! looked at. A message that cannot be encoded is dropped and the pump goes
//! on. A failed write or flush ends the pump for good.

use vstd::prelude::*;

use crate::frame::{frame, frame_bytes, wire};
use crate::log::{Failure, FailureView};
use crate::stream::Stream;

verus! {

/// Where a pump stands.
#[derive(Clone, Copy, Debug, PartialEq, Eq)]
pub enum PumpState {
    /// Messages are taken and written.
    Running,
    /// The queue was closed and drained: the pump ended in good order.
    Finished,
    /// A write or flush failed: the pump ended, and nothing more is written.
    Dead,
}

/// What happened since the pump last said what to do.
#[derive(Debug, PartialEq, Eq)]
pub enum PumpEvent {
    /// The queue released a message. It comes as the codec left it: the line
    /// that renders it, or the reason why it cannot be rendered.
    Message(Result<String, String>),
    /// The queue is empty and its last producer is gone.
    Closed,
    /// The write that the pump asked for ended, in success or with a reason.
    Written(Result<(), String>),
    /// The flush that the pump asked for ended, in success or with a reason.
    Flushed(Result<(), String>),
}

/// What a [`PumpEvent`] says, with each text as a sequence of characters.
pub enum PumpEventView {
    Message(Result<Seq<char>, Seq<char>>),
    Closed,
    Written(Result<(), Seq<char>>),
    Flushed(Result<(), Seq<char>>),
}

impl View for PumpEvent {
    type V = PumpEventView;

    open spec fn view(&self) -> PumpEventView {
        match self {
            PumpEvent::Message(Ok(line)) => PumpEventView::Message(Ok(line@)),
            PumpEvent::Message(Err(detail)) => PumpEventView::Message(Err(detail@)),
            PumpEvent::Closed => PumpEventView::Closed,
            PumpEvent::Written(Ok(())) => PumpEventView::Written(Ok(())),
            PumpEvent::Written(Err(detail)) => PumpEventView::Written(Err(detail@)),
            PumpEvent::Flushed(Ok(())) => PumpEventView::Flushed(Ok(())),
            PumpEvent::Flushed(Err(detail)) => PumpEventView::Flushed(Err(detail@)),
        }
    }
}

/// What the caller does next for the pump.
#[derive(Debug, PartialEq, Eq)]
pub enum PumpAction {
    /// Wait for the queue to release a message, or to close.
    Receive,
    /// Write all of these bytes to the stream.
    Write(Vec<u8>),
    /// Flush the stream.
    Flush,
    /// Stop: the pump has ended and takes no further part.
    Halt,
}

/// What a [`PumpAction`] says, with the bytes as a sequence.
pub enum PumpActionView {
    Receive,
    Write(Seq<u8>),
    Flush,
    Halt,
}

impl View for PumpAction {
    type V = PumpActionView;

    open spec fn view(&self) -> PumpActionView {
        match self {
            PumpAction::Receive => PumpActionView::Receive,
            PumpAction::Write(bytes) => PumpActionView::Write(bytes@),
            PumpAction::Flush => PumpActionView::Flush,
            PumpAction::Halt => PumpActionView::Halt,
        }
    }
}

/// The pump's answer to one event.
#[derive(Debug, PartialEq, Eq)]
pub struct PumpStep {
    /// The failure to report, if the event was one.
    pub failure: Option<Failure>,
    /// What to do next.
    pub action: PumpAction,
}

/// What a [`PumpStep`] says.
pub struct PumpStepView {
    pub failure: Option<FailureView>,
    pub action: PumpActionView,
}

impl View for PumpStep {
    type V = PumpStepView;

    open spec fn view(&self) -> PumpStepView {
        PumpStepView {
            failure: match self.failure {
                Some(failure) => Some(failure@),
                None => None,
            },
            action: self.action@,
        }
    }
}

/// The pump's rule: the state after an event, and the answer to it.
///
/// A pump that is not running answers every event with `Halt` and stays as
/// it is.
pub open spec fn pump_step(state: PumpState, event: PumpEventView) -> (PumpState, PumpStepView) {
    if state != PumpState::Running {
        (state, PumpStepView { failure: None, action: PumpActionView::Halt })
    } else {
        match event {
            PumpEventView::Message(Ok(line)) => (
                PumpState::Running,
                PumpStepView { failure: None, action: PumpActionView::Write(frame_bytes(line)) },
            ),
            PumpEventView::Message(Err(detail)) => (
                PumpState::Running,
                PumpStepView {
                    failure: Some(FailureView::Encode(detail)),
                    action: PumpActionView::Receive,
                },
            ),
            PumpEventView::Closed => (
                PumpState::Finished,
                PumpStepView { failure: None, action: PumpActionView::Halt },
            ),
            PumpEventView::Written(Ok(())) => (
                PumpState::Running,
                PumpStepView { failure: None, action: PumpActionView::Flush },
            ),
            PumpEventView::Written(Err(detail)) => (
                PumpState::Dead,
                PumpStepView {
                    failure: Some(FailureView::Write(detail)),
                    action: PumpActionView::Halt,
                },
            ),
            PumpEventView::Flushed(Ok(())) => (
                PumpState::Running,
                PumpStepView { failure: None, action: PumpActionView::Receive },
            ),
            PumpEventView::Flushed(Err(detail)) => (
                PumpState::Dead,
                PumpStepView {
                    failure: Some(FailureView::Flush(detail)),
                    action: PumpActionView::Halt,
                },
            ),
        }
    }
}

/// The outbound pump of one channel.
#[derive(Debug)]
pub struct OutboundPump {
    stream: Stream,
    state: PumpState,
}

impl OutboundPump {
    /// The stream that this pump writes, in contracts.
    pub closed spec fn spec_stream(&self) -> Stream {
        self.stream
    }

    /// Where this pump stands, in contracts.
    pub closed spec fn spec_state(&self) -> PumpState {
        self.state
    }

    /// A running pump for the given stream. The caller starts with
    /// [`PumpAction::Receive`].
    pub fn new(stream: Stream) -> (pump: Self)
        ensures
            pump.stream() == stream,
            pump.state() == PumpState::Running,
    {
        OutboundPump { stream, state: PumpState::Running }
    }

    /// The stream that this pump writes.
    #[verifier::when_used_as_spec(spec_stream)]
    pub fn stream(&self) -> (stream: Stream)
        ensures
            stream == self.spec_stream(),
    {
        self.stream
    }

    /// Where this pump stands.
    #[verifier::when_used_as_spec(spec_state)]
    pub fn state(&self) -> (state: PumpState)
        ensures
            state == self.spec_state(),
    {
        self.state
    }

    /// Takes note of one event and says what to do next, as [`pump_step`]
    /// lays down. The pump stays bound to its stream.
    pub fn step(&mut self, event: PumpEvent) -> (step: PumpStep)
        ensures
            final(self).stream() == old(self).stream(),
            (final(self).state(), step@) == pump_step(old(self).state(), event@),
    {
        match self.state {
            PumpState::Running => {},
            _ => {
                return PumpStep { failure: None, action: PumpAction::Halt };
            },
        }
        match event {
            PumpEvent::Message(Ok(line)) => PumpStep {
                failure: None,
                action: PumpAction::Write(frame(line.as_str())),
            },
            PumpEvent::Message(Err(detail)) => PumpStep {
                failure: Some(Failure::Encode(detail)),
                action: PumpAction::Receive,
            },
            PumpEvent::Closed => {
                self.state = PumpState::Finished;
                PumpStep { failure: None, action: PumpAction::Halt }
            },
            PumpEvent::Written(Ok(())) => PumpStep { failure: None, action: PumpAction::Flush },
            PumpEvent::Written(Err(detail)) => {
                self.state = PumpState::Dead;
                PumpStep { failure: Some(Failure::Write(detail)), action: PumpAction::Halt }
            },
            PumpEvent::Flushed(Ok(())) => PumpStep { failure: None, action: PumpAction::Receive },
            PumpEvent::Flushed(Err(detail)) => {
                self.state = PumpState::Dead;
                PumpStep { failure: Some(Failure::Flush(detail)), action: PumpAction::Halt }
            },
        }
    }
}

/// The state that a pump reaches over the given events, and its answers.
pub open spec fn pump_run(state: PumpState, events: Seq<PumpEventView>) -> (
    PumpState,
    Seq<PumpStepView>,
)
    decreases events.len(),
{
    if events.len() == 0 {
        (state, Seq::empty())
    } else {
        let (next, step) = pump_step(state, events[0]);
        let (last, steps) = pump_run(next, events.drop_first());
        (last, seq![step] + steps)
    }
}

/// The bytes that one answer asks to have written.
pub open spec fn bytes_of(step: PumpStepView) -> Seq<u8> {
    match step.action {
        PumpActionView::Write(bytes) => bytes,
        _ => Seq::empty(),
    }
}

/// All bytes that the given answers ask to have written, in order.
pub open spec fn bytes_asked(steps: Seq<PumpStepView>) -> Seq<u8>
    decreases steps.len(),
{
    if steps.len() == 0 {
        Seq::empty()
    } else {
        bytes_of(steps[0]) + bytes_asked(steps.drop_first())
    }
}

/// The lines of the messages that a pump takes up over the given events:
/// those that arrive encoded while the pump is running.
pub open spec fn lines_taken(state: PumpState, events: Seq<PumpEventView>) -> Seq<Seq<char>>
    decreases events.len(),
{
    if events.len() == 0 {
        Seq::empty()
    } else {
        let rest = lines_taken(pump_step(state, events[0]).0, events.drop_first());
        match events[0] {
            PumpEventView::Message(Ok(line)) if state == PumpState::Running => seq![line] + rest,
            _ => rest,
        }
    }
}

/// A run starts with the answer to its first event and goes on from the
/// state after it.
proof fn lemma_pump_run_first(
    state: PumpState,
    event: PumpEventView,
    rest: Seq<PumpEventView>,
)
    ensures
        pump_run(state, seq![event] + rest).0 == pump_run(pump_step(state, event).0, rest).0,
        pump_run(state, seq![event] + rest).1 == seq![pump_step(state, event).1] + pump_run(
            pump_step(state, event).0,
            rest,
        ).1,
        bytes_asked(pump_run(state, seq![event] + rest).1) == bytes_of(pump_step(state, event).1)
            + bytes_asked(pump_run(pump_step(state, event).0, rest).1),
{
    let events = seq![event] + rest;
    assert(events[0] == event);
    assert(events.drop_first() =~= rest);
    let steps = pump_run(state, events).1;
    assert(steps.drop_first() =~= pump_run(pump_step(state, event).0, rest).1);
}

/// A run over events in a row is the run over the first part, followed by
/// the run over the second from where the first ended.
proof fn lemma_pump_run_append(
    state: PumpState,
    first: Seq<PumpEventView>,
    second: Seq<PumpEventView>,
)
    ensures
        pump_run(state, first + second).0 == pump_run(pump_run(state, first).0, second).0,
        pump_run(state, first + second).1 == pump_run(state, first).1 + pump_run(
            pump_run(state, first).0,
            second,
        ).1,
    decreases first.len(),
{
    if first.len() == 0 {
        assert(first + second =~= second);
        assert(pump_run(state, first).1 + pump_run(state, second).1 =~= pump_run(state, second).1);
    } else {
        let next = pump_step(state, first[0]).0;
        assert((first + second).drop_first() =~= first.drop_first() + second);
        lemma_pump_run_append(next, first.drop_first(), second);
        assert(pump_run(state, first + second).1 =~= pump_run(state, first).1 + pump_run(
            pump_run(state, first).0,
            second,
        ).1);
    }
}

/// The bytes asked for by answers in a row are those of the parts in that row.
proof fn lemma_bytes_asked_append(first: Seq<PumpStepView>, second: Seq<PumpStepView>)
    ensures
        bytes_asked(first + second) == bytes_asked(first) + bytes_asked(second),
    decreases first.len(),
{
    if first.len() == 0 {
        assert(first + second =~= second);
        assert(bytes_asked(first) + bytes_asked(second) =~= bytes_asked(second));
    } else {
        assert((first + second).drop_first() =~= first.drop_first() + second);
        lemma_bytes_asked_append(first.drop_first(), second);
        assert(bytes_asked(first + second) =~= bytes_asked(first) + bytes_asked(second));
    }
}

/// A pump that has ended stays as it ended, whatever comes: it answers every
/// event with `Halt`, reports nothing and asks for no byte to be written.
pub proof fn law_ended_pump_stays_silent(state: PumpState, events: Seq<PumpEventView>)
    requires
        state != PumpState::Running,
    ensures
        pump_run(state, events).0 == state,
        pump_run(state, events).1.len() == events.len(),
        forall|i: int|
            0 <= i < events.len() ==> #[trigger] pump_run(state, events).1[i] == (PumpStepView {
                failure: None,
                action: PumpActionView::Halt,
            }),
        bytes_asked(pump_run(state, events).1) == Seq::<u8>::empty(),
    decreases events.len(),
{
    if events.len() > 0 {
        law_ended_pump_stays_silent(state, events.drop_first());
        let steps = pump_run(state, events).1;
        let rest = pump_run(state, events.drop_first()).1;
        assert forall|i: int| 0 <= i < events.len() implies #[trigger] steps[i] == (PumpStepView {
            failure: None,
            action: PumpActionView::Halt,
        }) by {
            if i > 0 {
                assert(steps[i] == rest[i - 1]);
            }
        }
        assert(steps.drop_first() =~= rest);
    }
}

/// Once a write or a flush has failed, no further byte is written: however
/// the events go on after the failure, the pump asks for exactly the bytes
/// it had asked for before, and it is no longer running.
pub proof fn law_nothing_written_after_stream_failure(
    state: PumpState,
    before: Seq<PumpEventView>,
    failure: PumpEventView,
    after: Seq<PumpEventView>,
)
    requires
        failure is Written && failure->Written_0 is Err || failure is Flushed
            && failure->Flushed_0 is Err,
    ensures
        pump_run(state, before + seq![failure] + after).0 != PumpState::Running,
        bytes_asked(pump_run(state, before + seq![failure] + after).1) == bytes_asked(
            pump_run(state, before).1,
        ),
{
    let reached = pump_run(state, before).0;
    let ended = pump_step(reached, failure).0;
    assert(before + seq![failure] + after =~= before + (seq![failure] + after));
    lemma_pump_run_append(state, before, seq![failure] + after);
    lemma_pump_run_first(reached, failure, after);
    law_ended_pump_stays_silent(ended, after);
    lemma_bytes_asked_append(pump_run(state, before).1, pump_run(reached, seq![failure] + after).1);
    assert(bytes_asked(pump_run(state, before + seq![failure] + after).1) =~= bytes_asked(
        pump_run(state, before).1,
    ));
}

/// Whatever the events, the bytes that a pump asks to have written are whole
/// lines and nothing else: the frames of the messages it took up, in the
/// order in which it took them up.
pub proof fn law_written_bytes_are_the_lines_taken(state: PumpState, events: Seq<PumpEventView>)
    ensures
        bytes_asked(pump_run(state, events).1) == wire(lines_taken(state, events)),
    decreases events.len(),
{
    if events.len() > 0 {
        let (next, step) = pump_step(state, events[0]);
        let rest = pump_run(next, events.drop_first()).1;
        law_written_bytes_are_the_lines_taken(next, events.drop_first());
        assert(pump_run(state, events).1.drop_first() =~= rest);
        let tail = lines_taken(next, events.drop_first());
        match events[0] {
            PumpEventView::Message(Ok(line)) if state == PumpState::Running => {
                assert((seq![line] + tail).drop_first() =~= tail);
            },
            _ => {
                assert(bytes_of(step) =~= Seq::<u8>::empty());
                assert(bytes_asked(pump_run(state, events).1) =~= wire(tail));
            },
        }
    }
}

/// The events that a pump meets when the queue releases the given messages,
/// each as the codec left it, and the stream takes every write and flush.
pub open spec fn smooth_events(messages: Seq<Result<Seq<char>, Seq<char>>>) -> Seq<PumpEventView>
    decreases messages.len(),
{
    if messages.len() == 0 {
        Seq::empty()
    } else {
        let rest = smooth_events(messages.drop_first());
        match messages[0] {
            Ok(line) => seq![
                PumpEventView::Message(Ok(line)),
                PumpEventView::Written(Ok(())),
                PumpEventView::Flushed(Ok(())),
            ] + rest,
            Err(detail) => seq![PumpEventView::Message(Err(detail))] + rest,
        }
    }
}

/// The lines of those among the given messages that the codec could encode,
/// in their order.
pub open spec fn encoded_lines(messages: Seq<Result<Seq<char>, Seq<char>>>) -> Seq<Seq<char>>
    decreases messages.len(),
{
    if messages.len() == 0 {
        Seq::empty()
    } else {
        let rest = encoded_lines(messages.drop_first());
        match messages[0] {
            Ok(line) => seq![line] + rest,
            Err(_) => rest,
        }
    }
}

/// The answers of a running pump to [`smooth_events`]: for a message that
/// the codec encoded, to write its frame, then to flush, then to wait for the
/// next; for one that it could not encode, the report of that and to wait
/// for the next.
pub open spec fn smooth_answers(messages: Seq<Result<Seq<char>, Seq<char>>>) -> Seq<PumpStepView>
    decreases messages.len(),
{
    if messages.len() == 0 {
        Seq::empty()
    } else {
        let rest = smooth_answers(messages.drop_first());
        match messages[0] {
            Ok(line) => seq![
                PumpStepView { failure: None, action: PumpActionView::Write(frame_bytes(line)) },
                PumpStepView { failure: None, action: PumpActionView::Flush },
                PumpStepView { failure: None, action: PumpActionView::Receive },
            ] + rest,
            Err(detail) => seq![
                PumpStepView {
                    failure: Some(FailureView::Encode(detail)),
                    action: PumpActionView::Receive,
                },
            ] + rest,
        }
    }
}

/// Messages reach the wire in the order in which the queue released them.
///
/// While the stream takes every write and flush, the pump stays running. It
/// has each message written and flushed by itself before it looks at the
/// next, so the bytes it asks to have written are the frames of the
/// messages, one after the other in the order of the queue, without those
/// that the codec could not encode: each of these is reported and dropped
/// alone.
pub proof fn law_messages_reach_the_wire_in_order(messages: Seq<Result<Seq<char>, Seq<char>>>)
    ensures
        pump_run(PumpState::Running, smooth_events(messages)) == (
            PumpState::Running,
            smooth_answers(messages),
        ),
        bytes_asked(smooth_answers(messages)) == wire(encoded_lines(messages)),
    decreases messages.len(),
{
    let running = PumpState::Running;
    if messages.len() == 0 {
        assert(pump_run(running, smooth_events(messages)).1 =~= smooth_answers(messages));
    } else {
        let rest = smooth_events(messages.drop_first());
        let answers = smooth_answers(messages.drop_first());
        let lines = encoded_lines(messages.drop_first());
        law_messages_reach_the_wire_in_order(messages.drop_first());
        match messages[0] {
            Ok(line) => {
                let message = PumpEventView::Message(Ok(line));
                let written = PumpEventView::Written(Ok(()));
                let flushed = PumpEventView::Flushed(Ok(()));
                assert(smooth_events(messages) =~= seq![message] + (seq![written] + (seq![flushed]
                    + rest)));
                lemma_pump_run_first(running, message, seq![written] + (seq![flushed] + rest));
                lemma_pump_run_first(running, written, seq![flushed] + rest);
                lemma_pump_run_first(running, flushed, rest);
                assert(pump_run(running, smooth_events(messages)).1 =~= smooth_answers(messages));
                assert((seq![line] + lines).drop_first() =~= lines);
                assert(bytes_asked(pump_run(running, smooth_events(messages)).1) =~= wire(
                    encoded_lines(messages),
                ));
            },
            Err(detail) => {
                lemma_pump_run_first(running, PumpEventView::Message(Err(detail)), rest);
                assert(pump_run(running, smooth_events(messages)).1 =~= smooth_answers(messages));
                assert(bytes_asked(pump_run(running, smooth_events(messages)).1) =~= wire(
                    encoded_lines(messages),
                ));
            },
        }
    }
}

/// What ends a pump, and what does not.
///
/// A running pump dies of a failed write or a failed flush and of nothing
/// else: these are the failures it reports that are not recoverable. It
/// finishes when the queue is closed, and only then. A message that cannot
/// be encoded is reported and dropped, and the pump waits for the next.
pub proof fn law_only_its_stream_ends_a_pump_early(event: PumpEventView)
    ensures
        ({
            let (next, step) = pump_step(PumpState::Running, event);
            &&& next == PumpState::Dead <==> ((event matches PumpEventView::Written(Err(_)))
                || (event matches PumpEventView::Flushed(Err(_))))
            &&& next == PumpState::Dead <==> (step.failure matches Some(failure)
                && !failure.is_recoverable())
            &&& next == PumpState::Finished <==> event is Closed
            &&& event matches PumpEventView::Message(Err(detail)) ==> next == PumpState::Running
                && step.failure == Some(FailureView::Encode(detail)) && step.action
                == PumpActionView::Receive
        }),
{
}

} // verus!
