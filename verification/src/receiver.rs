//! The inbound reader behind a receiver handle.
//!
//! A receiver is live until a read from its stream fails; from then on it is
//! failed for good and answers every request with the end of the stream,
//! without asking for another read. A line that does not decode costs that
//! line only: the receiver stays live.

use core::marker::PhantomData;
use vstd::prelude::*;

use crate::log::{Failure, FailureView};
use crate::stream::{read_view, ReadView, Stream};

verus! {

/// Where a receiver stands.
#[derive(Clone, Copy, Debug, PartialEq, Eq)]
pub enum ReaderState {
    /// Lines are read and decoded.
    Live,
    /// A read failed. The stream is not touched again.
    Failed,
}

/// What happened since the receiver last said what to do.
#[derive(Debug, PartialEq, Eq)]
pub enum RecvEvent<Message> {
    /// The consumer asks for the next message.
    Poll,
    /// The read that the receiver asked for ended: with a line, at the clean
    /// end of the stream, or with the reason why it failed.
    Line(Result<Option<String>, String>),
    /// The codec was given the line that the receiver asked to have decoded:
    /// here is the message, or the reason why the line is none.
    Decoded(Result<Message, String>),
}

/// What a [`RecvEvent`] says, with each text as a sequence of characters.
pub enum RecvEventView<Message> {
    Poll,
    Line(ReadView),
    Decoded(Result<Message, Seq<char>>),
}

impl<Message> View for RecvEvent<Message> {
    type V = RecvEventView<Message>;

    open spec fn view(&self) -> RecvEventView<Message> {
        match *self {
            RecvEvent::Poll => RecvEventView::Poll,
            RecvEvent::Line(read) => RecvEventView::Line(read_view(read)),
            RecvEvent::Decoded(Ok(message)) => RecvEventView::Decoded(Ok(message)),
            RecvEvent::Decoded(Err(detail)) => RecvEventView::Decoded(Err(detail@)),
        }
    }
}

/// What the caller does next for the receiver.
#[derive(Debug, PartialEq, Eq)]
pub enum RecvAction<Message> {
    /// Read the next line from the stream.
    ReadLine,
    /// Have the codec decode this line.
    Decode(String),
    /// Hand this message to the consumer.
    Deliver(Message),
    /// Tell the consumer that this request brought no message; the next may.
    Skip,
    /// Tell the consumer that the stream has ended.
    EndOfStream,
}

/// What a [`RecvAction`] says, with the line as a sequence of characters.
pub enum RecvActionView<Message> {
    ReadLine,
    Decode(Seq<char>),
    Deliver(Message),
    Skip,
    EndOfStream,
}

impl<Message> View for RecvAction<Message> {
    type V = RecvActionView<Message>;

    open spec fn view(&self) -> RecvActionView<Message> {
        match *self {
            RecvAction::ReadLine => RecvActionView::ReadLine,
            RecvAction::Decode(line) => RecvActionView::Decode(line@),
            RecvAction::Deliver(message) => RecvActionView::Deliver(message),
            RecvAction::Skip => RecvActionView::Skip,
            RecvAction::EndOfStream => RecvActionView::EndOfStream,
        }
    }
}

/// The receiver's answer to one event.
#[derive(Debug, PartialEq, Eq)]
pub struct RecvStep<Message> {
    /// The failure to report, if the event was one.
    pub failure: Option<Failure>,
    /// What to do next.
    pub action: RecvAction<Message>,
}

/// What a [`RecvStep`] says.
pub struct RecvStepView<Message> {
    pub failure: Option<FailureView>,
    pub action: RecvActionView<Message>,
}

impl<Message> View for RecvStep<Message> {
    type V = RecvStepView<Message>;

    open spec fn view(&self) -> RecvStepView<Message> {
        RecvStepView {
            failure: match self.failure {
                Some(failure) => Some(failure@),
                None => None,
            },
            action: self.action@,
        }
    }
}

/// The receiver's rule: the state after an event, and the answer to it.
///
/// A failed receiver answers every event with the end of the stream and
/// stays failed. The clean end of the stream leaves a live receiver live: a
/// later request reads again and meets the end again.
pub open spec fn recv_step<Message>(state: ReaderState, event: RecvEventView<Message>) -> (
    ReaderState,
    RecvStepView<Message>,
) {
    if state == ReaderState::Failed {
        (ReaderState::Failed, RecvStepView { failure: None, action: RecvActionView::EndOfStream })
    } else {
        match event {
            RecvEventView::Poll => (
                ReaderState::Live,
                RecvStepView { failure: None, action: RecvActionView::ReadLine },
            ),
            RecvEventView::Line(Ok(Some(line))) => (
                ReaderState::Live,
                RecvStepView { failure: None, action: RecvActionView::Decode(line) },
            ),
            RecvEventView::Line(Ok(None)) => (
                ReaderState::Live,
                RecvStepView { failure: None, action: RecvActionView::EndOfStream },
            ),
            RecvEventView::Line(Err(detail)) => (
                ReaderState::Failed,
                RecvStepView {
                    failure: Some(FailureView::Read(detail)),
                    action: RecvActionView::EndOfStream,
                },
            ),
            RecvEventView::Decoded(Ok(message)) => (
                ReaderState::Live,
                RecvStepView { failure: None, action: RecvActionView::Deliver(message) },
            ),
            RecvEventView::Decoded(Err(detail)) => (
                ReaderState::Live,
                RecvStepView {
                    failure: Some(FailureView::Decode(detail)),
                    action: RecvActionView::Skip,
                },
            ),
        }
    }
}

/// The receiving side of one channel, for messages of one type.
#[derive(Debug)]
pub struct IpcReceiver<Message> {
    stream: Stream,
    errored: bool,
    phantom: PhantomData<Message>,
}

impl<Message> IpcReceiver<Message> {
    /// The stream that this receiver reads, in contracts.
    pub closed spec fn spec_stream(&self) -> Stream {
        self.stream
    }

    /// Where this receiver stands, in contracts.
    pub closed spec fn spec_state(&self) -> ReaderState {
        if self.errored {
            ReaderState::Failed
        } else {
            ReaderState::Live
        }
    }

    /// A live receiver for the given stream.
    pub fn new(stream: Stream) -> (receiver: Self)
        ensures
            receiver.stream() == stream,
            receiver.state() == ReaderState::Live,
    {
        IpcReceiver { stream, errored: false, phantom: PhantomData }
    }

    /// The stream that this receiver reads.
    #[verifier::when_used_as_spec(spec_stream)]
    pub fn stream(&self) -> (stream: Stream)
        ensures
            stream == self.spec_stream(),
    {
        self.stream
    }

    /// Where this receiver stands.
    #[verifier::when_used_as_spec(spec_state)]
    pub fn state(&self) -> (state: ReaderState)
        ensures
            state == self.spec_state(),
    {
        if self.errored {
            ReaderState::Failed
        } else {
            ReaderState::Live
        }
    }

    /// Takes note of one event of a receive and says what to do next, as
    /// [`recv_step`] lays down. The receiver stays bound to its stream.
    ///
    /// A receive starts with [`RecvEvent::Poll`] and is over with the first
    /// answer that is `Deliver`, `Skip` or `EndOfStream`.
    pub fn recv(&mut self, event: RecvEvent<Message>) -> (step: RecvStep<Message>)
        ensures
            final(self).stream() == old(self).stream(),
            (final(self).state(), step@) == recv_step(old(self).state(), event@),
    {
        if self.errored {
            return RecvStep { failure: None, action: RecvAction::EndOfStream };
        }
        match event {
            RecvEvent::Poll => RecvStep { failure: None, action: RecvAction::ReadLine },
            RecvEvent::Line(Ok(Some(line))) => RecvStep {
                failure: None,
                action: RecvAction::Decode(line),
            },
            RecvEvent::Line(Ok(None)) => RecvStep {
                failure: None,
                action: RecvAction::EndOfStream,
            },
            RecvEvent::Line(Err(detail)) => {
                self.errored = true;
                RecvStep { failure: Some(Failure::Read(detail)), action: RecvAction::EndOfStream }
            },
            RecvEvent::Decoded(Ok(message)) => RecvStep {
                failure: None,
                action: RecvAction::Deliver(message),
            },
            RecvEvent::Decoded(Err(detail)) => RecvStep {
                failure: Some(Failure::Decode(detail)),
                action: RecvAction::Skip,
            },
        }
    }
}

/// The state that a receiver reaches over the given events, and its answers.
pub open spec fn recv_run<Message>(state: ReaderState, events: Seq<RecvEventView<Message>>) -> (
    ReaderState,
    Seq<RecvStepView<Message>>,
)
    decreases events.len(),
{
    if events.len() == 0 {
        (state, Seq::empty())
    } else {
        let (next, step) = recv_step(state, events[0]);
        let (last, steps) = recv_run(next, events.drop_first());
        (last, seq![step] + steps)
    }
}

/// The answer of a failed receiver: the end of the stream, and no report.
pub open spec fn end_of_stream<Message>() -> RecvStepView<Message> {
    RecvStepView { failure: None, action: RecvActionView::EndOfStream }
}

/// A run starts with the answer to its first event and goes on from the
/// state after it.
proof fn lemma_recv_run_first<Message>(
    state: ReaderState,
    event: RecvEventView<Message>,
    rest: Seq<RecvEventView<Message>>,
)
    ensures
        recv_run(state, seq![event] + rest).0 == recv_run(recv_step(state, event).0, rest).0,
        recv_run(state, seq![event] + rest).1 == seq![recv_step(state, event).1] + recv_run(
            recv_step(state, event).0,
            rest,
        ).1,
{
    let events = seq![event] + rest;
    assert(events[0] == event);
    assert(events.drop_first() =~= rest);
}

/// A run over events in a row is the run over the first part, followed by
/// the run over the second from where the first ended.
proof fn lemma_recv_run_append<Message>(
    state: ReaderState,
    first: Seq<RecvEventView<Message>>,
    second: Seq<RecvEventView<Message>>,
)
    ensures
        recv_run(state, first + second).0 == recv_run(recv_run(state, first).0, second).0,
        recv_run(state, first + second).1 == recv_run(state, first).1 + recv_run(
            recv_run(state, first).0,
            second,
        ).1,
        recv_run(state, first).1.len() == first.len(),
    decreases first.len(),
{
    if first.len() == 0 {
        assert(first + second =~= second);
        assert(recv_run(state, first).1 + recv_run(state, second).1 =~= recv_run(state, second).1);
    } else {
        let next = recv_step(state, first[0]).0;
        assert((first + second).drop_first() =~= first.drop_first() + second);
        lemma_recv_run_append(next, first.drop_first(), second);
        assert(recv_run(state, first + second).1 =~= recv_run(state, first).1 + recv_run(
            recv_run(state, first).0,
            second,
        ).1);
    }
}

/// Failure is for good: a failed receiver stays failed whatever comes, and
/// answers every event with the end of the stream. It never asks for a read,
/// and it reports nothing.
pub proof fn law_failed_receiver_stays_failed<Message>(events: Seq<RecvEventView<Message>>)
    ensures
        recv_run(ReaderState::Failed, events).0 == ReaderState::Failed,
        recv_run(ReaderState::Failed, events).1.len() == events.len(),
        forall|i: int|
            0 <= i < events.len() ==> #[trigger] recv_run(ReaderState::Failed, events).1[i]
                == end_of_stream::<Message>(),
    decreases events.len(),
{
    if events.len() > 0 {
        law_failed_receiver_stays_failed(events.drop_first());
        let steps = recv_run(ReaderState::Failed, events).1;
        let rest = recv_run(ReaderState::Failed, events.drop_first()).1;
        assert forall|i: int| 0 <= i < events.len() implies #[trigger] steps[i] == end_of_stream::<
            Message,
        >() by {
            if i > 0 {
                assert(steps[i] == rest[i - 1]);
            }
        }
    }
}

/// A failed read ends receiving: the event that brings the failure is
/// answered with the end of the stream, and so is every event after it,
/// whatever went before and whatever comes after. After the failure the
/// receiver asks for no read.
pub proof fn law_read_failure_ends_receiving<Message>(
    state: ReaderState,
    before: Seq<RecvEventView<Message>>,
    detail: Seq<char>,
    after: Seq<RecvEventView<Message>>,
)
    ensures
        ({
            let events = before + seq![RecvEventView::Line(Err(detail))] + after;
            let (last, steps) = recv_run(state, events);
            &&& last == ReaderState::Failed
            &&& steps.len() == events.len()
            &&& steps[before.len() as int].action == RecvActionView::<Message>::EndOfStream
            &&& forall|i: int|
                before.len() < i < events.len() ==> #[trigger] steps[i] == end_of_stream::<
                    Message,
                >()
        }),
{
    let failure = RecvEventView::<Message>::Line(Err(detail));
    let events = before + seq![failure] + after;
    let reached = recv_run(state, before).0;
    assert(events =~= before + (seq![failure] + after));
    lemma_recv_run_append(state, before, seq![failure] + after);
    lemma_recv_run_first(reached, failure, after);
    law_failed_receiver_stays_failed(after);
    let steps = recv_run(state, events).1;
    let tail = recv_run(ReaderState::Failed, after).1;
    assert(steps[before.len() as int] == recv_step(reached, failure).1);
    assert forall|i: int| before.len() < i < events.len() implies #[trigger] steps[i]
        == end_of_stream::<Message>() by {
        assert(steps[i] == tail[i - before.len() - 1]);
    }
}

/// What fails a receiver, and what does not.
///
/// A live receiver fails of a failed read and of nothing else: this is the
/// one failure it reports that is not recoverable. A line that does not
/// decode is reported and skipped, and the receiver stays live.
pub proof fn law_only_a_failed_read_fails_a_receiver<Message>(event: RecvEventView<Message>)
    ensures
        ({
            let (next, step) = recv_step(ReaderState::Live, event);
            &&& next == ReaderState::Failed <==> (event matches RecvEventView::Line(Err(_)))
            &&& next == ReaderState::Failed <==> (step.failure matches Some(failure)
                && !failure.is_recoverable())
            &&& event matches RecvEventView::Decoded(Err(detail)) ==> next == ReaderState::Live
                && step.failure == Some(FailureView::Decode(detail)) && step.action
                == RecvActionView::<Message>::Skip
        }),
{
}

/// What one receive comes to.
pub struct Received<Message> {
    /// The state of the receiver after the receive.
    pub state: ReaderState,
    /// What the consumer is given: `Deliver`, `Skip` or `EndOfStream`.
    pub outcome: RecvActionView<Message>,
    /// Whether the stream was read.
    pub read: bool,
}

/// One whole receive, for a caller that does as it is told: it polls, reads
/// the stream if the receiver asks for a line, and has the codec decode the
/// line if the receiver asks for that. `read` is what the stream gives if it
/// is read, and `decode` is the codec.
pub open spec fn receive<Message>(
    state: ReaderState,
    read: ReadView,
    decode: spec_fn(Seq<char>) -> Result<Message, Seq<char>>,
) -> Received<Message> {
    let (polled, first) = recv_step::<Message>(state, RecvEventView::Poll);
    if first.action == RecvActionView::<Message>::ReadLine {
        let (after_read, second) = recv_step::<Message>(polled, RecvEventView::Line(read));
        match second.action {
            RecvActionView::Decode(line) => {
                let (decoded, third) = recv_step(after_read, RecvEventView::Decoded(decode(line)));
                Received { state: decoded, outcome: third.action, read: true }
            },
            _ => Received { state: after_read, outcome: second.action, read: true },
        }
    } else {
        Received { state: polled, outcome: first.action, read: false }
    }
}

/// What a consumer is given for a line that was read: the message that the
/// line decodes to, or nothing where it decodes to none.
pub open spec fn outcome_of_line<Message>(
    line: Seq<char>,
    decode: spec_fn(Seq<char>) -> Result<Message, Seq<char>>,
) -> RecvActionView<Message> {
    match decode(line) {
        Ok(message) => RecvActionView::Deliver(message),
        Err(_) => RecvActionView::Skip,
    }
}

/// Every receive comes to one of five things.
///
/// A failed receiver gives the end of the stream without reading. A live
/// one reads once: a line that decodes is delivered, a line that does not is
/// skipped, and in both cases, as at the clean end of the stream, the
/// receiver stays live; only a failed read makes it fail, and that receive
/// gives the end of the stream too.
pub proof fn law_receive_outcomes<Message>(
    state: ReaderState,
    read: ReadView,
    decode: spec_fn(Seq<char>) -> Result<Message, Seq<char>>,
)
    ensures
        receive(state, read, decode) == match (state, read) {
            (ReaderState::Failed, _) => Received {
                state: ReaderState::Failed,
                outcome: RecvActionView::EndOfStream,
                read: false,
            },
            (ReaderState::Live, Ok(Some(line))) => Received {
                state: ReaderState::Live,
                outcome: outcome_of_line(line, decode),
                read: true,
            },
            (ReaderState::Live, Ok(None)) => Received {
                state: ReaderState::Live,
                outcome: RecvActionView::EndOfStream,
                read: true,
            },
            (ReaderState::Live, Err(_)) => Received {
                state: ReaderState::Failed,
                outcome: RecvActionView::EndOfStream,
                read: true,
            },
        },
{
}

/// The receives of a consumer that asks again and again while the stream
/// gives the given lines: what it is given each time, from a live receiver.
pub open spec fn receive_lines<Message>(
    lines: Seq<Seq<char>>,
    decode: spec_fn(Seq<char>) -> Result<Message, Seq<char>>,
) -> (ReaderState, Seq<RecvActionView<Message>>)
    decreases lines.len(),
{
    if lines.len() == 0 {
        (ReaderState::Live, Seq::empty())
    } else {
        let (state, outcomes) = receive_lines(lines.drop_last(), decode);
        let last = receive(state, Ok(Some(lines.last())), decode);
        (last.state, outcomes.push(last.outcome))
    }
}

/// A line that does not decode costs that line only.
///
/// However many lines the stream gives and whichever of them are
/// malformed, the receiver stays live, each receive answers for its own
/// line alone, and the messages come in the order of their lines.
pub proof fn law_bad_line_costs_only_itself<Message>(
    lines: Seq<Seq<char>>,
    decode: spec_fn(Seq<char>) -> Result<Message, Seq<char>>,
)
    ensures
        receive_lines(lines, decode).0 == ReaderState::Live,
        receive_lines(lines, decode).1 == Seq::new(
            lines.len(),
            |i: int| outcome_of_line(lines[i], decode),
        ),
    decreases lines.len(),
{
    if lines.len() > 0 {
        law_bad_line_costs_only_itself(lines.drop_last(), decode);
        law_receive_outcomes(ReaderState::Live, Ok(Some(lines.last())), decode);
        assert(receive_lines(lines, decode).1 =~= Seq::new(
            lines.len(),
            |i: int| outcome_of_line(lines[i], decode),
        ));
    } else {
        assert(receive_lines(lines, decode).1 =~= Seq::new(
            lines.len(),
            |i: int| outcome_of_line(lines[i], decode),
        ));
    }
}

} // verus!
