//! The log relay: the worker's diagnostic text, line by line, for the
//! logging sink.
//!
//! The relay has nothing to do with messages. It hands on each line as it
//! is, and stops without a word when its stream ends or a read fails.

use vstd::prelude::*;

use crate::log::{Entry, Level, LogRecord};
use crate::stream::{read_view, ReadView, Stream};

verus! {

/// Where a relay stands.
#[derive(Clone, Copy, Debug, PartialEq, Eq)]
pub enum RelayState {
    /// Lines are read and handed on.
    Active,
    /// The stream ended or a read failed: the relay is over.
    Stopped,
}

/// What the caller does next for the relay.
#[derive(Debug, PartialEq, Eq)]
pub enum RelayAction {
    /// Hand this record to the logging sink, then read the next line.
    Forward(LogRecord),
    /// Stop: the relay is over.
    Stop,
}

/// What a [`RelayAction`] says.
pub enum RelayActionView {
    Forward(Entry),
    Stop,
}

impl View for RelayAction {
    type V = RelayActionView;

    open spec fn view(&self) -> RelayActionView {
        match self {
            RelayAction::Forward(record) => RelayActionView::Forward(record@),
            RelayAction::Stop => RelayActionView::Stop,
        }
    }
}

/// The record under which a line of the worker's diagnostic text is logged:
/// the line as it is, as information.
pub open spec fn relayed(line: Seq<char>) -> Entry {
    Entry { level: Level::Info, text: line }
}

/// The relay's rule: the state after a read, and the answer to it.
///
/// A failed read ends the relay exactly as the end of the stream does, and
/// is reported to nobody.
pub open spec fn relay_step(state: RelayState, read: ReadView) -> (RelayState, RelayActionView) {
    match (state, read) {
        (RelayState::Active, Ok(Some(line))) => (
            RelayState::Active,
            RelayActionView::Forward(relayed(line)),
        ),
        _ => (RelayState::Stopped, RelayActionView::Stop),
    }
}

/// The log relay of one channel.
#[derive(Debug)]
pub struct LogRelay {
    stream: Stream,
    state: RelayState,
}

impl LogRelay {
    /// The stream that this relay reads, in contracts.
    pub closed spec fn spec_stream(&self) -> Stream {
        self.stream
    }

    /// Where this relay stands, in contracts.
    pub closed spec fn spec_state(&self) -> RelayState {
        self.state
    }

    /// An active relay for the given stream. The caller starts by reading a
    /// line.
    pub fn new(stream: Stream) -> (relay: Self)
        ensures
            relay.stream() == stream,
            relay.state() == RelayState::Active,
    {
        LogRelay { stream, state: RelayState::Active }
    }

    /// The stream that this relay reads.
    #[verifier::when_used_as_spec(spec_stream)]
    pub fn stream(&self) -> (stream: Stream)
        ensures
            stream == self.spec_stream(),
    {
        self.stream
    }

    /// Where this relay stands.
    #[verifier::when_used_as_spec(spec_state)]
    pub fn state(&self) -> (state: RelayState)
        ensures
            state == self.spec_state(),
    {
        self.state
    }

    /// Takes note of the outcome of one read and says what to do next, as
    /// [`relay_step`] lays down. The relay stays bound to its stream.
    pub fn step(&mut self, read: Result<Option<String>, String>) -> (action: RelayAction)
        ensures
            final(self).stream() == old(self).stream(),
            (final(self).state(), action@) == relay_step(old(self).state(), read_view(read)),
    {
        match self.state {
            RelayState::Active => {},
            RelayState::Stopped => {
                return RelayAction::Stop;
            },
        }
        match read {
            Ok(Some(line)) => RelayAction::Forward(LogRecord { level: Level::Info, text: line }),
            _ => {
                self.state = RelayState::Stopped;
                RelayAction::Stop
            },
        }
    }
}

/// The state that a relay reaches over the given reads, and its answers.
pub open spec fn relay_run(state: RelayState, reads: Seq<ReadView>) -> (
    RelayState,
    Seq<RelayActionView>,
)
    decreases reads.len(),
{
    if reads.len() == 0 {
        (state, Seq::empty())
    } else {
        let (next, action) = relay_step(state, reads[0]);
        let (last, actions) = relay_run(next, reads.drop_first());
        (last, seq![action] + actions)
    }
}

/// The reads of a stream that gives the given lines.
pub open spec fn line_reads(lines: Seq<Seq<char>>) -> Seq<ReadView> {
    Seq::new(lines.len(), |i: int| Ok(Some(lines[i])))
}

/// The answers that hand on the given lines, one record for each, in order.
pub open spec fn forwards(lines: Seq<Seq<char>>) -> Seq<RelayActionView> {
    Seq::new(lines.len(), |i: int| RelayActionView::Forward(relayed(lines[i])))
}

/// As many answers `Stop` as asked for.
pub open spec fn stops(count: nat) -> Seq<RelayActionView> {
    Seq::new(count, |i: int| RelayActionView::Stop)
}

/// A run over reads in a row is the run over the first part, followed by
/// the run over the second from where the first ended.
proof fn lemma_relay_run_append(state: RelayState, first: Seq<ReadView>, second: Seq<ReadView>)
    ensures
        relay_run(state, first + second).0 == relay_run(relay_run(state, first).0, second).0,
        relay_run(state, first + second).1 == relay_run(state, first).1 + relay_run(
            relay_run(state, first).0,
            second,
        ).1,
    decreases first.len(),
{
    if first.len() == 0 {
        assert(first + second =~= second);
        assert(relay_run(state, first).1 + relay_run(state, second).1 =~= relay_run(
            state,
            second,
        ).1);
    } else {
        let next = relay_step(state, first[0]).0;
        assert((first + second).drop_first() =~= first.drop_first() + second);
        lemma_relay_run_append(next, first.drop_first(), second);
        assert(relay_run(state, first + second).1 =~= relay_run(state, first).1 + relay_run(
            relay_run(state, first).0,
            second,
        ).1);
    }
}

/// While the stream gives lines, an active relay hands on every one of them:
/// each exactly once, as it is, in the order of the stream. It stays active.
pub proof fn law_relay_forwards_each_line_once_in_order(lines: Seq<Seq<char>>)
    ensures
        relay_run(RelayState::Active, line_reads(lines)) == (RelayState::Active, forwards(lines)),
    decreases lines.len(),
{
    let reads = line_reads(lines);
    if lines.len() == 0 {
        assert(relay_run(RelayState::Active, reads).1 =~= forwards(lines));
    } else {
        law_relay_forwards_each_line_once_in_order(lines.drop_first());
        assert(reads.drop_first() =~= line_reads(lines.drop_first()));
        assert(relay_run(RelayState::Active, reads).1 =~= forwards(lines));
    }
}

/// A relay that has stopped stays stopped and hands on nothing more.
pub proof fn law_stopped_relay_stays_stopped(reads: Seq<ReadView>)
    ensures
        relay_run(RelayState::Stopped, reads) == (RelayState::Stopped, stops(reads.len())),
    decreases reads.len(),
{
    if reads.len() == 0 {
        assert(relay_run(RelayState::Stopped, reads).1 =~= stops(reads.len()));
    } else {
        law_stopped_relay_stays_stopped(reads.drop_first());
        assert(relay_run(RelayState::Stopped, reads).1 =~= stops(reads.len()));
    }
}

/// The end of the stream, or a failed read, ends the relay.
///
/// Of a stream that gives the given lines and then ends or fails, the relay
/// hands on those lines, each once and in order, and nothing else: the read
/// that ends it and all that may come after are answered with `Stop`.
pub proof fn law_relay_stops_with_its_stream(
    lines: Seq<Seq<char>>,
    end: ReadView,
    after: Seq<ReadView>,
)
    requires
        end is Err || end == Ok::<Option<Seq<char>>, Seq<char>>(None),
    ensures
        relay_run(RelayState::Active, line_reads(lines) + seq![end] + after) == (
            RelayState::Stopped,
            forwards(lines) + stops(1 + after.len()),
        ),
{
    let tail = seq![end] + after;
    assert(line_reads(lines) + seq![end] + after =~= line_reads(lines) + tail);
    lemma_relay_run_append(RelayState::Active, line_reads(lines), tail);
    law_relay_forwards_each_line_once_in_order(lines);
    assert(tail[0] == end);
    assert(tail.drop_first() =~= after);
    law_stopped_relay_stays_stopped(after);
    assert(relay_run(RelayState::Active, tail).1 =~= stops(1 + after.len()));
}

} // verus!
