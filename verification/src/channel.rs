//! The two ways to set up a channel: at the parent's end and at the worker's.

use vstd::prelude::*;

use crate::pump::{OutboundPump, PumpState};
use crate::receiver::{IpcReceiver, ReaderState};
use crate::relay::{LogRelay, RelayState};
use crate::sender::IpcSender;
use crate::stream::Stream;

verus! {

/// How many outbound messages may wait in a channel's queue. A producer that
/// finds the queue full waits until the pump has taken a message out.
pub const QUEUE_CAPACITY: usize = 10;

/// Which stream each part of one end of a channel uses.
pub struct Wiring {
    /// The stream that the pump writes.
    pub outbound: Stream,
    /// The stream that the receiver reads.
    pub inbound: Stream,
    /// The stream that the relay reads, where there is a relay.
    pub diagnostic: Option<Stream>,
}

impl Wiring {
    /// No stream has two users.
    pub open spec fn exclusive(self) -> bool {
        &&& self.outbound != self.inbound
        &&& self.diagnostic != Some(self.outbound)
        &&& self.diagnostic != Some(self.inbound)
    }
}

/// The wiring of the parent's end: it writes the worker's standard input,
/// reads the worker's standard output, and relays the worker's standard
/// error if that stream is at hand.
pub open spec fn parent_wiring(has_stderr: bool) -> Wiring {
    Wiring {
        outbound: Stream::Stdin,
        inbound: Stream::Stdout,
        diagnostic: if has_stderr {
            Some(Stream::Stderr)
        } else {
            None
        },
    }
}

/// The wiring of the worker's end: it writes its own standard output and
/// reads its own standard input. It relays nothing.
pub open spec fn worker_wiring() -> Wiring {
    Wiring { outbound: Stream::Stdout, inbound: Stream::Stdin, diagnostic: None }
}

/// One end of a channel, before any input or output: the machines that the
/// caller drives, each bound to the stream that it alone will use.
#[derive(Debug)]
pub struct Channel<Message, PeerMessage> {
    /// The bound of the queue between the sender handles and the pump.
    pub capacity: usize,
    /// The first handle for sending messages to the other side.
    pub sender: IpcSender<Message>,
    /// The pump that writes what the sender handles enqueue.
    pub pump: OutboundPump,
    /// The receiver for the messages of the other side.
    pub receiver: IpcReceiver<PeerMessage>,
    /// The relay for the worker's diagnostic text, where there is one.
    pub relay: Option<LogRelay>,
}

impl<Message, PeerMessage> Channel<Message, PeerMessage> {
    /// Which stream each part of this end uses.
    pub open spec fn wiring(&self) -> Wiring {
        Wiring {
            outbound: self.pump.stream(),
            inbound: self.receiver.stream(),
            diagnostic: match self.relay {
                Some(relay) => Some(relay.stream()),
                None => None,
            },
        }
    }

    /// A channel as it is set up: a queue of [`QUEUE_CAPACITY`], a sender
    /// handle for the stream of the pump, a running pump, a live receiver,
    /// and an active relay if there is a relay at all.
    pub open spec fn fresh(&self) -> bool {
        &&& self.capacity == QUEUE_CAPACITY
        &&& self.sender.stream() == self.pump.stream()
        &&& self.pump.state() == PumpState::Running
        &&& self.receiver.state() == ReaderState::Live
        &&& self.relay matches Some(relay) ==> relay.state() == RelayState::Active
    }
}

/// Sets up the parent's end of the channel to a worker.
///
/// The sender and its pump are bound to the worker's standard input and the
/// receiver to the worker's standard output. `has_stderr` says whether the
/// worker's standard error is at hand: if so, and only then, there is a
/// relay, bound to it.
pub fn create_child_ipc<Message, ChildMessage>(has_stderr: bool) -> (channel: Channel<
    Message,
    ChildMessage,
>)
    ensures
        channel.fresh(),
        channel.wiring() == parent_wiring(has_stderr),
{
    Channel {
        capacity: QUEUE_CAPACITY,
        sender: IpcSender::new(Stream::Stdin),
        pump: OutboundPump::new(Stream::Stdin),
        receiver: IpcReceiver::new(Stream::Stdout),
        relay: if has_stderr {
            Some(LogRelay::new(Stream::Stderr))
        } else {
            None
        },
    }
}

/// Sets up the worker's end of the channel to its parent.
///
/// The mirror image of [`create_child_ipc`]: the sender and its pump are
/// bound to the worker's own standard output and the receiver to its
/// standard input. There is no relay: this is the side whose diagnostic
/// text is relayed.
pub fn create_process_ipc<ParentMessage, Message>() -> (channel: Channel<Message, ParentMessage>)
    ensures
        channel.fresh(),
        channel.wiring() == worker_wiring(),
{
    Channel {
        capacity: QUEUE_CAPACITY,
        sender: IpcSender::new(Stream::Stdout),
        pump: OutboundPump::new(Stream::Stdout),
        receiver: IpcReceiver::new(Stream::Stdin),
        relay: None,
    }
}

/// The two ends fit together: each reads the stream that the other writes.
pub proof fn law_ends_mirror_each_other(has_stderr: bool)
    ensures
        parent_wiring(has_stderr).outbound == worker_wiring().inbound,
        parent_wiring(has_stderr).inbound == worker_wiring().outbound,
{
}

/// At either end every stream has one user: the pump is the only writer of
/// its stream, and the receiver and the relay each read a stream of their
/// own.
pub proof fn law_every_stream_has_one_user(has_stderr: bool)
    ensures
        parent_wiring(has_stderr).exclusive(),
        worker_wiring().exclusive(),
{
}

} // verus!
