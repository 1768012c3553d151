//! The sender handle: how messages enter a channel.
//!
//! A handle puts messages into the bounded queue that the pump drains. The
//! queue itself, and the waiting of a producer that finds it full, are the
//! caller's; the handle says what to make of the queue's answer. Sending
//! never fails for the producer: a message that the queue refuses, because
//! no pump drains it any more, is lost, and the loss is reported.

use core::marker::PhantomData;
use vstd::prelude::*;

use crate::log::{Failure, FailureView};
use crate::stream::Stream;

verus! {

/// A handle for sending messages of one type. Handles of one channel are
/// copies of one another and feed the same queue.
#[derive(Debug)]
pub struct IpcSender<Message> {
    stream: Stream,
    phantom: PhantomData<Message>,
}

impl<Message> IpcSender<Message> {
    /// The stream on which the messages of this handle go out, in contracts.
    pub closed spec fn spec_stream(&self) -> Stream {
        self.stream
    }

    /// A handle for the queue of the pump that writes the given stream.
    pub fn new(stream: Stream) -> (sender: Self)
        ensures
            sender.stream() == stream,
    {
        IpcSender { stream, phantom: PhantomData }
    }

    /// The stream on which the messages of this handle go out.
    #[verifier::when_used_as_spec(spec_stream)]
    pub fn stream(&self) -> (stream: Stream)
        ensures
            stream == self.spec_stream(),
    {
        self.stream
    }

    /// Takes note of what the queue made of a message: `Ok` if it took the
    /// message, `Err` with the message if it refused it. A refused message is
    /// dropped here. The result is the failure to report, if any; there is
    /// nothing else for the producer to learn.
    pub fn send(&self, queued: Result<(), Message>) -> (failure: Option<Failure>)
        ensures
            failure is Some <==> queued is Err,
            failure matches Some(failure) ==> failure@ == FailureView::Send,
    {
        match queued {
            Ok(()) => None,
            Err(_) => Some(Failure::Send),
        }
    }
}

impl<Message> Clone for IpcSender<Message> {
    /// Another handle for the same queue.
    fn clone(&self) -> (sender: Self)
        ensures
            sender.stream() == self.stream(),
    {
        IpcSender { stream: self.stream, phantom: PhantomData }
    }
}

} // verus!
