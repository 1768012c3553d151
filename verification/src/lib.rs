//! A control channel between a parent process and a worker process.
//!
//! The two processes exchange messages as lines of text over the worker's
//! standard input and output, while the worker's standard error carries log
//! text. This crate holds the protocol of that channel as state machines that
//! perform no input or output themselves: the caller reads, writes and waits,
//! tells a machine what happened, and is told what to do next.

pub mod channel;
pub mod delivery;
pub mod frame;
pub mod log;
pub mod pump;
pub mod receiver;
pub mod relay;
pub mod sender;
pub mod startup;
pub mod stream;

pub use crate::channel::{create_child_ipc, create_process_ipc, Channel, QUEUE_CAPACITY};
pub use crate::frame::{frame, TERMINATOR};
pub use crate::log::{Failure, Level, LogRecord};
pub use crate::pump::{OutboundPump, PumpAction, PumpEvent, PumpState, PumpStep};
pub use crate::receiver::{IpcReceiver, ReaderState, RecvAction, RecvEvent, RecvStep};
pub use crate::relay::{LogRelay, RelayAction, RelayState};
pub use crate::sender::IpcSender;
pub use crate::startup::init;
pub use crate::stream::Stream;
