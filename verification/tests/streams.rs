use std::future::Future;
use std::task::{Context, Poll, Waker};

use moonlight_ipc::{
    create_child_ipc, create_process_ipc, Failure, IpcReceiver, Level, LogRecord, OutboundPump,
    PumpAction, PumpEvent, PumpState, ReaderState, RecvAction, RecvEvent, RelayAction,
    RelayState, Stream,
};
use tokio::io::{
    duplex, AsyncBufReadExt, AsyncReadExt, AsyncWriteExt, BufReader, DuplexStream, Lines,
};
use tokio::sync::mpsc::{channel, Receiver};

type Message = Vec<u32>;

fn run<F: Future>(future: F) -> F::Output {
    tokio::runtime::Builder::new_current_thread()
        .build()
        .expect("a runtime")
        .block_on(future)
}

/// Drives the pump until it halts: takes messages from the queue, encodes
/// them with serde_json and does on the stream what the pump asks for.
async fn pump_until_halt(
    pump: &mut OutboundPump,
    mut write: DuplexStream,
    mut queue: Receiver<Message>,
) -> Vec<Failure> {
    let mut failures = Vec::new();
    let mut action = PumpAction::Receive;
    loop {
        let event = match action {
            PumpAction::Receive => match queue.recv().await {
                Some(message) => PumpEvent::Message(
                    serde_json::to_string(&message).map_err(|err| format!("{err:?}")),
                ),
                None => PumpEvent::Closed,
            },
            PumpAction::Write(bytes) => PumpEvent::Written(
                write.write_all(&bytes).await.map_err(|err| format!("{err:?}")),
            ),
            PumpAction::Flush => {
                PumpEvent::Flushed(write.flush().await.map_err(|err| format!("{err:?}")))
            }
            PumpAction::Halt => return failures,
        };
        let step = pump.step(event);
        failures.extend(step.failure);
        action = step.action;
    }
}

/// What one receive gives, with the number of reads it made and the failure
/// it reported.
struct Receive {
    outcome: RecvAction<Message>,
    reads: usize,
    failure: Option<Failure>,
}

/// One whole receive on a stream of lines, decoding with serde_json.
async fn receive(
    receiver: &mut IpcReceiver<Message>,
    lines: &mut Lines<BufReader<DuplexStream>>,
) -> Receive {
    let mut reads = 0;
    let mut failure = None;
    let mut step = receiver.recv(RecvEvent::Poll);
    loop {
        failure = failure.or(step.failure);
        let event = match step.action {
            RecvAction::ReadLine => {
                reads += 1;
                RecvEvent::Line(lines.next_line().await.map_err(|err| format!("{err:?}")))
            }
            RecvAction::Decode(line) => RecvEvent::Decoded(
                serde_json::from_str::<Message>(&line).map_err(|err| format!("{err:?}")),
            ),
            outcome => return Receive { outcome, reads, failure },
        };
        step = receiver.recv(event);
    }
}

#[test]
fn messages_sent_in_sequence_arrive_on_the_stream_in_that_order() {
    run(async {
        let end = create_child_ipc::<Message, Message>(false);
        let mut pump = end.pump;
        let (queue, drain) = channel::<Message>(end.capacity);
        let (write, mut far_end) = duplex(1024);

        for message in [vec![1], vec![2, 2], vec![3, 3, 3]] {
            assert_eq!(end.sender.send(queue.send(message).await.map_err(|refused| refused.0)), None);
        }
        drop(queue);

        assert!(pump_until_halt(&mut pump, write, drain).await.is_empty());
        assert_eq!(pump.state(), PumpState::Finished);

        let mut arrived = Vec::new();
        far_end.read_to_end(&mut arrived).await.expect("the bytes that were written");
        assert_eq!(arrived, b"[1]\n[2,2]\n[3,3,3]\n".to_vec());
    });
}

#[test]
fn a_producer_waits_while_the_queue_is_full() {
    let end = create_process_ipc::<Message, Message>();
    let (queue, mut drain) = channel::<usize>(end.capacity);
    let mut context = Context::from_waker(Waker::noop());

    for message in 0..end.capacity {
        let mut sending = Box::pin(queue.send(message));
        assert_eq!(sending.as_mut().poll(&mut context), Poll::Ready(Ok(())));
    }

    let mut waiting = Box::pin(queue.send(end.capacity));
    assert!(waiting.as_mut().poll(&mut context).is_pending());
    assert!(waiting.as_mut().poll(&mut context).is_pending());

    assert_eq!(drain.try_recv().ok(), Some(0));
    assert_eq!(waiting.as_mut().poll(&mut context), Poll::Ready(Ok(())));

    for expected in 1..=end.capacity {
        assert_eq!(drain.try_recv().ok(), Some(expected));
    }
    assert!(drain.try_recv().is_err());
}

#[test]
fn nothing_is_written_and_no_send_fails_once_the_stream_is_closed() {
    run(async {
        let end = create_child_ipc::<Message, Message>(false);
        let mut pump = end.pump;
        let (queue, drain) = channel::<Message>(end.capacity);
        let (write, far_end) = duplex(1024);
        drop(far_end);

        queue.send(vec![1]).await.expect("room in the queue");
        queue.send(vec![2]).await.expect("room in the queue");

        let failures = pump_until_halt(&mut pump, write, drain).await;
        assert_eq!(failures.len(), 1);
        assert!(matches!(&failures[0], Failure::Write(_)));
        assert!(!failures[0].is_recoverable());
        assert_eq!(pump.state(), PumpState::Dead);

        let lost = queue.send(vec![3]).await.map_err(|refused| refused.0);
        assert_eq!(lost, Err(vec![3]));
        assert_eq!(end.sender.send(lost), Some(Failure::Send));
        assert_eq!(
            pump.step(PumpEvent::Message(Ok("[3]".to_string()))).action,
            PumpAction::Halt
        );
    });
}

#[test]
fn a_failed_read_is_the_end_of_the_stream_for_good() {
    run(async {
        let mut receiver = create_process_ipc::<Message, Message>().receiver;
        let (mut near_end, far_end) = duplex(1024);
        let mut lines = BufReader::new(far_end).lines();
        near_end.write_all(b"[1]\n\xff\xfe\n[2]\n").await.expect("room in the stream");

        let first = receive(&mut receiver, &mut lines).await;
        assert_eq!(first.outcome, RecvAction::Deliver(vec![1]));
        assert_eq!(first.reads, 1);

        let second = receive(&mut receiver, &mut lines).await;
        assert_eq!(second.outcome, RecvAction::EndOfStream);
        assert_eq!(second.reads, 1);
        assert!(matches!(second.failure, Some(Failure::Read(_))));
        assert_eq!(receiver.state(), ReaderState::Failed);

        for _ in 0..3 {
            let later = receive(&mut receiver, &mut lines).await;
            assert_eq!(later.outcome, RecvAction::EndOfStream);
            assert_eq!(later.reads, 0);
            assert_eq!(later.failure, None);
            assert_eq!(receiver.state(), ReaderState::Failed);
        }
    });
}

#[test]
fn a_malformed_line_on_the_stream_costs_one_receive() {
    run(async {
        let mut receiver = create_child_ipc::<Message, Message>(true).receiver;
        let (mut near_end, far_end) = duplex(1024);
        let mut lines = BufReader::new(far_end).lines();
        near_end.write_all(b"[1,2]\nnot a message\n[3]\n").await.expect("room in the stream");
        drop(near_end);

        let first = receive(&mut receiver, &mut lines).await;
        assert_eq!(first.outcome, RecvAction::Deliver(vec![1, 2]));
        assert_eq!(first.failure, None);

        let second = receive(&mut receiver, &mut lines).await;
        assert_eq!(second.outcome, RecvAction::Skip);
        assert!(matches!(&second.failure, Some(Failure::Decode(_))));
        assert!(second.failure.expect("the decode failure").is_recoverable());
        assert_eq!(receiver.state(), ReaderState::Live);

        let third = receive(&mut receiver, &mut lines).await;
        assert_eq!(third.outcome, RecvAction::Deliver(vec![3]));

        let end = receive(&mut receiver, &mut lines).await;
        assert_eq!(end.outcome, RecvAction::EndOfStream);
        assert_eq!(end.failure, None);
        assert_eq!(receiver.state(), ReaderState::Live);
    });
}

#[test]
fn the_relay_forwards_each_line_of_the_stream_once_and_in_order() {
    run(async {
        let mut relay = create_child_ipc::<Message, Message>(true)
            .relay
            .expect("a relay for the worker's standard error");
        assert_eq!(relay.stream(), Stream::Stderr);
        let (mut near_end, far_end) = duplex(1024);
        let mut lines = BufReader::new(far_end).lines();
        near_end.write_all(b"starting\n\n[1]\nlast words").await.expect("room in the stream");
        drop(near_end);

        let mut forwarded = Vec::new();
        loop {
            match relay.step(lines.next_line().await.map_err(|err| format!("{err:?}"))) {
                RelayAction::Forward(record) => forwarded.push(record),
                RelayAction::Stop => break,
            }
        }
        let expected: Vec<LogRecord> = ["starting", "", "[1]", "last words"]
            .iter()
            .map(|line| LogRecord { level: Level::Info, text: line.to_string() })
            .collect();
        assert_eq!(forwarded, expected);
        assert_eq!(relay.state(), RelayState::Stopped);
    });
}

#[test]
fn a_relay_that_stops_leaves_the_channel_alone() {
    run(async {
        let end = create_child_ipc::<Message, Message>(true);
        let mut relay = end.relay.expect("a relay for the worker's standard error");
        let mut pump = end.pump;
        let mut receiver = end.receiver;

        assert_eq!(relay.step(Err("Kind(InvalidData)".to_string())), RelayAction::Stop);
        assert_eq!(relay.state(), RelayState::Stopped);

        assert_eq!(pump.state(), PumpState::Running);
        assert_eq!(receiver.state(), ReaderState::Live);
        assert_eq!(
            pump.step(PumpEvent::Message(Ok("[1]".to_string()))).action,
            PumpAction::Write(b"[1]\n".to_vec())
        );
        assert_eq!(receiver.recv(RecvEvent::Poll).action, RecvAction::ReadLine);
    });
}
