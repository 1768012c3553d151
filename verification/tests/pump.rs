use std::collections::BTreeMap;

use moonlight_ipc::{Failure, OutboundPump, PumpAction, PumpEvent, PumpState, PumpStep, Stream};

fn quiet(action: PumpAction) -> PumpStep {
    PumpStep { failure: None, action }
}

fn encoded<T: serde::Serialize>(value: &T) -> PumpEvent {
    PumpEvent::Message(serde_json::to_string(value).map_err(|err| format!("{err:?}")))
}

/// Drives a pump as a caller with a working stream would, and gives back all
/// that was written.
fn pump_all(pump: &mut OutboundPump, events: Vec<PumpEvent>) -> Vec<u8> {
    let mut wire = Vec::new();
    for event in events {
        let mut step = pump.step(event);
        loop {
            match step.action {
                PumpAction::Write(bytes) => {
                    wire.extend_from_slice(&bytes);
                    step = pump.step(PumpEvent::Written(Ok(())));
                }
                PumpAction::Flush => step = pump.step(PumpEvent::Flushed(Ok(()))),
                PumpAction::Receive | PumpAction::Halt => break,
            }
        }
    }
    wire
}

#[test]
fn a_new_pump_runs_on_its_stream() {
    let pump = OutboundPump::new(Stream::Stdin);
    assert_eq!(pump.state(), PumpState::Running);
    assert_eq!(pump.stream(), Stream::Stdin);
}

#[test]
fn a_message_is_written_then_flushed_then_the_next_is_awaited() {
    let mut pump = OutboundPump::new(Stream::Stdout);
    assert_eq!(
        pump.step(PumpEvent::Message(Ok("\"Stop\"".to_string()))),
        quiet(PumpAction::Write(b"\"Stop\"\n".to_vec()))
    );
    assert_eq!(pump.step(PumpEvent::Written(Ok(()))), quiet(PumpAction::Flush));
    assert_eq!(pump.step(PumpEvent::Flushed(Ok(()))), quiet(PumpAction::Receive));
    assert_eq!(pump.state(), PumpState::Running);
    assert_eq!(pump.stream(), Stream::Stdout);
}

#[test]
fn messages_reach_the_wire_in_the_order_sent() {
    let mut pump = OutboundPump::new(Stream::Stdin);
    let wire = pump_all(
        &mut pump,
        vec![encoded(&"m1"), encoded(&vec![2u32, 2]), encoded(&Some(3u8))],
    );
    assert_eq!(wire, b"\"m1\"\n[2,2]\n3\n".to_vec());
    assert_eq!(pump.state(), PumpState::Running);
}

#[test]
fn a_message_that_cannot_be_encoded_is_dropped_alone() {
    let mut unencodable = BTreeMap::new();
    unencodable.insert((1u8, 2u8), 3u8);
    let mut pump = OutboundPump::new(Stream::Stdin);

    let step = pump.step(encoded(&unencodable));
    assert_eq!(step.action, PumpAction::Receive);
    assert!(matches!(step.failure, Some(Failure::Encode(_))));
    assert_eq!(pump.state(), PumpState::Running);

    let wire = pump_all(&mut pump, vec![encoded(&1u8), encoded(&unencodable), encoded(&2u8)]);
    assert_eq!(wire, b"1\n2\n".to_vec());
    assert_eq!(pump.state(), PumpState::Running);
}

#[test]
fn an_encode_failure_is_reported_with_its_detail() {
    let mut pump = OutboundPump::new(Stream::Stdin);
    assert_eq!(
        pump.step(PumpEvent::Message(Err("no such value".to_string()))),
        PumpStep {
            failure: Some(Failure::Encode("no such value".to_string())),
            action: PumpAction::Receive
        }
    );
}

#[test]
fn a_failed_write_ends_the_pump() {
    let mut pump = OutboundPump::new(Stream::Stdin);
    pump.step(PumpEvent::Message(Ok("1".to_string())));
    assert_eq!(
        pump.step(PumpEvent::Written(Err("Kind(BrokenPipe)".to_string()))),
        PumpStep {
            failure: Some(Failure::Write("Kind(BrokenPipe)".to_string())),
            action: PumpAction::Halt
        }
    );
    assert_eq!(pump.state(), PumpState::Dead);
}

#[test]
fn a_failed_flush_ends_the_pump() {
    let mut pump = OutboundPump::new(Stream::Stdin);
    pump.step(PumpEvent::Message(Ok("1".to_string())));
    pump.step(PumpEvent::Written(Ok(())));
    assert_eq!(
        pump.step(PumpEvent::Flushed(Err("Kind(BrokenPipe)".to_string()))),
        PumpStep {
            failure: Some(Failure::Flush("Kind(BrokenPipe)".to_string())),
            action: PumpAction::Halt
        }
    );
    assert_eq!(pump.state(), PumpState::Dead);
}

#[test]
fn nothing_is_written_once_the_stream_has_failed() {
    let mut pump = OutboundPump::new(Stream::Stdin);
    pump.step(PumpEvent::Message(Ok("1".to_string())));
    pump.step(PumpEvent::Written(Err("Kind(BrokenPipe)".to_string())));

    assert_eq!(pump.step(PumpEvent::Message(Ok("2".to_string()))), quiet(PumpAction::Halt));
    assert_eq!(pump.step(PumpEvent::Message(Err("bad".to_string()))), quiet(PumpAction::Halt));
    assert_eq!(pump.step(PumpEvent::Written(Ok(()))), quiet(PumpAction::Halt));
    assert_eq!(pump.step(PumpEvent::Written(Err("again".to_string()))), quiet(PumpAction::Halt));
    assert_eq!(pump.step(PumpEvent::Flushed(Ok(()))), quiet(PumpAction::Halt));
    assert_eq!(pump.step(PumpEvent::Flushed(Err("again".to_string()))), quiet(PumpAction::Halt));
    assert_eq!(pump.step(PumpEvent::Closed), quiet(PumpAction::Halt));
    assert_eq!(pump.state(), PumpState::Dead);
    assert!(pump_all(&mut pump, vec![encoded(&3u8), encoded(&4u8)]).is_empty());
}

#[test]
fn a_closed_queue_ends_the_pump_in_good_order() {
    let mut pump = OutboundPump::new(Stream::Stdout);
    assert_eq!(pump.step(PumpEvent::Closed), quiet(PumpAction::Halt));
    assert_eq!(pump.state(), PumpState::Finished);
    assert_eq!(pump.step(PumpEvent::Message(Ok("late".to_string()))), quiet(PumpAction::Halt));
    assert_eq!(pump.state(), PumpState::Finished);
}
