use moonlight_ipc::{Failure, IpcSender, Stream};

#[test]
fn a_new_sender_is_bound_to_its_stream() {
    assert_eq!(IpcSender::<u32>::new(Stream::Stdin).stream(), Stream::Stdin);
}

#[test]
fn a_queued_message_is_reported_to_nobody() {
    let sender = IpcSender::<u32>::new(Stream::Stdin);
    assert_eq!(sender.send(Ok(())), None);
}

#[test]
fn a_refused_message_is_lost_and_reported() {
    let sender = IpcSender::new(Stream::Stdout);
    assert_eq!(sender.send(Err(vec![1u8, 2, 3])), Some(Failure::Send));
    assert_eq!(sender.send(Err(vec![4u8])), Some(Failure::Send));
    assert_eq!(sender.send(Ok(())), None);
}

#[test]
fn a_clone_feeds_the_same_stream() {
    let sender = IpcSender::<String>::new(Stream::Stdout);
    let other = sender.clone();
    assert_eq!(other.stream(), sender.stream());
    assert_eq!(other.send(Err("late".to_string())), Some(Failure::Send));
}

#[test]
fn a_closed_queue_refuses_and_the_sender_reports_it() {
    let (queue, drain) = tokio::sync::mpsc::channel::<u32>(moonlight_ipc::QUEUE_CAPACITY);
    let sender = IpcSender::new(Stream::Stdin);
    assert_eq!(sender.send(queue.try_send(1).map_err(|refused| refused.into_inner())), None);
    drop(drain);
    assert_eq!(
        sender.send(queue.try_send(2).map_err(|refused| refused.into_inner())),
        Some(Failure::Send)
    );
}
