use slow_start_pool::message::RoutedMessage;
use slow_start_pool::worker::{Received, SlowStartingActor, WorkerState, STARTUP_LAG_MILLIS};

#[test]
fn routed_message_keeps_receiver_and_payload() {
    let msg = RoutedMessage::new(7, String::from("work"));
    assert_eq!(msg.receiver, 7);
    assert_eq!(msg.payload, "work");
    assert_eq!(msg, RoutedMessage { receiver: 7, payload: String::from("work") });
    assert_ne!(msg, RoutedMessage::new(8, String::from("work")));
}

#[test]
fn new_worker_is_created_and_not_ready() {
    let worker = SlowStartingActor::new(4);
    assert_eq!(worker.id(), 4);
    assert_eq!(worker.state(), WorkerState::Created);
    assert!(!worker.is_ready());
}

#[test]
fn startup_lag_is_one_second() {
    assert_eq!(STARTUP_LAG_MILLIS, 1000);
    let mut worker = SlowStartingActor::new(0);
    assert_eq!(worker.started(), 1000);
}

#[test]
fn worker_goes_from_created_through_initializing_to_ready() {
    let mut worker = SlowStartingActor::new(9);
    worker.started();
    assert_eq!(worker.state(), WorkerState::Initializing);
    assert!(!worker.is_ready());
    assert_eq!(worker.id(), 9);
    worker.initialized();
    assert_eq!(worker.state(), WorkerState::Ready);
    assert!(worker.is_ready());
    assert_eq!(worker.id(), 9);
}

#[test]
fn ready_worker_reports_which_request_it_received() {
    let mut worker = SlowStartingActor::new(2);
    worker.started();
    worker.initialized();
    let event = worker.handle(RoutedMessage::new(2, 55u32));
    assert_eq!(event, Received { worker: 2, message: RoutedMessage::new(2, 55u32) });
    assert_eq!(worker.state(), WorkerState::Ready);
    let again = worker.handle(RoutedMessage::new(2, 56u32));
    assert_eq!(again.worker, 2);
    assert_eq!(again.message.payload, 56);
}
