use slow_start_pool::message::RoutedMessage;
use slow_start_pool::supervisor::{
    OnWorkerStartFailure, Population, Route, SupervisorActor, SupervisorState,
};
use slow_start_pool::worker::{Received, SlowStartingActor, WorkerState};

/// A pool whose workers live in a vector: the handle of a worker is its
/// place in that vector.
struct Pool {
    supervisor: SupervisorActor<usize>,
    workers: Vec<SlowStartingActor>,
    received: Vec<Vec<Received<String>>>,
}

fn start_pool(pool_size: u16) -> Pool {
    let mut supervisor = SupervisorActor::new(pool_size, OnWorkerStartFailure::Exclude);
    assert_eq!(supervisor.state(), SupervisorState::Starting);
    let mut workers = Vec::new();
    let mut results = Vec::new();
    for id in supervisor.started() {
        let mut worker = SlowStartingActor::new(id);
        assert_eq!(worker.started(), 1000);
        worker.initialized();
        assert_eq!(worker.state(), WorkerState::Ready);
        results.push(Some(workers.len()));
        workers.push(worker);
    }
    assert_eq!(supervisor.registered_count(), 0);
    assert_eq!(
        supervisor.populate(results),
        Population::Completed { registered: pool_size as usize }
    );
    let received = workers.iter().map(|_| Vec::new()).collect();
    Pool { supervisor, workers, received }
}

fn send(pool: &mut Pool, msg: RoutedMessage<String>) -> bool {
    match pool.supervisor.handle(msg) {
        Route::Deliver { handle, message } => {
            let event = pool.workers[*handle].handle(message);
            pool.received[*handle].push(event);
            true
        }
        Route::UnknownReceiver { .. } => false,
    }
}

#[test]
fn pool_of_one_routes_to_its_only_worker() {
    let mut pool = start_pool(1);
    assert!(pool.supervisor.is_ready());
    assert_eq!(pool.supervisor.registered_count(), 1);
    assert!(pool.supervisor.is_registered(0));
    assert!(send(&mut pool, RoutedMessage::new(0, String::from("hello"))));
    assert_eq!(
        pool.received,
        vec![vec![Received { worker: 0, message: RoutedMessage::new(0, String::from("hello")) }]]
    );
}

#[test]
fn pool_of_ten_routes_to_worker_seven_only() {
    let mut pool = start_pool(10);
    assert_eq!(pool.supervisor.registered_count(), 10);
    for id in 0..10 {
        assert!(pool.supervisor.is_registered(id));
    }
    assert!(send(&mut pool, RoutedMessage::new(7, String::from("job"))));
    for id in 0..10usize {
        if id == 7 {
            assert_eq!(
                pool.received[id],
                vec![Received { worker: 7, message: RoutedMessage::new(7, String::from("job")) }]
            );
        } else {
            assert!(pool.received[id].is_empty());
        }
    }
}

#[test]
fn pool_of_ten_has_no_worker_ten() {
    let mut pool = start_pool(10);
    assert_eq!(
        pool.supervisor.handle(RoutedMessage::new(10, String::from("job"))),
        Route::UnknownReceiver { message: RoutedMessage::new(10, String::from("job")) }
    );
    assert!(!send(&mut pool, RoutedMessage::new(10, String::from("job"))));
    for id in 0..10usize {
        assert!(pool.received[id].is_empty());
    }
}

#[test]
fn one_request_is_delivered_once() {
    let mut pool = start_pool(4);
    assert!(send(&mut pool, RoutedMessage::new(2, String::from("once"))));
    let deliveries: usize = pool.received.iter().map(|events| events.len()).sum();
    assert_eq!(deliveries, 1);
    assert_eq!(pool.received[2].len(), 1);
    assert_eq!(pool.received[2][0].message.payload, "once");
}

#[test]
fn every_worker_of_the_pool_receives_its_own_requests() {
    let mut pool = start_pool(10);
    for id in 0..10u16 {
        assert!(send(&mut pool, RoutedMessage::new(id, format!("for {}", id))));
    }
    for id in 0..10u16 {
        assert_eq!(
            pool.received[id as usize],
            vec![Received { worker: id, message: RoutedMessage::new(id, format!("for {}", id)) }]
        );
    }
}
