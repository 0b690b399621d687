use std::cell::Cell;
use std::cell::RefCell;
use std::rc::Rc;

use workpool::worker_step;
use workpool::worker_turn;
use workpool::ChannelClosed;
use workpool::Job;
use workpool::Message;
use workpool::SharedReceiver;
use workpool::ThreadPool;
use workpool::WorkerState;

/// A job that records its own index in a shared log when it runs.
struct CountJob {
    log: Rc<RefCell<Vec<usize>>>,
    idx: usize,
}

impl Job for CountJob {
    fn run(self) {
        self.log.borrow_mut().push(self.idx);
    }
}

/// Builds a pool whose workers are driven by the test itself: the
/// start closure keeps one clone of the shared receive side and returns
/// a unit handle, so the test can play each worker's dispatch loop on
/// its own thread of control.
fn test_pool(
    size: usize,
) -> (ThreadPool<CountJob, ()>, SharedReceiver<CountJob>, Rc<RefCell<Vec<usize>>>) {
    let slot: Rc<RefCell<Option<SharedReceiver<CountJob>>>> = Rc::new(RefCell::new(None));
    let slot2 = Rc::clone(&slot);
    let pool = ThreadPool::new(size, move |_id, rx| {
        *slot2.borrow_mut() = Some(rx);
    });
    let rx = slot.borrow_mut().take().unwrap();
    let log = Rc::new(RefCell::new(Vec::new()));
    (pool, rx, log)
}

/// One worker's dispatch loop: keep taking turns until the worker stops.
fn drive_worker(rx: &SharedReceiver<CountJob>) {
    while worker_turn(rx) == WorkerState::Running {}
}

#[test]
fn step_runs_the_job_and_keeps_running() {
    let log = Rc::new(RefCell::new(Vec::new()));
    let job = CountJob { log: Rc::clone(&log), idx: 7 };
    let state = worker_step(Some(Message::NewJob(job)));
    assert!(state == WorkerState::Running);
    assert_eq!(*log.borrow(), vec![7]);
}

#[test]
fn step_stops_on_terminate() {
    let state = worker_step::<CountJob>(Some(Message::Terminate));
    assert!(state == WorkerState::Stopped);
}

#[test]
fn step_stops_on_disconnect() {
    let state = worker_step::<CountJob>(None);
    assert!(state == WorkerState::Stopped);
}

#[test]
fn construct_yields_size_workers_and_runs_nothing() {
    let (pool, _rx, log) = test_pool(4);
    assert_eq!(pool.worker_count(), 4);
    assert!(!pool.is_shut_down());
    assert!(log.borrow().is_empty());
}

#[test]
fn eight_jobs_on_four_workers_each_run_exactly_once() {
    let (mut pool, rx, log) = test_pool(4);
    for idx in 0..8 {
        let job = CountJob { log: Rc::clone(&log), idx };
        assert!(pool.execute(job).is_ok());
    }
    assert_eq!(pool.shutdown(|_h| {}), 4);
    for _worker in 0..4 {
        drive_worker(&rx);
    }
    let mut seen = log.borrow().clone();
    seen.sort();
    assert_eq!(seen, vec![0, 1, 2, 3, 4, 5, 6, 7]);
}

#[test]
fn single_worker_runs_jobs_in_submission_order() {
    let (mut pool, rx, log) = test_pool(1);
    for idx in 0..5 {
        let job = CountJob { log: Rc::clone(&log), idx };
        assert!(pool.execute(job).is_ok());
    }
    assert_eq!(pool.shutdown(|_h| {}), 1);
    drive_worker(&rx);
    assert_eq!(*log.borrow(), vec![0, 1, 2, 3, 4]);
}

#[test]
fn jobs_queued_before_shutdown_still_run() {
    let (mut pool, rx, log) = test_pool(2);
    for idx in 0..3 {
        let job = CountJob { log: Rc::clone(&log), idx };
        assert!(pool.execute(job).is_ok());
    }
    assert_eq!(pool.shutdown(|_h| {}), 2);
    drive_worker(&rx);
    drive_worker(&rx);
    let mut seen = log.borrow().clone();
    seen.sort();
    assert_eq!(seen, vec![0, 1, 2]);
}

#[test]
fn job_queued_after_shutdown_does_not_run() {
    let (mut pool, rx, log) = test_pool(2);
    assert_eq!(pool.shutdown(|_h| {}), 2);
    let late = CountJob { log: Rc::clone(&log), idx: 9 };
    assert!(pool.execute(late).is_ok());
    drive_worker(&rx);
    drive_worker(&rx);
    assert!(log.borrow().is_empty());
}

#[test]
fn shutdown_joins_every_worker_exactly_once() {
    let (mut pool, rx, _log) = test_pool(3);
    let joins = Cell::new(0usize);
    assert_eq!(pool.shutdown(|_h| joins.set(joins.get() + 1)), 3);
    assert_eq!(joins.get(), 3);
    assert!(pool.is_shut_down());
    assert_eq!(pool.worker_count(), 3);
    assert_eq!(pool.shutdown(|_h| joins.set(joins.get() + 1)), 0);
    assert_eq!(joins.get(), 3);
    assert!(pool.is_shut_down());
    for _worker in 0..3 {
        drive_worker(&rx);
    }
}

#[test]
fn execute_fails_once_every_receiver_is_gone() {
    let pool: ThreadPool<CountJob, ()> = ThreadPool::new(2, |_id, rx| {
        drop(rx);
    });
    let log = Rc::new(RefCell::new(Vec::new()));
    let job = CountJob { log, idx: 0 };
    assert_eq!(pool.execute(job), Err(ChannelClosed));
}
