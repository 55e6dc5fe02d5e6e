use std::sync::mpsc;

use coros::{
    drain_step, AfterRun, Coroutine, CoroutineState, CorosError, Drain, Intent, Polled, Scheduler, Wake,
    MAX_RECEIVED_WORK_BATCH_SIZE, PARKED_CAPACITY,
};

fn scheduler() -> (Scheduler, mpsc::Sender<()>, mpsc::Sender<Coroutine>) {
    let (worker, _stealer) = deque::new();
    let (shutdown_tx, shutdown_rx) = mpsc::channel();
    let (work_tx, work_rx) = mpsc::channel();
    (Scheduler::new(shutdown_rx, worker, work_rx, Vec::new()), shutdown_tx, work_tx)
}

fn blocked(id: u64, intent: Intent) -> Coroutine {
    let mut c = Coroutine::new(id);
    c.run().unwrap();
    c.block(intent);
    c
}

fn park(s: &mut Scheduler, id: u64, intent: Intent) -> usize {
    match s.run_coroutine_finished(blocked(id, intent)).unwrap() {
        AfterRun::Parked { token, intent: i } => {
            assert_eq!(i, intent);
            token
        }
        _ => panic!("coroutine was not parked"),
    }
}

#[test]
fn coroutine_life_cycle() {
    let mut c = Coroutine::new(7);
    assert_eq!(c.state, CoroutineState::New);
    assert!(c.run().is_ok());
    assert_eq!(c.state, CoroutineState::Running);
    assert_eq!(c.run(), Err(CorosError::InvalidCoroutineState));
    c.block(Intent::Sleep { ms: 5 });
    assert!(c.blocked());
    assert_eq!(c.run(), Err(CorosError::InvalidCoroutineState));
    assert_eq!(c.take_intent(), Some(Intent::Sleep { ms: 5 }));
    assert!(c.run().is_ok());
    c.terminate();
    assert!(c.terminated());
    assert_eq!(c.id, 7);
}

#[test]
fn finished_coroutine_is_dropped() {
    let (mut s, _, _) = scheduler();
    let mut c = Coroutine::new(1);
    c.run().unwrap();
    c.terminate();
    assert!(matches!(s.run_coroutine_finished(c), Ok(AfterRun::Finished)));
    assert_eq!(s.parked_count(), 0);
}

#[test]
fn coroutine_that_did_not_yield_properly_is_an_error() {
    let (mut s, _, _) = scheduler();
    let mut running = Coroutine::new(1);
    running.run().unwrap();
    assert!(matches!(s.run_coroutine_finished(running), Err(CorosError::InvalidCoroutineState)));
    let mut no_intent = blocked(2, Intent::Recv);
    no_intent.take_intent();
    assert!(matches!(s.run_coroutine_finished(no_intent), Err(CorosError::InvalidCoroutineNoCallback)));
    assert_eq!(s.parked_count(), 0);
}

#[test]
fn sleeping_coroutine_wakes_on_timer_and_ignores_readiness() {
    let (mut s, _, _) = scheduler();
    let token = park(&mut s, 3, Intent::Sleep { ms: 500 });
    assert_eq!(s.parked_count(), 1);
    assert!(matches!(s.enqueue_coroutine(token, true), Ok(Wake::Stray)));
    assert_eq!(s.parked_count(), 1);
    match s.enqueue_coroutine(token, false) {
        Ok(Wake::Resume { coroutine, readiness }) => {
            assert_eq!(coroutine.id, 3);
            assert!(!readiness);
            assert_eq!(coroutine.state, CoroutineState::Blocked);
            assert_eq!(coroutine.intent, None);
        }
        _ => panic!("coroutine was not resumed"),
    }
    assert_eq!(s.parked_count(), 0);
}

#[test]
fn io_coroutine_wakes_on_readiness_only() {
    let (mut s, _, _) = scheduler();
    let token = park(&mut s, 4, Intent::Register);
    assert!(matches!(
        s.enqueue_coroutine(token, false),
        Err(CorosError::CoroutineBlockedOnIoAwokenForNotIo)
    ));
    assert_eq!(s.parked_count(), 1);
    match s.enqueue_coroutine(token, true) {
        Ok(Wake::Resume { coroutine, readiness }) => {
            assert_eq!(coroutine.id, 4);
            assert!(readiness);
        }
        _ => panic!("coroutine was not resumed"),
    }
    assert!(matches!(s.enqueue_coroutine(token, true), Err(CorosError::MissingCoroutine)));
}

#[test]
fn unknown_token_is_missing() {
    let (mut s, _, _) = scheduler();
    assert!(matches!(s.enqueue_coroutine(12, false), Err(CorosError::MissingCoroutine)));
}

#[test]
fn tokens_are_recycled() {
    let (mut s, _, _) = scheduler();
    let a = park(&mut s, 1, Intent::Recv);
    let b = park(&mut s, 2, Intent::Deregister);
    assert_ne!(a, b);
    assert!(matches!(s.enqueue_coroutine(a, false), Ok(Wake::Resume { .. })));
    let c = park(&mut s, 3, Intent::Reregister);
    assert_eq!(a, c);
}

#[test]
fn full_parked_table_refuses_and_keeps_the_coroutine() {
    let (mut s, _, _) = scheduler();
    for i in 0..PARKED_CAPACITY {
        park(&mut s, i as u64, Intent::Sleep { ms: 1 });
    }
    assert_eq!(s.parked_count(), PARKED_CAPACITY);
    match s.run_coroutine_finished(blocked(99_999, Intent::Sleep { ms: 1 })) {
        Ok(AfterRun::Refused { coroutine, error }) => {
            assert_eq!(error, CorosError::SlabFullError);
            assert_eq!(coroutine.id, 99_999);
            assert_eq!(coroutine.intent, None);
        }
        _ => panic!("park was not refused"),
    }
    assert_eq!(s.parked_count(), PARKED_CAPACITY);
}

#[test]
fn shutdown_waits_for_parked_coroutines() {
    let (mut s, shutdown_tx, _) = scheduler();
    assert!(!s.ready_to_shutdown());
    let token = park(&mut s, 1, Intent::Sleep { ms: 10 });
    shutdown_tx.send(()).unwrap();
    assert!(!s.ready_to_shutdown());
    assert!(!s.observe_shutdown(false));
    s.enqueue_coroutine(token, false).unwrap();
    assert!(s.observe_shutdown(false));
}

#[test]
fn received_work_runs_last_in_first_out() {
    let (s, _, work_tx) = scheduler();
    for id in 0..3 {
        work_tx.send(Coroutine::new(id)).unwrap();
    }
    assert_eq!(s.move_received_work_onto_queue(), Ok(3));
    assert_eq!(s.next_coroutine().map(|c| c.id), Some(2));
    assert_eq!(s.next_coroutine().map(|c| c.id), Some(1));
    assert_eq!(s.next_coroutine().map(|c| c.id), Some(0));
    assert!(s.next_coroutine().is_none());
}

#[test]
fn closed_mailbox_is_an_error() {
    let (s, _, work_tx) = scheduler();
    drop(work_tx);
    assert_eq!(s.move_received_work_onto_queue(), Err(CorosError::TryRecvError));
}

#[test]
fn idle_worker_steals_from_another() {
    let (busy_worker, busy_stealer) = deque::new();
    let (_shutdown_tx, shutdown_rx) = mpsc::channel();
    let (_work_tx, work_rx) = mpsc::channel();
    let (idle_worker, _idle_stealer) = deque::new();
    let idle = Scheduler::new(shutdown_rx, idle_worker, work_rx, vec![busy_stealer]);
    busy_worker.push(Coroutine::new(5));
    busy_worker.push(Coroutine::new(6));
    assert_eq!(idle.stolen_work().map(|c| c.id), Some(5));
    assert_eq!(idle.next_coroutine().map(|c| c.id), Some(6));
    assert!(idle.next_coroutine().is_none());
    assert!(busy_worker.pop().is_none());
}

#[test]
fn pushed_coroutine_comes_back() {
    let (s, _, _) = scheduler();
    s.push_ready(Coroutine::new(8));
    assert_eq!(s.next_coroutine().map(|c| c.id), Some(8));
}

#[test]
fn drain_step_decides_each_look() {
    assert!(matches!(drain_step(Polled::Value(Coroutine::new(4))), Drain::Push(c) if c.id == 4));
    assert!(matches!(drain_step(Polled::Empty), Drain::Stop));
    assert!(matches!(drain_step(Polled::Closed), Drain::Fail(CorosError::TryRecvError)));
}

#[test]
fn mailbox_is_drained_one_batch_at_a_time() {
    let (s, _, work_tx) = scheduler();
    for id in 0..1500 {
        work_tx.send(Coroutine::new(id)).unwrap();
    }
    assert_eq!(s.move_received_work_onto_queue(), Ok(MAX_RECEIVED_WORK_BATCH_SIZE));
    assert_eq!(s.next_coroutine().map(|c| c.id), Some(1023));
    assert_eq!(s.move_received_work_onto_queue(), Ok(1500 - MAX_RECEIVED_WORK_BATCH_SIZE));
    assert_eq!(s.next_coroutine().map(|c| c.id), Some(1499));
    assert_eq!(s.move_received_work_onto_queue(), Ok(0));
}

#[test]
fn empty_mailbox_moves_nothing() {
    let (s, _, _work_tx) = scheduler();
    assert_eq!(s.move_received_work_onto_queue(), Ok(0));
    assert!(s.next_coroutine().is_none());
}

#[test]
fn no_stealers_steal_nothing() {
    let (s, _, _) = scheduler();
    assert!(s.stolen_work().is_none());
}

#[test]
fn failed_registration_unparks() {
    let (mut s, _, _) = scheduler();
    let token = park(&mut s, 9, Intent::Register);
    assert_eq!(s.unpark(token).map(|c| c.id), Some(9));
    assert_eq!(s.parked_count(), 0);
    assert!(s.unpark(token).is_none());
}

#[test]
fn runnable_check() {
    let mut c = Coroutine::new(1);
    assert!(c.is_runnable());
    c.run().unwrap();
    assert!(!c.is_runnable());
    c.block(Intent::Recv);
    assert!(!c.is_runnable());
    c.take_intent();
    assert!(c.is_runnable());
}
