use std::sync::mpsc;

use coros::{joined_result, shutdown_outcome, CorosError, JoinHandle, PoolState};

#[test]
fn pool_needs_a_worker() {
    assert!(matches!(PoolState::new(0), Err(CorosError::CannotStartPoolWithoutSchedulers)));
    let p = PoolState::new(2).unwrap();
    assert!(!p.is_running);
    assert_eq!(p.thread_count, 2);
}

#[test]
fn spawn_index_must_name_a_worker() {
    let p = PoolState::new(1).unwrap();
    assert_eq!(p.thread_for_spawn(0), Ok(0));
    assert_eq!(p.thread_for_spawn(1), Err(CorosError::InvalidThreadForSpawn(1, 1)));
    let p = PoolState::new(4).unwrap();
    assert_eq!(p.thread_for_spawn(4), Err(CorosError::InvalidThreadForSpawn(4, 4)));
}

#[test]
fn random_thread_is_in_range() {
    let p = PoolState::new(3).unwrap();
    for _ in 0..100 {
        assert!(p.random_thread().unwrap() < 3);
    }
}

#[test]
fn start_and_stop_are_idempotent() {
    let mut p = PoolState::new(1).unwrap();
    assert!(!p.stop());
    assert!(p.start());
    assert!(!p.start());
    assert!(p.is_running);
    assert!(p.stop());
    assert!(!p.stop());
    assert!(p.start());
    assert!(p.stop());
}

#[test]
fn coroutine_ids_are_fresh() {
    let mut p = PoolState::new(1).unwrap();
    let a = p.new_coroutine().unwrap();
    let b = p.new_coroutine().unwrap();
    assert_eq!(a.id, 0);
    assert_eq!(b.id, 1);
    p.next_coroutine_id = u64::MAX;
    assert!(matches!(p.new_coroutine(), Err(CorosError::CoroutineIdsExhausted)));
}

#[test]
fn clean_shutdown() {
    assert_eq!(shutdown_outcome(Vec::new(), vec![Ok(()), Ok(())]), Ok(()));
}

#[test]
fn unclean_shutdown_lists_errors_in_order() {
    let r = shutdown_outcome(
        vec![CorosError::UnableToSendThreadShutdownSignal],
        vec![Ok(()), Err(CorosError::MioIoError), Err(CorosError::MissingCoroutine)],
    );
    assert_eq!(
        r,
        Err(CorosError::UncleanShutdown(vec![
            CorosError::UnableToSendThreadShutdownSignal,
            CorosError::MioIoError,
            CorosError::MissingCoroutine,
        ]))
    );
}

#[test]
fn join_returns_value_once() {
    let (tx, rx) = mpsc::channel();
    let mut h = JoinHandle::new(rx);
    tx.send(Ok(1)).unwrap();
    assert_eq!(h.join(), Ok(1));
    assert!(h.is_joined);
    assert_eq!(h.join(), Err(CorosError::CoroutineAlreadyJoined));
}

#[test]
fn join_reports_panic() {
    let (tx, rx) = mpsc::channel::<Result<u8, CorosError>>();
    let mut h = JoinHandle::new(rx);
    tx.send(Err(CorosError::CoroutinePanic)).unwrap();
    assert_eq!(h.join(), Err(CorosError::CoroutinePanic));
}

#[test]
fn join_on_closed_channel() {
    let (tx, rx) = mpsc::channel::<Result<u8, CorosError>>();
    drop(tx);
    let mut h = JoinHandle::new(rx);
    assert_eq!(h.join(), Err(CorosError::RecvError));
    assert_eq!(joined_result::<u8>(None), Err(CorosError::RecvError));
    assert_eq!(joined_result(Some(Ok(3u8))), Ok(3));
}

#[test]
fn error_descriptions() {
    assert_eq!(
        CorosError::SlabFullError.description(),
        "Error attempting to insert a suspended coroutine into a full slab"
    );
    assert_eq!(
        CorosError::InvalidThreadForSpawn(1, 1).description(),
        "Index of thread for coroutine spawn greater then thread count"
    );
}
