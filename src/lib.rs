//! An M:N coroutine runtime's verified core: coroutine control blocks, the
//! per-worker parked table and scheduler decisions, the pool's life cycle,
//! join handles and the rendezvous channel.

pub mod channel;
mod error;
mod join_handle;
mod parked;
mod pool;
mod scheduler;
mod state;

pub use error::CorosError;
pub use parked::{Parked, ParkedTable, PARKED_CAPACITY};
pub use channel::{Receiver, Sender};
pub use join_handle::{joined_result, JoinHandle};
pub use pool::{
    create_scheduler_handles, send_work, shutdown_outcome, signal_shutdown, worker_errors, PoolState,
    SchedulerHandle,
};
pub use scheduler::{
    drain_step, lemma_parked_are_blocked, resumes_runnable, AfterRun, Drain, Polled, Scheduler, Wake, MAX_RECEIVED_WORK_BATCH_SIZE,
};
pub use state::{Coroutine, CoroutineState, Intent};
