//! A single-threaded asynchronous execution engine: an executor that accepts
//! deferred work, a timer queue, and a socket reactor, unified by one run loop
//! and one outstanding-operation counter that decides when the loop may stop.

pub mod executor;
pub mod io_service;
pub mod loop_scheduler;
pub mod timer_queue;
pub mod utils;

pub use executor::Executor;
pub use io_service::IoService;
pub use loop_scheduler::LoopScheduler;
pub use timer_queue::TimerQueue;
pub use utils::get_unused_idx;
