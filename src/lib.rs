//! Decision logic of a counting semaphore that delegates blocking and waking
//! to the POSIX unnamed semaphore (`sem_t`).
//!
//! The operating-system calls themselves are made by the owner of the handle;
//! this library classifies what each call reported and decides what happens
//! next: hand a result back to the caller, call again after a signal, or stop
//! the process on a condition that cannot arise from a sound handle.

pub mod deadline;
pub mod error;
pub mod lifecycle;
pub mod model;
pub mod outcome;

pub use deadline::{deadline, Timespec, NANOS_PER_SEC};
pub use error::{NoToken, Overflow};
pub use lifecycle::{InitStep, Lifecycle, Mode};
pub use outcome::{
    post_step, timedwait_step, trywait_step, value_step, wait_step, ErrorCodes, Failure, Step,
};
