use vstd::prelude::*;

use crate::error::{NoToken, Overflow};

verus! {

/// What a failed call of the primitive reported, sorted into the conditions
/// that the semaphore handles.
#[derive(Copy, Clone, Debug, Eq, PartialEq)]
pub enum Failure {
    /// A signal cut the call short.
    Interrupted,
    /// The count was zero and the call was not allowed to block.
    WouldBlock,
    /// The deadline passed before a token became available.
    TimedOut,
    /// The count is already at its largest value.
    CountOverflow,
    /// Any other error number.
    Other(i32),
}

/// The error numbers that the platform uses for the conditions of `Failure`.
#[derive(Copy, Clone, Debug, Eq, PartialEq)]
pub struct ErrorCodes {
    pub interrupted: i32,
    pub would_block: i32,
    pub timed_out: i32,
    pub overflow: i32,
}

/// Relies on libc's constants `EINTR`, `EAGAIN`, `ETIMEDOUT` and `EOVERFLOW`:
/// on every platform that libc describes they are nonzero and distinct (some
/// platforms use negative error numbers).
#[verifier::external_body]
fn libc_error_codes() -> (r: ErrorCodes)
    ensures
        r.wf(),
{
    ErrorCodes {
        interrupted: libc::EINTR,
        would_block: libc::EAGAIN,
        timed_out: libc::ETIMEDOUT,
        overflow: libc::EOVERFLOW,
    }
}

impl ErrorCodes {
    /// Error numbers are nonzero, and no two conditions share one.
    pub open spec fn wf(self) -> bool {
        &&& self.interrupted != 0
        &&& self.would_block != 0
        &&& self.timed_out != 0
        &&& self.overflow != 0
        &&& self.interrupted != self.would_block
        &&& self.interrupted != self.timed_out
        &&& self.interrupted != self.overflow
        &&& self.would_block != self.timed_out
        &&& self.would_block != self.overflow
        &&& self.timed_out != self.overflow
    }

    /// The condition that the error number `errno` stands for.
    pub open spec fn failure_of(self, errno: i32) -> Failure {
        if errno == self.interrupted {
            Failure::Interrupted
        } else if errno == self.would_block {
            Failure::WouldBlock
        } else if errno == self.timed_out {
            Failure::TimedOut
        } else if errno == self.overflow {
            Failure::CountOverflow
        } else {
            Failure::Other(errno)
        }
    }

    /// What a call reported: success on a zero return code, else the
    /// condition of the error number it left.
    pub open spec fn reply_of(self, rc: i32, errno: i32) -> Result<(), Failure> {
        if rc == 0 {
            Ok(())
        } else {
            Err(self.failure_of(errno))
        }
    }

    /// The error numbers of the platform the library was built for.
    pub fn native() -> (r: ErrorCodes)
        ensures
            r.wf(),
    {
        libc_error_codes()
    }

    /// Sorts the error number `errno` into a condition.
    pub fn classify(&self, errno: i32) -> (r: Failure)
        ensures
            r == self.failure_of(errno),
    {
        if errno == self.interrupted {
            Failure::Interrupted
        } else if errno == self.would_block {
            Failure::WouldBlock
        } else if errno == self.timed_out {
            Failure::TimedOut
        } else if errno == self.overflow {
            Failure::CountOverflow
        } else {
            Failure::Other(errno)
        }
    }

    /// Reads the return code `rc` of a call, and the error number `errno` it
    /// left behind when it failed.
    pub fn reply(&self, rc: i32, errno: i32) -> (r: Result<(), Failure>)
        ensures
            r == self.reply_of(rc, errno),
    {
        if rc == 0 {
            Ok(())
        } else {
            Err(self.classify(errno))
        }
    }
}

/// What the handle does after one call of the primitive.
#[derive(Copy, Clone, Debug, Eq, PartialEq)]
pub enum Step<T> {
    /// Hand this result to the caller.
    Done(T),
    /// Make the same call again.
    Retry,
    /// The handle is corrupt or misused: stop the process.
    Abort,
}

/// The step after a blocking acquire reported `reply`.
pub open spec fn on_wait(reply: Result<(), Failure>) -> Step<()> {
    match reply {
        Ok(()) => Step::Done(()),
        Err(Failure::Interrupted) => Step::Retry,
        Err(_) => Step::Abort,
    }
}

/// The step after a non-blocking acquire reported `reply`.
pub open spec fn on_trywait(reply: Result<(), Failure>) -> Step<Result<(), NoToken>> {
    match reply {
        Ok(()) => Step::Done(Ok(())),
        Err(Failure::Interrupted) => Step::Retry,
        Err(Failure::WouldBlock) => Step::Done(Err(NoToken)),
        Err(_) => Step::Abort,
    }
}

/// The step after an acquire bounded by a deadline reported `reply`.
pub open spec fn on_timedwait(reply: Result<(), Failure>) -> Step<Result<(), NoToken>> {
    match reply {
        Ok(()) => Step::Done(Ok(())),
        Err(Failure::Interrupted) => Step::Retry,
        Err(Failure::TimedOut) => Step::Done(Err(NoToken)),
        Err(_) => Step::Abort,
    }
}

/// The step after a release reported `reply`. A release is never repeated.
pub open spec fn on_post(reply: Result<(), Failure>) -> Step<Result<(), Overflow>> {
    match reply {
        Ok(()) => Step::Done(Ok(())),
        Err(Failure::CountOverflow) => Step::Done(Err(Overflow)),
        Err(_) => Step::Abort,
    }
}

/// The count to report after reading it gave the return code `rc` and the value `value`.
pub open spec fn on_value(rc: i32, value: i32) -> Option<i32> {
    if rc == 0 {
        Some(value)
    } else {
        None
    }
}

/// Decides after `sem_wait`: only a signal makes it try again.
pub fn wait_step(reply: Result<(), Failure>) -> (r: Step<()>)
    ensures
        r == on_wait(reply),
{
    match reply {
        Ok(()) => Step::Done(()),
        Err(Failure::Interrupted) => Step::Retry,
        Err(_) => Step::Abort,
    }
}

/// Decides after `sem_trywait`: a zero count becomes `NoToken`.
pub fn trywait_step(reply: Result<(), Failure>) -> (r: Step<Result<(), NoToken>>)
    ensures
        r == on_trywait(reply),
{
    match reply {
        Ok(()) => Step::Done(Ok(())),
        Err(Failure::Interrupted) => Step::Retry,
        Err(Failure::WouldBlock) => Step::Done(Err(NoToken)),
        Err(_) => Step::Abort,
    }
}

/// Decides after `sem_timedwait`: a passed deadline becomes `NoToken`.
pub fn timedwait_step(reply: Result<(), Failure>) -> (r: Step<Result<(), NoToken>>)
    ensures
        r == on_timedwait(reply),
{
    match reply {
        Ok(()) => Step::Done(Ok(())),
        Err(Failure::Interrupted) => Step::Retry,
        Err(Failure::TimedOut) => Step::Done(Err(NoToken)),
        Err(_) => Step::Abort,
    }
}

/// Decides after `sem_post`: a full count becomes `Overflow`.
pub fn post_step(reply: Result<(), Failure>) -> (r: Step<Result<(), Overflow>>)
    ensures
        r == on_post(reply),
        !(r is Retry),
{
    match reply {
        Ok(()) => Step::Done(Ok(())),
        Err(Failure::CountOverflow) => Step::Done(Err(Overflow)),
        Err(_) => Step::Abort,
    }
}

/// Decides after `sem_getvalue`: the value read, or `None` where the read
/// failed, which a valid handle never sees.
pub fn value_step(rc: i32, value: i32) -> (r: Option<i32>)
    ensures
        r == on_value(rc, value),
{
    if rc == 0 {
        Some(value)
    } else {
        None
    }
}

} // verus!
