use vstd::prelude::*;

verus! {

/// Whether the handle's `sem_t` has been set up by `sem_init`.
#[derive(Copy, Clone, Debug, Eq, PartialEq)]
pub enum Mode {
    /// The memory is allocated, but holds no live semaphore.
    Uninitialized,
    /// `sem_init` succeeded for use within this process, and `sem_destroy`
    /// has not been called since.
    Anonymous,
}

/// What construction does after `sem_init` returned.
#[derive(Copy, Clone, Debug, Eq, PartialEq)]
pub enum InitStep {
    /// The semaphore is live: hand the handle to the caller.
    Ready,
    /// `sem_init` failed: hand the operating system's error to the caller.
    Failed,
    /// `sem_init` returned a code it never returns.
    Abort,
}

/// The step after `sem_init` returned `rc`.
pub open spec fn on_init(rc: i32) -> InitStep {
    if rc == 0 {
        InitStep::Ready
    } else if rc == -1 {
        InitStep::Failed
    } else {
        InitStep::Abort
    }
}

/// The lifecycle tag of a handle: it records whether teardown is owed.
#[derive(Copy, Clone, Debug, Eq, PartialEq)]
pub struct Lifecycle {
    mode: Mode,
}

impl Lifecycle {
    /// The tag as it stands.
    pub closed spec fn mode(self) -> Mode {
        self.mode
    }

    /// The tag of freshly allocated, zeroed memory.
    pub fn new() -> (r: Lifecycle)
        ensures
            r.mode() == Mode::Uninitialized,
    {
        Lifecycle { mode: Mode::Uninitialized }
    }

    /// The current tag.
    pub fn current(&self) -> (r: Mode)
        ensures
            r == self.mode(),
    {
        self.mode
    }

    /// Records that `sem_init` returned `rc`: the tag becomes `Anonymous`
    /// exactly when it succeeded.
    pub fn record_init(&mut self, rc: i32) -> (r: InitStep)
        requires
            old(self).mode() == Mode::Uninitialized,
        ensures
            r == on_init(rc),
            final(self).mode() == (if rc == 0 {
                Mode::Anonymous
            } else {
                Mode::Uninitialized
            }),
    {
        if rc == 0 {
            self.mode = Mode::Anonymous;
            InitStep::Ready
        } else if rc == -1 {
            InitStep::Failed
        } else {
            InitStep::Abort
        }
    }

    /// Whether `sem_destroy` must run before the memory is freed.
    pub fn needs_teardown(&self) -> (r: bool)
        ensures
            r == (self.mode() == Mode::Anonymous),
    {
        match self.mode {
            Mode::Uninitialized => false,
            Mode::Anonymous => true,
        }
    }

    /// Records that `sem_destroy` returned `rc`. The result is whether it
    /// succeeded; a failure means the semaphore was corrupt, and the tag then
    /// stays as it was.
    pub fn record_teardown(&mut self, rc: i32) -> (r: bool)
        requires
            old(self).mode() == Mode::Anonymous,
        ensures
            r == (rc == 0),
            final(self).mode() == (if rc == 0 {
                Mode::Uninitialized
            } else {
                Mode::Anonymous
            }),
    {
        if rc == 0 {
            self.mode = Mode::Uninitialized;
            true
        } else {
            false
        }
    }
}

} // verus!
