use vstd::prelude::*;

verus! {

/// Nanoseconds in one second; a valid `timespec` holds fewer.
pub const NANOS_PER_SEC: u32 = 1_000_000_000;

/// An absolute deadline in the shape of a `timespec`: whole seconds since
/// the Unix epoch and the nanoseconds past them.
#[derive(Copy, Clone, Debug, Eq, PartialEq)]
pub struct Timespec {
    pub secs: i64,
    pub nanos: i64,
}

impl Timespec {
    /// Seconds in range, nanoseconds below one second.
    pub open spec fn wf(self) -> bool {
        self.secs >= 0 && 0 <= self.nanos < NANOS_PER_SEC
    }
}

/// The deadline that lies `secs` seconds and `nanos` nanoseconds after the
/// epoch, as `sem_timedwait` reads it.
pub fn deadline(secs: u64, nanos: u32) -> (r: Timespec)
    requires
        secs <= i64::MAX,
        nanos < NANOS_PER_SEC,
    ensures
        r.wf(),
        r.secs == secs,
        r.nanos == nanos,
{
    Timespec { secs: secs as i64, nanos: nanos as i64 }
}

} // verus!
