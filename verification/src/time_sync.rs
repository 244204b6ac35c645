//! Time synchronisation results and the Unix timestamps they carry.

use vstd::prelude::*;

verus! {

/// Seconds since the Unix epoch (UTC).
#[derive(Clone, Copy, Debug, PartialEq, Eq, Structural)]
pub struct UnixSeconds(pub i64);

impl UnixSeconds {
    /// The timestamp as a signed count of seconds.
    pub fn as_i64(self) -> (seconds: i64)
        ensures
            seconds == self.0,
    {
        self.0
    }
}

/// Events produced by the time synchronisation task.
#[derive(Clone, Copy, Debug)]
pub enum TimeSyncEvent {
    /// The network time was read.
    Success { unix_seconds: UnixSeconds },
    /// Synchronisation failed, with a reason.
    Failed(&'static str),
}

/// A time synchronisation device that never produces events (the build without
/// networking).
pub struct TimeSync;

} // verus!
