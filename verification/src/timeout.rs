//! Optional bounded wait durations.

use vstd::prelude::*;

verus! {

/// The largest timeout, in milliseconds, that the host multiplexing syscall
/// accepts: `i32::MAX` milliseconds, about 25 days.
pub const MAX_WAIT_MILLIS: u64 = 0x7fff_ffff;

/// An optional timeout for [`crate::Poll::wait_timeout`].
///
/// Durations longer than [`MAX_WAIT_MILLIS`] milliseconds are silently
/// clipped to that maximum when the wait is issued.
#[derive(Debug, Clone, Copy, PartialEq, Eq, Structural)]
pub enum Timeout {
    /// Time out after the given number of milliseconds.
    After(u64),
    /// Never time out.
    Never,
}

impl Timeout {
    /// What the timeout becomes when handed to the multiplexing syscall:
    /// `-1` blocks indefinitely, any other value is a millisecond bound.
    pub open spec fn spec_millis(self) -> int {
        match self {
            Timeout::After(ms) => if ms > MAX_WAIT_MILLIS {
                0x7fff_ffff as int
            } else {
                ms as int
            },
            Timeout::Never => -1,
        }
    }

    /// Create a timeout with the specified number of seconds.
    ///
    /// See [`Timeout`] for an important note about the maximum timeout.
    pub fn from_secs(seconds: u32) -> (t: Self)
        ensures
            t == Timeout::After((seconds * 1000) as u64),
    {
        Timeout::After(seconds as u64 * 1000)
    }

    /// Create a timeout with the specified number of milliseconds.
    ///
    /// See [`Timeout`] for an important note about the maximum timeout.
    pub fn from_millis(milliseconds: u32) -> (t: Self)
        ensures
            t == Timeout::After(milliseconds as u64),
    {
        Timeout::After(milliseconds as u64)
    }

    /// The millisecond value handed to the multiplexing syscall: `-1` for
    /// [`Timeout::Never`], otherwise the duration clipped to
    /// [`MAX_WAIT_MILLIS`].
    pub fn as_poll_millis(self) -> (ms: i32)
        ensures
            ms == self.spec_millis(),
            self is Never <==> ms == -1,
    {
        match self {
            Timeout::After(ms) => if ms > MAX_WAIT_MILLIS {
                0x7fff_ffff
            } else {
                ms as i32
            },
            Timeout::Never => -1,
        }
    }
}

} // verus!
