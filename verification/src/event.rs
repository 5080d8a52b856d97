//! Readiness event masks.
//!
//! An [`Event`] is a small bitfield in the layout that `poll(2)` uses for the
//! `events` and `revents` fields of a `pollfd` record. The constants mirror
//! the host's `poll.h` bit values.

use vstd::prelude::*;

verus! {

/// Event mask: a bitfield of readiness conditions.
pub type Event = i16;

/// The source has bytes available, or urgent out-of-band data.
pub const READ: Event = 0x0003;

/// The source accepts bytes without blocking, including out-of-band write
/// room.
pub const WRITE: Event = 0x0204;

/// Every interest bit: readable or writable.
pub const ALL: Event = 0x0207;

/// The empty mask: valid as an interest, never reported as a readiness.
pub const NONE: Event = 0x0000;

/// Readiness-only bit: the peer closed the connection.
pub const HANGUP: Event = 0x0010;

/// Readiness-only bit: an asynchronous error is pending on the source.
pub const ERROR: Event = 0x0008;

/// Readiness-only bit: the descriptor is not open or not pollable.
pub const INVALID: Event = 0x0020;

} // verus!
