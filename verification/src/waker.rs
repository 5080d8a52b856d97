//! Waking a blocked wait from another thread.
//!
//! A [`Waker`] owns a connected pair of non-blocking local stream sockets;
//! its read end is registered in a registry like any other source. Writing
//! a byte from any thread makes the read end readable, so a blocked wait
//! returns, and a wait entered after the write returns at once — the
//! readiness is level-triggered and persists until the read end is drained
//! with [`Waker::reset`].

use vstd::prelude::*;

use crate::event;
use crate::key::Key;
use crate::registry::Poll;
use crate::source::{all_cleared, clear_all, PollFdView};
use crate::sys;
use crate::sys::OsError;

verus! {

/// Wakers are used to wake up `wait`.
///
/// The waker owns both ends of its socket pair; call [`Waker::close`] to
/// release the two descriptors.
pub struct Waker {
    reader: i32,
    writer: i32,
}

impl Waker {
    /// The read end's descriptor: the one registered in the registry.
    pub closed spec fn spec_reader(&self) -> i32 {
        self.reader
    }

    /// The write end's descriptor: the one a wake writes to.
    pub closed spec fn spec_writer(&self) -> i32 {
        self.writer
    }

    /// The read end's raw descriptor.
    pub fn reader_fd(&self) -> (fd: i32)
        ensures
            fd == self.spec_reader(),
    {
        self.reader
    }

    /// The write end's raw descriptor.
    pub fn writer_fd(&self) -> (fd: i32)
        ensures
            fd == self.spec_writer(),
    {
        self.writer
    }

    /// Create a new waker: a connected pair of local stream sockets, both
    /// set non-blocking, with the read end registered into `sources` under
    /// `key` with read interest. Like any registration, this resets the
    /// information about previously collected events. On failure the
    /// registry is unchanged and neither descriptor is leaked.
    pub fn new<K: Key>(sources: &mut Poll<K>, key: K) -> (r: Result<Waker, OsError>)
        requires
            old(sources).wf(),
        ensures
            final(sources).wf(),
            r matches Ok(w) ==> final(sources).spec_keys() == old(sources).spec_keys().push(key)
                && final(sources).spec_records() == clear_all(old(sources).spec_records()).push(
                PollFdView { fd: w.spec_reader(), events: event::READ, revents: 0 },
            ) && all_cleared(final(sources).spec_records())
                && final(sources).spec_events_count() == 0,
            r is Err ==> *final(sources) == *old(sources),
    {
        let (writer, reader) = match sys::sys_socketpair() {
            Ok(p) => p,
            Err(e) => {
                return Err(e);
            },
        };
        match set_nonblocking(reader, true) {
            Ok(_) => (),
            Err(e) => {
                let _ = sys::sys_close(reader);
                let _ = sys::sys_close(writer);
                return Err(e);
            },
        }
        match set_nonblocking(writer, true) {
            Ok(_) => (),
            Err(e) => {
                let _ = sys::sys_close(reader);
                let _ = sys::sys_close(writer);
                return Err(e);
            },
        }
        sources.register(key, reader, event::READ);
        Ok(Waker { reader, writer })
    }

    /// Wake up a waker: write one byte to the write end, so that the
    /// registry's current or next wait returns with a readiness event for
    /// this waker.
    ///
    /// A write that would block — the kernel buffer is already full after
    /// a storm of wakes — drains the read end and retries, so that any
    /// number of wakes collapse into at least one readiness, never zero.
    /// An interrupted write is retried. Consequently a would-block
    /// condition is never surfaced. Retries are bounded by a budget no
    /// real interruption storm reaches; a run that exhausts it is reported
    /// as an interruption.
    pub fn wake(&self) -> (r: Result<(), OsError>)
        ensures
            r matches Err(e) ==> e != OsError::WouldBlock,
    {
        let mut attempts: u32 = 0;
        while attempts < 0xffff_ffff
            invariant
                attempts <= 0xffff_ffff,
            decreases 0xffff_ffffu32 - attempts,
        {
            match sys::sys_write_byte(self.writer) {
                Ok(n) => {
                    if n > 0 {
                        return Ok(());
                    }
                },
                Err(e) => {
                    if e == OsError::WouldBlock {
                        match Self::reset(self.reader) {
                            Ok(_) => (),
                            Err(e2) => {
                                return Err(e2);
                            },
                        }
                    } else if e == OsError::Interrupted {
                    } else {
                        return Err(e);
                    }
                },
            }
            attempts = attempts + 1;
        }
        Err(OsError::Interrupted)
    }

    /// Reset a waker by draining its read end until reading would block
    /// (or the peer reports end of stream). Call this after observing the
    /// waker ready, so that later wakes are not elided by a still-full
    /// buffer. Works on the raw descriptor on purpose: the waker keeps
    /// ownership of it.
    ///
    /// A would-block condition is the normal termination and is never
    /// surfaced. The drain is bounded by a budget far beyond any kernel
    /// buffer's capacity.
    pub fn reset(fd: i32) -> (r: Result<(), OsError>)
        ensures
            r matches Err(e) ==> e != OsError::WouldBlock,
    {
        let mut buf: Vec<u8> = Vec::new();
        let mut i: usize = 0;
        while i < 4096
            invariant
                i <= 4096,
            decreases 4096 - i,
        {
            buf.push(0u8);
            i = i + 1;
        }
        let mut rounds: u32 = 0;
        while rounds < 0xffff_ffff
            invariant
                rounds <= 0xffff_ffff,
            decreases 0xffff_ffffu32 - rounds,
        {
            match sys::sys_read(fd, &mut buf) {
                Ok(n) => {
                    if n == 0 {
                        return Ok(());
                    }
                },
                Err(e) => {
                    if e == OsError::WouldBlock {
                        return Ok(());
                    }
                    return Err(e);
                },
            }
            rounds = rounds + 1;
        }
        Ok(())
    }

    /// Close both ends of the waker's socket pair, consuming it. The first
    /// error encountered is reported, after both descriptors were handed
    /// to the host to close.
    pub fn close(self) -> (r: Result<(), OsError>) {
        let r1 = sys::sys_close(self.reader);
        let r2 = sys::sys_close(self.writer);
        match r1 {
            Ok(()) => r2,
            Err(e) => Err(e),
        }
    }
}

/// Set or clear non-blocking mode on a descriptor's file status flags.
///
/// This is a convenience function if the source of your stream doesn't
/// provide an easy way to set it into non-blocking mode.
///
/// On Linux, this should always return `Ok(0)` or `Err(_)`; on other
/// operating systems, consult the `fcntl(2)` manual.
pub fn set_nonblocking(fd: i32, nonblocking: bool) -> (r: Result<i32, OsError>)
    ensures
        r matches Ok(v) ==> v == 0,
{
    let flags = match sys::sys_get_flags(fd) {
        Ok(flags) => flags,
        Err(e) => {
            return Err(e);
        },
    };
    let mask = sys::nonblock_flag();
    let flags = if nonblocking {
        flags | mask
    } else {
        flags & !mask
    };
    sys::sys_set_flags(fd, flags)
}

} // verus!
