//! The OS surface the library consumes, behind trusted wrappers.
//!
//! Each wrapper makes exactly one host call through the `nix` crate and
//! converts its arguments and result; its contract states what `nix`'s
//! source and the host's documentation promise of that call, and Verus
//! believes it without reading the body.

use vstd::prelude::*;

use crate::source::{ready_count, reported_within_interest, views_of, PollFd};

verus! {

/// An operating-system error, reduced to what the library's retry logic
/// distinguishes: the call would block, the call was interrupted by a
/// signal, or any other error with its raw `errno` value.
#[derive(Debug, Clone, Copy, PartialEq, Eq, Structural)]
pub enum OsError {
    /// The call would block (`EAGAIN` / `EWOULDBLOCK`).
    WouldBlock,
    /// The call was interrupted by a signal (`EINTR`).
    Interrupted,
    /// Any other error, carrying the raw `errno` value.
    Os(i32),
}

/// Relies on `nix::poll::poll` (the host's `poll(2)`): the syscall writes
/// each record's readiness mask and never its descriptor or interest mask,
/// reports only readiness that was asked for — plus the implicit
/// hangup/error/invalid bits — and on success returns the number of
/// records whose readiness mask is non-zero.
#[verifier::external_body]
pub(crate) fn sys_poll(fds: &mut Vec<PollFd>, timeout_ms: i32) -> (r: Result<usize, OsError>)
    ensures
        final(fds)@.len() == old(fds)@.len(),
        forall|i: int|
            0 <= i < final(fds)@.len() ==> (#[trigger] final(fds)@[i])@.fd == old(fds)@[i]@.fd
                && final(fds)@[i]@.events == old(fds)@[i]@.events,
        forall|i: int|
            0 <= i < final(fds)@.len() ==> reported_within_interest((#[trigger] final(fds)@[i])@),
        r matches Ok(n) ==> n == ready_count(views_of(final(fds)@)) && n <= final(fds)@.len(),
{
    let mut raw: Vec<nix::poll::PollFd> = fds.iter()
        .map(|p| nix::poll::PollFd::new(p.fd, nix::poll::PollFlags::from_bits_truncate(p.events)))
        .collect();
    let res = nix::poll::poll(&mut raw, timeout_ms);
    for (p, q) in fds.iter_mut().zip(raw.iter()) {
        p.revents = q.revents().map(|f| f.bits()).unwrap_or(0);
    }
    match res {
        Ok(n) => Ok(n as usize),
        Err(nix::errno::Errno::EAGAIN) => Err(OsError::WouldBlock),
        Err(nix::errno::Errno::EINTR) => Err(OsError::Interrupted),
        Err(e) => Err(OsError::Os(e as i32)),
    }
}

/// Relies on `nix::sys::socket::socketpair`: on success, a connected pair
/// of local stream sockets, each a valid (non-negative) descriptor.
#[verifier::external_body]
pub(crate) fn sys_socketpair() -> (r: Result<(i32, i32), OsError>)
    ensures
        r matches Ok(p) ==> p.0 >= 0 && p.1 >= 0,
{
    match nix::sys::socket::socketpair(
        nix::sys::socket::AddressFamily::Unix,
        nix::sys::socket::SockType::Stream,
        None,
        nix::sys::socket::SockFlag::empty(),
    ) {
        Ok(p) => Ok(p),
        Err(nix::errno::Errno::EINTR) => Err(OsError::Interrupted),
        Err(e) => Err(OsError::Os(e as i32)),
    }
}

/// Relies on `nix::unistd::write` (the host's `write(2)`): on success, the
/// number of bytes written from the given one-byte buffer, at most one.
#[verifier::external_body]
pub(crate) fn sys_write_byte(fd: i32) -> (r: Result<usize, OsError>)
    ensures
        r matches Ok(n) ==> n <= 1,
{
    match nix::unistd::write(fd, &[0x1u8]) {
        Ok(n) => Ok(n),
        Err(nix::errno::Errno::EAGAIN) => Err(OsError::WouldBlock),
        Err(nix::errno::Errno::EINTR) => Err(OsError::Interrupted),
        Err(e) => Err(OsError::Os(e as i32)),
    }
}

/// Relies on `nix::unistd::read` (the host's `read(2)`): on success, the
/// number of bytes read into the buffer, at most its length; zero means
/// the peer closed. The buffer's length is not changed.
#[verifier::external_body]
pub(crate) fn sys_read(fd: i32, buf: &mut Vec<u8>) -> (r: Result<usize, OsError>)
    ensures
        final(buf)@.len() == old(buf)@.len(),
        r matches Ok(n) ==> n <= final(buf)@.len(),
{
    match nix::unistd::read(fd, buf.as_mut_slice()) {
        Ok(n) => Ok(n),
        Err(nix::errno::Errno::EAGAIN) => Err(OsError::WouldBlock),
        Err(nix::errno::Errno::EINTR) => Err(OsError::Interrupted),
        Err(e) => Err(OsError::Os(e as i32)),
    }
}

/// Relies on `nix::unistd::close` (the host's `close(2)`).
#[verifier::external_body]
pub(crate) fn sys_close(fd: i32) -> (r: Result<(), OsError>)
{
    match nix::unistd::close(fd) {
        Ok(()) => Ok(()),
        Err(nix::errno::Errno::EINTR) => Err(OsError::Interrupted),
        Err(e) => Err(OsError::Os(e as i32)),
    }
}

/// Relies on `nix::fcntl::fcntl` with `F_GETFL` (the host's `fcntl(2)`):
/// on success, the descriptor's file status flags.
#[verifier::external_body]
pub(crate) fn sys_get_flags(fd: i32) -> (r: Result<i32, OsError>)
{
    match nix::fcntl::fcntl(fd, nix::fcntl::FcntlArg::F_GETFL) {
        Ok(flags) => Ok(flags),
        Err(nix::errno::Errno::EINTR) => Err(OsError::Interrupted),
        Err(e) => Err(OsError::Os(e as i32)),
    }
}

/// Relies on `nix::fcntl::fcntl` with `F_SETFL` (the host's `fcntl(2)`):
/// sets the descriptor's file status flags; on Linux, success is zero.
#[verifier::external_body]
pub(crate) fn sys_set_flags(fd: i32, flags: i32) -> (r: Result<i32, OsError>)
    ensures
        r matches Ok(v) ==> v == 0,
{
    match nix::fcntl::fcntl(
        fd,
        nix::fcntl::FcntlArg::F_SETFL(nix::fcntl::OFlag::from_bits_truncate(flags)),
    ) {
        Ok(v) => Ok(v),
        Err(nix::errno::Errno::EINTR) => Err(OsError::Interrupted),
        Err(e) => Err(OsError::Os(e as i32)),
    }
}

/// Relies on `nix::fcntl::OFlag::O_NONBLOCK` (the host's `O_NONBLOCK` file
/// status flag, `0o4000` on Linux).
#[verifier::external_body]
pub(crate) fn nonblock_flag() -> (r: i32)
    ensures
        r == 0x800,
{
    nix::fcntl::OFlag::O_NONBLOCK.bits()
}

} // verus!
