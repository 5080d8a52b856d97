//! A minimal readiness-notification facility over POSIX-style file
//! descriptors.
//!
//! A [`Poll`] registry binds caller-chosen keys to file descriptors together
//! with an interest mask. [`Poll::wait_timeout`] blocks until at least one
//! registered source reports readiness (or the timeout elapses), after which
//! the ready sources can be enumerated in storage order. A [`Waker`] is a
//! self-pipe registered like any other source; waking it from another thread
//! interrupts a blocked wait.

pub mod event;
pub mod key;
pub mod registry;
pub mod source;
pub mod sys;
pub mod timeout;
pub mod waker;

pub use event::Event;
pub use key::Key;
pub use registry::{IntoIter, Iter, Poll};
pub use source::{HasPoll, PollFd};
pub use sys::OsError;
pub use timeout::Timeout;
pub use waker::{set_nonblocking, Waker};
