//! Unit tests for timeouts, masks, registry bookkeeping and error
//! reporting, without any waiting.

use popol::{event, OsError, Poll, Timeout, Waker};

fn pair() -> (i32, i32) {
    nix::sys::socket::socketpair(
        nix::sys::socket::AddressFamily::Unix,
        nix::sys::socket::SockType::Stream,
        None,
        nix::sys::socket::SockFlag::empty(),
    )
    .expect("socketpair")
}

#[test]
fn timeout_millis_values() {
    assert_eq!(Timeout::from_millis(1).as_poll_millis(), 1);
    assert_eq!(Timeout::from_millis(0).as_poll_millis(), 0);
    assert_eq!(Timeout::from_secs(2).as_poll_millis(), 2000);
    assert_eq!(Timeout::Never.as_poll_millis(), -1);
}

#[test]
fn timeout_saturates() {
    // Longer than the syscall's millisecond capacity: clipped, not wrapped.
    assert_eq!(Timeout::After(u64::MAX).as_poll_millis(), i32::MAX);
    assert_eq!(Timeout::After(0x7fff_ffff).as_poll_millis(), i32::MAX);
    assert_eq!(Timeout::After(0x8000_0000).as_poll_millis(), i32::MAX);
    // Seconds are converted without overflowing.
    assert_eq!(Timeout::from_secs(u32::MAX).as_poll_millis(), i32::MAX);
}

#[test]
fn mask_constants() {
    assert_eq!(event::NONE, 0);
    assert_eq!(event::ALL, event::READ | event::WRITE);
    assert_eq!(event::READ & event::WRITE, 0);
}

#[test]
fn empty_record_predicates() {
    let p = popol::PollFd::default();
    assert!(!p.is_readable());
    assert!(!p.is_writable());
    assert!(!p.has_hangup());
    assert!(!p.has_errored());
    assert!(!p.is_invalid());
    assert!(!p.is_err());
    assert_eq!(p.as_raw_fd(), 0);
}

#[test]
fn registry_bookkeeping() {
    let mut poll = Poll::with_capacity(8);
    assert_eq!(poll.len(), 0);
    assert!(poll.is_empty());

    poll.register("a", 10, event::READ);
    poll.register("b", 11, event::NONE);
    assert_eq!(poll.len(), 2);
    assert!(!poll.is_empty());

    assert_eq!(poll.get(&"a").unwrap().as_raw_fd(), 10);
    assert_eq!(poll.get(&"b").unwrap().as_raw_fd(), 11);
    assert!(poll.get(&"c").is_none());

    assert!(poll.set(&"b", event::READ));
    assert!(!poll.set(&"c", event::READ));
    assert!(poll.unset(&"a", event::READ));
    assert!(!poll.unset(&"c", event::READ));

    poll.unregister(&"c");
    assert_eq!(poll.len(), 2);
    poll.unregister(&"a");
    assert_eq!(poll.len(), 1);
    assert!(poll.get(&"a").is_none());
    assert_eq!(poll.get(&"b").unwrap().as_raw_fd(), 11);
}

#[test]
fn duplicate_keys_remove_first() {
    let mut poll = Poll::new();
    poll.register("k", 3, event::READ);
    poll.register("k", 4, event::READ);

    // The first record under the key is the one found and removed.
    assert_eq!(poll.get(&"k").unwrap().as_raw_fd(), 3);
    poll.unregister(&"k");
    assert_eq!(poll.len(), 1);
    assert_eq!(poll.get(&"k").unwrap().as_raw_fd(), 4);
}

#[test]
fn get_mut_adjusts_interest() {
    let mut poll = Poll::new();
    poll.register(7u64, 5, event::NONE);

    {
        let record = poll.get_mut(&7u64).unwrap();
        record.set(event::READ);
        record.unset(event::READ);
        record.set(event::WRITE);
    }
    assert!(poll.get_mut(&8u64).is_none());
    assert!(poll.get(&7u64).is_some());
}

#[test]
fn string_and_unit_keys() {
    let mut poll = Poll::new();
    poll.register(String::from("left"), 21, event::READ);
    poll.register(String::from("right"), 22, event::READ);
    assert_eq!(poll.get(&String::from("right")).unwrap().as_raw_fd(), 22);

    let mut unit = Poll::new();
    unit.register((), 1, event::READ);
    assert!(unit.get(&()).is_some());
}

#[test]
fn readiness_reset_on_mutation() {
    let (w, r) = pair();
    popol::set_nonblocking(r, true).unwrap();

    let mut poll = Poll::new();
    poll.register("r", r, event::READ);
    nix::unistd::write(w, &[9]).unwrap();
    assert!(!poll.wait_timeout(Timeout::from_millis(1)).unwrap());
    assert!(poll.has_events());
    assert_eq!(poll.events_count(), 1);

    // Any mutation clears every readiness mask and the event count.
    poll.set(&"r", event::READ);
    assert!(!poll.has_events());
    assert_eq!(poll.events_count(), 0);
    assert!(poll.events().next().is_none());

    // A wait makes it ready again; reset reports the prior count.
    assert!(!poll.wait_timeout(Timeout::from_millis(1)).unwrap());
    assert_eq!(poll.reset(), 1);
    assert!(!poll.has_events());
    assert!(poll.events().next().is_none());
}

#[test]
fn consuming_iteration() {
    let (w, r) = pair();
    let (_wq, rq) = pair();
    popol::set_nonblocking(r, true).unwrap();

    let mut poll = Poll::new();
    poll.register("quiet", rq, event::NONE);
    poll.register("busy", r, event::READ);
    nix::unistd::write(w, &[1]).unwrap();
    assert!(!poll.wait_timeout(Timeout::from_millis(1)).unwrap());

    let mut iter = poll.into_iter();
    let (key, record) = iter.next().unwrap();
    assert_eq!(key, "busy");
    assert!(record.is_readable());
    assert!(iter.next().is_none());
}

#[test]
fn str_keys_compare_exactly() {
    let mut poll = Poll::new();
    poll.register("reader", 3, event::READ);
    poll.register("reader0", 4, event::READ);
    poll.register("λ-queue", 5, event::READ);

    assert_eq!(poll.get(&"reader").unwrap().as_raw_fd(), 3);
    assert_eq!(poll.get(&"reader0").unwrap().as_raw_fd(), 4);
    assert_eq!(poll.get(&"λ-queue").unwrap().as_raw_fd(), 5);
    assert!(poll.get(&"read").is_none());
    assert!(poll.get(&"reader1").is_none());
    assert!(poll.get(&"λ-queu").is_none());
    assert!(poll.get(&"").is_none());
}

#[test]
fn os_errors_surface() {
    match popol::set_nonblocking(-1, true) {
        Err(OsError::Os(errno)) => assert_eq!(errno, 9),
        other => panic!("expected a raw OS error, got {:?}", other),
    }
    match Waker::reset(-1) {
        Err(OsError::Os(errno)) => assert_eq!(errno, 9),
        other => panic!("expected a raw OS error, got {:?}", other),
    }
}

#[test]
fn waker_construction_resets_readiness() {
    let (w, r) = pair();
    popol::set_nonblocking(r, true).unwrap();

    let mut poll = Poll::new();
    poll.register("r", r, event::READ);
    nix::unistd::write(w, &[1]).unwrap();
    assert!(!poll.wait_timeout(Timeout::from_millis(1)).unwrap());
    assert!(poll.has_events());

    // Creating a waker registers its read end, and like any registration
    // clears previously collected events.
    let _waker = Waker::new(&mut poll, "w").unwrap();
    assert!(!poll.has_events());
    assert_eq!(poll.events_count(), 0);
    assert!(poll.events().next().is_none());
}

#[test]
fn waker_close_releases_descriptors() {
    let mut poll = Poll::new();
    let waker = Waker::new(&mut poll, "w").unwrap();
    let reader = waker.reader_fd();
    let writer = waker.writer_fd();
    waker.close().unwrap();

    assert!(matches!(Waker::reset(reader), Err(OsError::Os(9))));
    assert!(matches!(Waker::reset(writer), Err(OsError::Os(9))));
}
