//! Behavioural tests for the registry, ported to the raw-descriptor API.

use std::collections::HashSet;

use popol::{event, Poll, Timeout, Waker};

fn pair() -> (i32, i32) {
    nix::sys::socket::socketpair(
        nix::sys::socket::AddressFamily::Unix,
        nix::sys::socket::SockType::Stream,
        None,
        nix::sys::socket::SockFlag::empty(),
    )
    .expect("socketpair")
}

fn write_all(fd: i32, buf: &[u8]) {
    let mut off = 0;
    while off < buf.len() {
        off += nix::unistd::write(fd, &buf[off..]).expect("write");
    }
}

#[test]
fn test_readable() {
    let (writer0, reader0) = pair();
    let (writer1, reader1) = pair();
    let (writer2, reader2) = pair();

    let mut poller = Poll::new();

    for reader in &[reader0, reader1, reader2] {
        popol::set_nonblocking(*reader, true).unwrap();
    }

    poller.register("reader0", reader0, event::READ);
    poller.register("reader1", reader1, event::READ);
    poller.register("reader2", reader2, event::READ);

    {
        assert!(poller.wait_timeout(Timeout::from_millis(1)).unwrap());
        assert!(!poller.has_events());
    }

    let tests = &mut [
        (writer0, reader0, "reader0", 0x1u8),
        (writer1, reader1, "reader1", 0x2u8),
        (writer2, reader2, "reader2", 0x3u8),
    ];

    for (writer, reader, key, byte) in tests.iter_mut() {
        let mut buf = [0u8; 1];

        assert!(matches!(
            nix::unistd::read(*reader, &mut buf[..]),
            Err(nix::errno::Errno::EAGAIN)
        ));

        write_all(*writer, &[*byte]);

        poller.wait_timeout(Timeout::from_millis(1)).unwrap();
        assert!(poller.has_events());

        let mut iter = poller.events();
        let (k, event) = iter.next().unwrap();

        assert_eq!(*k, *key);
        assert!(
            event.is_readable()
                && !event.is_writable()
                && !event.has_errored()
                && !event.has_hangup()
        );
        assert!(iter.next().is_none());

        assert_eq!(nix::unistd::read(*reader, &mut buf[..]).unwrap(), 1);
        assert_eq!(&buf[..], &[*byte]);
    }
}

#[test]
fn test_empty() {
    let mut poller = Poll::<()>::new();

    poller
        .wait_timeout(Timeout::from_millis(1))
        .expect("no error if nothing registered");

    assert!(!poller.has_events());
}

#[test]
fn test_timeout() {
    let mut poll = Poll::new();

    // A connected stream with nothing written: never ready to read.
    let (_writer, reader) = pair();
    poll.register((), reader, event::READ);

    assert!(poll.wait_timeout(Timeout::from_millis(1)).unwrap());

    assert_eq!(poll.len(), 1);
    assert!(!poll.has_events());
}

/// Sleep by waiting on an empty registry for the given time.
fn sleep_ms(ms: u32) {
    let mut idle = Poll::<()>::new();
    let _ = idle.wait_timeout(Timeout::from_millis(ms));
}

#[test]
fn test_threaded() {
    let (writer0, reader0) = pair();
    let (writer1, reader1) = pair();
    let (writer2, reader2) = pair();

    let mut poll = Poll::new();
    let readers = &[reader0, reader1, reader2];

    for reader in readers {
        popol::set_nonblocking(*reader, true).unwrap();
    }

    poll.register("reader0", reader0, event::READ);
    poll.register("reader1", reader1, event::READ);
    poll.register("reader2", reader2, event::READ);

    crossbeam_utils::thread::scope(|scope| {
        scope.spawn(move |_| {
            sleep_ms(8);

            for writer in &[writer1, writer2, writer0] {
                // Both bytes go out in one write, so the reader's poll
                // cannot wake between them and observe a half-delivered
                // message.
                write_all(*writer, &[1, 2]);
                nix::unistd::close(*writer).unwrap();
            }
        });

        let mut closed = vec![];
        while closed.len() < readers.len() {
            poll.wait_timeout(Timeout::from_millis(64)).unwrap();

            let mut events = poll.events();
            while let Some((key, event)) = events.next() {
                assert!(event.is_readable());
                assert!(!event.is_writable());
                assert!(!event.has_errored());

                if event.has_hangup() {
                    if !closed.contains(key) {
                        closed.push(*key);
                    }
                    continue;
                }

                let reader = match *key {
                    "reader0" => reader0,
                    "reader1" => reader1,
                    "reader2" => reader2,
                    _ => unreachable!(),
                };

                let mut buf = [0u8; 2];
                let n = nix::unistd::read(reader, &mut buf[..]).unwrap();

                assert_eq!(n, 2);
                assert_eq!(&buf[..], &[1, 2]);
            }
        }
    })
    .unwrap();
}

#[test]
fn test_unregister() {
    let (writer0, reader0) = pair();
    let (writer1, reader1) = pair();
    let (writer2, reader2) = pair();

    let mut poll = Poll::new();

    for reader in &[reader0, reader1, reader2] {
        popol::set_nonblocking(*reader, true).unwrap();
    }

    poll.register("reader0", reader0, event::READ);
    poll.register("reader1", reader1, event::READ);
    poll.register("reader2", reader2, event::READ);

    {
        assert!(poll.wait_timeout(Timeout::from_millis(1)).unwrap());
        assert!(!poll.has_events());
    }

    {
        write_all(writer1, &[0x0]);

        poll.wait_timeout(Timeout::from_millis(1)).unwrap();
        let mut events = poll.events();
        let (key, _) = events.next().unwrap();

        assert_eq!(*key, "reader1");
    }

    // Unregister.
    {
        poll.unregister(&"reader1");
        write_all(writer1, &[0x0]);

        poll.wait_timeout(Timeout::from_millis(1)).ok();
        assert!(poll.events().next().is_none());

        for w in &[writer0, writer1, writer2] {
            write_all(*w, &[0]);
        }

        poll.wait_timeout(Timeout::from_millis(1)).unwrap();
        let mut keys = HashSet::new();
        let mut events = poll.events();
        while let Some((k, _)) = events.next() {
            keys.insert(*k);
        }

        assert!(keys.contains(&"reader0"));
        assert!(!keys.contains(&"reader1"));
        assert!(keys.contains(&"reader2"));

        poll.unregister(&"reader0");

        for w in &[writer0, writer1, writer2] {
            write_all(*w, &[0]);
        }

        poll.wait_timeout(Timeout::from_millis(1)).unwrap();
        let mut keys = HashSet::new();
        let mut events = poll.events();
        while let Some((k, _)) = events.next() {
            keys.insert(*k);
        }

        assert!(!keys.contains(&"reader0"));
        assert!(!keys.contains(&"reader1"));
        assert!(keys.contains(&"reader2"));

        poll.unregister(&"reader2");

        for w in &[writer0, writer1, writer2] {
            write_all(*w, &[0]);
        }

        poll.wait_timeout(Timeout::from_millis(1)).ok();

        assert!(!poll.has_events());
    }

    // Re-register.
    {
        poll.register("reader0", reader0, event::READ);
        write_all(writer0, &[0]);

        poll.wait_timeout(Timeout::from_millis(1)).unwrap();
        let mut events = poll.events();
        let (key, _) = events.next().unwrap();

        assert_eq!(*key, "reader0");
    }
}

#[test]
fn test_set() {
    let (writer0, reader0) = pair();
    let (writer1, reader1) = pair();

    let mut poll = Poll::new();

    for reader in &[reader0, reader1] {
        popol::set_nonblocking(*reader, true).unwrap();
    }

    poll.register("reader0", reader0, event::READ);
    poll.register("reader1", reader1, event::NONE);

    write_all(writer0, &[0]);

    poll.wait_timeout(Timeout::from_millis(1)).unwrap();
    let key = {
        let mut events = poll.events();
        let (key, _) = events.next().unwrap();
        (*key).to_owned()
    };
    assert_eq!(key, "reader0");

    poll.unset(&key.as_str(), event::READ);
    write_all(writer0, &[0]);

    poll.wait_timeout(Timeout::from_millis(1)).ok();
    assert!(poll.events().next().is_none());

    write_all(writer1, &[0]);

    poll.wait_timeout(Timeout::from_millis(1)).ok();
    assert!(poll.events().next().is_none());

    poll.set(&"reader1", event::READ);
    write_all(writer1, &[0]);

    poll.wait_timeout(Timeout::from_millis(1)).unwrap();
    let mut events = poll.events();
    let (key, _) = events.next().unwrap();
    assert_eq!(*key, "reader1");
}

#[test]
fn test_waker() {
    let mut poll = Poll::new();
    let waker = Waker::new(&mut poll, "waker").unwrap();
    let buf = [0; 4096];

    poll.wait_timeout(Timeout::from_millis(1)).ok();
    assert!(poll.events().next().is_none());

    // Fill the waker stream until it would block..
    loop {
        match nix::unistd::write(waker.writer_fd(), &buf) {
            Err(nix::errno::Errno::EAGAIN) => {
                break;
            }
            Err(e) => panic!("{}", e),
            _ => continue,
        }
    }

    poll.wait_timeout(Timeout::from_millis(1)).unwrap();
    {
        let mut events = poll.events();
        let (key, event) = events.next().unwrap();

        assert!(event.is_readable());
        assert!(!event.is_writable() && !event.has_hangup() && !event.has_errored());
        assert_eq!(*key, "waker");
    }

    waker.wake().unwrap();

    poll.wait_timeout(Timeout::from_millis(1)).unwrap();
    {
        let mut events = poll.events();
        let (key, event) = events.next().unwrap();

        assert!(event.is_readable());
        assert_eq!(*key, "waker");
    }

    // Try to wake multiple times.
    waker.wake().unwrap();
    waker.wake().unwrap();
    waker.wake().unwrap();

    poll.wait_timeout(Timeout::from_millis(1)).unwrap();
    let reset_fd = {
        let mut count = 0;
        let mut events = poll.events();
        let mut fd = -1;
        while let Some((key, event)) = events.next() {
            assert_eq!(*key, "waker");
            fd = event.as_raw_fd();
            count += 1;
        }
        assert_eq!(count, 1, "multiple wakes count as one");
        fd
    };

    Waker::reset(reset_fd).unwrap();

    // Try waiting multiple times.
    assert!(
        poll.wait_timeout(Timeout::from_millis(1)).unwrap(),
        "the waker should only wake once"
    );
}
