//! The readiness registry: a keyed collection of source records, the
//! blocking wait over them, and iteration over the sources that reported
//! readiness.

use vstd::prelude::*;

use crate::event::Event;
use crate::key::Key;
use crate::source::{
    all_cleared, clear_all, lemma_next_ready_is, next_ready, ready_count,
    reported_within_interest, views_of, HasPoll, PollFd, PollFdView,
};
use crate::sys;
use crate::sys::OsError;
use crate::timeout::Timeout;

verus! {

/// Some position in `keys` holds a key equal to `k`.
pub open spec fn key_found<K: Key>(keys: Seq<K>, k: K) -> bool {
    exists|i: int| 0 <= i < keys.len() && (#[trigger] keys[i]).keq(k)
}

/// The first position in `keys` holding a key equal to `k`, or the length
/// of `keys` when there is none.
pub open spec fn first_index<K: Key>(keys: Seq<K>, k: K) -> int
    decreases keys.len(),
{
    if keys.len() == 0 {
        0
    } else if keys[0].keq(k) {
        0
    } else {
        1 + first_index(keys.subrange(1, keys.len() as int), k)
    }
}

/// When a key is present, [`first_index`] names its first position; when it
/// is absent, [`first_index`] is the length of the sequence.
pub proof fn lemma_first_index<K: Key>(keys: Seq<K>, k: K)
    ensures
        key_found(keys, k) ==> 0 <= first_index(keys, k) < keys.len()
            && keys[first_index(keys, k)].keq(k)
            && (forall|j: int| 0 <= j < first_index(keys, k) ==> !(#[trigger] keys[j]).keq(k)),
        !key_found(keys, k) ==> first_index(keys, k) == keys.len(),
    decreases keys.len(),
{
    if keys.len() == 0 {
    } else if keys[0].keq(k) {
    } else {
        let tail = keys.subrange(1, keys.len() as int);
        lemma_first_index(tail, k);
        if key_found(keys, k) {
            let i = choose|i: int| 0 <= i < keys.len() && (#[trigger] keys[i]).keq(k);
            assert(tail[i - 1] == keys[i]);
            assert(key_found(tail, k));
            let fi = first_index(keys, k);
            assert(keys[fi] == tail[fi - 1]);
            assert forall|j: int| 0 <= j < fi implies !(#[trigger] keys[j]).keq(k) by {
                if j > 0 {
                    assert(keys[j] == tail[j - 1]);
                }
            }
        } else {
            if key_found(tail, k) {
                let i = choose|i: int| 0 <= i < tail.len() && (#[trigger] tail[i]).keq(k);
                assert(keys[i + 1] == tail[i]);
                assert(key_found(keys, k));
            }
        }
    }
}

/// A key just registered is always found again — key equality is
/// reflexive — and when it was absent before, its first match is the
/// freshly appended position, so a lookup reaches exactly the new record.
pub proof fn lemma_registered_key_found<K: Key>(keys: Seq<K>, k: K)
    ensures
        key_found(keys.push(k), k),
        !key_found(keys, k) ==> first_index(keys.push(k), k) == keys.len(),
{
    K::keq_reflexive(k);
    let p = keys.push(k);
    assert(p[keys.len() as int].keq(k));
    if !key_found(keys, k) {
        lemma_first_index(p, k);
        let fi = first_index(p, k);
        if fi < keys.len() {
            assert(p[fi] == keys[fi]);
            assert(keys[fi].keq(k));
            assert(false);
        }
    }
}

/// Keeps track of sources to poll, each under a caller-chosen key.
///
/// Keys and records are stored in lock-step sequences: the key at a
/// position belongs to the record at the same position.
#[derive(Debug, Clone)]
pub struct Poll<K> {
    /// Number of events generated by the most recent wait.
    events_count: usize,
    /// The keys, one per registered source.
    index: Vec<K>,
    /// The records handed to the multiplexing syscall.
    list: Vec<PollFd>,
}

impl<K> Poll<K> {
    /// The registered keys, in storage order.
    pub closed spec fn spec_keys(&self) -> Seq<K> {
        self.index@
    }

    /// The source records, in storage order.
    pub closed spec fn spec_records(&self) -> Seq<PollFdView> {
        views_of(self.list@)
    }

    /// The number of events reported by the most recent wait, as last
    /// stored.
    pub closed spec fn spec_events_count(&self) -> nat {
        self.events_count as nat
    }

    /// Keys and records are aligned: same length, same index, same source.
    pub open spec fn wf(&self) -> bool {
        self.spec_keys().len() == self.spec_records().len()
    }

    /// Creates a new, empty set of sources to poll.
    pub fn new() -> (p: Self)
        ensures
            p.wf(),
            p.spec_keys() == Seq::<K>::empty(),
            p.spec_records() == Seq::<PollFdView>::empty(),
            p.spec_events_count() == 0,
    {
        let p = Poll { events_count: 0, index: Vec::new(), list: Vec::new() };
        proof {
            assert(p.spec_records() =~= Seq::<PollFdView>::empty());
        }
        p
    }

    /// Creates a new, empty set of sources to poll, pre-sized for the given
    /// number of sources. Use this if you have a lot of sources to poll.
    pub fn with_capacity(cap: usize) -> (p: Self)
        ensures
            p.wf(),
            p.spec_keys() == Seq::<K>::empty(),
            p.spec_records() == Seq::<PollFdView>::empty(),
            p.spec_events_count() == 0,
    {
        let p = Poll {
            events_count: 0,
            index: Vec::with_capacity(cap),
            list: Vec::with_capacity(cap),
        };
        proof {
            assert(p.spec_records() =~= Seq::<PollFdView>::empty());
        }
        p
    }

    /// The number of registered sources.
    pub fn len(&self) -> (n: usize)
        ensures
            n == self.spec_records().len(),
    {
        self.list.len()
    }

    /// Whether no source is registered.
    pub fn is_empty(&self) -> (r: bool)
        ensures
            r == (self.spec_records().len() == 0),
    {
        self.list.is_empty()
    }

    /// Whether the most recent wait reported any events.
    pub fn has_events(&self) -> (r: bool)
        ensures
            r == (self.spec_events_count() > 0),
    {
        self.events_count > 0
    }

    /// The number of events reported by the most recent wait.
    pub fn events_count(&self) -> (n: usize)
        ensures
            n == self.spec_events_count(),
    {
        self.events_count
    }

    /// Clear every record's readiness mask, leaving keys, descriptors,
    /// interests and the event count as they are.
    fn clear_revents_all(&mut self)
        requires
            old(self).wf(),
        ensures
            final(self).wf(),
            final(self).spec_keys() == old(self).spec_keys(),
            final(self).spec_records() == clear_all(old(self).spec_records()),
            final(self).spec_events_count() == old(self).spec_events_count(),
    {
        let n = self.list.len();
        let mut i: usize = 0;
        while i < n
            invariant
                n == self.list@.len(),
                i <= n,
                self.index@ == old(self).index@,
                self.events_count == old(self).events_count,
                self.list@.len() == old(self).list@.len(),
                forall|j: int|
                    0 <= j < i ==> (#[trigger] self.list@[j])@ == old(self).list@[j]@.cleared(),
                forall|j: int| i <= j < n ==> #[trigger] self.list@[j] == old(self).list@[j],
            decreases n - i,
        {
            let mut p = self.list[i];
            p.clear_revents();
            self.list[i] = p;
            i = i + 1;
        }
        proof {
            assert(self.spec_records() =~= clear_all(old(self).spec_records()));
        }
    }

    /// Resets the information about previously collected events.
    ///
    /// Returns the count of previously collected events.
    pub fn reset(&mut self) -> (count: usize)
        requires
            old(self).wf(),
        ensures
            final(self).wf(),
            count == old(self).spec_events_count(),
            final(self).spec_keys() == old(self).spec_keys(),
            final(self).spec_records() == clear_all(old(self).spec_records()),
            all_cleared(final(self).spec_records()),
            final(self).spec_events_count() == 0,
    {
        let count = self.events_count;
        self.clear_revents_all();
        self.events_count = 0;
        count
    }

    /// Append a source without touching previously collected events.
    pub(crate) fn insert(&mut self, key: K, source: PollFd)
        requires
            old(self).wf(),
        ensures
            final(self).wf(),
            final(self).spec_keys() == old(self).spec_keys().push(key),
            final(self).spec_records() == old(self).spec_records().push(source@),
            final(self).spec_events_count() == old(self).spec_events_count(),
    {
        self.index.push(key);
        self.list.push(source);
        proof {
            assert(self.spec_records() =~= old(self).spec_records().push(source@));
        }
    }

    /// Register a new source under the given key, with the given interest.
    ///
    /// Care must be taken not to register the same source twice, or to use
    /// the same key for two different sources.
    ///
    /// Resets the information about previously collected events.
    pub fn register(&mut self, key: K, fd: i32, events: Event)
        requires
            old(self).wf(),
        ensures
            final(self).wf(),
            final(self).spec_keys() == old(self).spec_keys().push(key),
            final(self).spec_records() == clear_all(old(self).spec_records()).push(
                PollFdView { fd, events, revents: 0 },
            ),
            all_cleared(final(self).spec_records()),
            final(self).spec_events_count() == 0,
    {
        self.reset();
        self.insert(key, PollFd::new(fd, events));
    }
}

impl<K> Poll<K> {
    /// Wait for readiness events on the registered sources. Does not time
    /// out; i.e. may block the thread until a source becomes ready.
    ///
    /// Resets the information about previously collected events.
    pub fn wait(&mut self) -> (r: Result<(), OsError>)
        requires
            old(self).wf(),
        ensures
            final(self).wf(),
            final(self).spec_keys() == old(self).spec_keys(),
            final(self).spec_records().len() == old(self).spec_records().len(),
            forall|i: int|
                0 <= i < old(self).spec_records().len()
                    ==> (#[trigger] final(self).spec_records()[i]).fd == old(self).spec_records()[i].fd
                    && final(self).spec_records()[i].events == old(self).spec_records()[i].events,
            forall|i: int|
                0 <= i < final(self).spec_records().len()
                    ==> reported_within_interest(#[trigger] final(self).spec_records()[i]),
            final(self).spec_events_count() == ready_count(final(self).spec_records()),
            r is Err ==> all_cleared(final(self).spec_records()),
    {
        match self.wait_timeout(Timeout::Never) {
            Ok(_) => Ok(()),
            Err(e) => Err(e),
        }
    }

    /// Wait for readiness events on the registered sources, for at most the
    /// given timeout.
    ///
    /// Returns whether the wait timed out: `true` when the timeout elapsed
    /// with no source ready, `false` when at least one readiness event was
    /// observed — or when nothing was registered, in which case there is
    /// nothing to wait for.
    ///
    /// Resets the information about previously collected events.
    pub fn wait_timeout(&mut self, timeout: Timeout) -> (r: Result<bool, OsError>)
        requires
            old(self).wf(),
        ensures
            final(self).wf(),
            final(self).spec_keys() == old(self).spec_keys(),
            final(self).spec_records().len() == old(self).spec_records().len(),
            forall|i: int|
                0 <= i < old(self).spec_records().len()
                    ==> (#[trigger] final(self).spec_records()[i]).fd == old(self).spec_records()[i].fd
                    && final(self).spec_records()[i].events == old(self).spec_records()[i].events,
            forall|i: int|
                0 <= i < final(self).spec_records().len()
                    ==> reported_within_interest(#[trigger] final(self).spec_records()[i]),
            final(self).spec_events_count() == ready_count(final(self).spec_records()),
            r matches Ok(timed_out) ==> {
                &&& timed_out ==> all_cleared(final(self).spec_records())
                    && final(self).spec_events_count() == 0
                &&& (!timed_out && old(self).spec_records().len() > 0)
                    ==> final(self).spec_events_count() > 0
                &&& old(self).spec_records().len() == 0 ==> !timed_out
            },
            r is Err ==> all_cleared(final(self).spec_records())
                && final(self).spec_events_count() == 0,
            old(self).spec_records().len() == 0 && timeout is Never ==> r == Ok::<
                bool,
                OsError,
            >(false),
    {
        self.reset();
        if self.list.len() == 0 {
            if let Timeout::Never = timeout {
                return Ok(false);
            }
        }
        let ms = timeout.as_poll_millis();
        let ghost mid = *self;
        let res = sys::sys_poll(&mut self.list, ms);
        proof {
            assert forall|i: int|
                0 <= i < old(self).spec_records().len() implies (#[trigger] self.spec_records()[i]).fd
                == old(self).spec_records()[i].fd
                && self.spec_records()[i].events == old(self).spec_records()[i].events by {
                assert(mid.spec_records()[i] == clear_all(old(self).spec_records())[i]);
                assert(self.list@[i]@.fd == mid.list@[i]@.fd);
            }
            assert forall|i: int|
                0 <= i < self.spec_records().len() implies reported_within_interest(
                #[trigger] self.spec_records()[i],
            ) by {
                assert(self.spec_records()[i] == self.list@[i]@);
            }
        }
        match res {
            Ok(n) => {
                proof {
                    crate::source::lemma_ready_count_zero(self.spec_records());
                }
                if n == 0 {
                    if self.list.len() == 0 {
                        Ok(false)
                    } else {
                        Ok(true)
                    }
                } else {
                    self.events_count = n;
                    Ok(false)
                }
            },
            Err(e) => {
                self.clear_revents_all();
                proof {
                    crate::source::lemma_ready_count_zero(self.spec_records());
                }
                Err(e)
            },
        }
    }
}

impl<K: Key> Poll<K> {
    /// The first position whose key equals `key`, if any.
    fn find(&self, key: &K) -> (r: Option<usize>)
        ensures
            match r {
                Some(i) => key_found(self.spec_keys(), *key) && i == first_index(
                    self.spec_keys(),
                    *key,
                ) && i < self.spec_keys().len(),
                None => !key_found(self.spec_keys(), *key),
            },
    {
        let n = self.index.len();
        let mut i: usize = 0;
        while i < n
            invariant
                n == self.index@.len(),
                i <= n,
                forall|j: int| 0 <= j < i ==> !(#[trigger] self.index@[j]).keq(*key),
            decreases n - i,
        {
            if self.index[i].key_eq(key) {
                proof {
                    lemma_first_index(self.spec_keys(), *key);
                }
                return Some(i);
            }
            i = i + 1;
        }
        None
    }

    /// Unregister the first source whose key equals `key`, by swap-remove:
    /// the last record moves into the freed slot. A no-op when the key is
    /// not found.
    ///
    /// Resets the information about previously collected events.
    pub fn unregister(&mut self, key: &K)
        requires
            old(self).wf(),
        ensures
            final(self).wf(),
            all_cleared(final(self).spec_records()),
            final(self).spec_events_count() == 0,
            !key_found(old(self).spec_keys(), *key) ==> final(self).spec_keys() == old(self).spec_keys()
                && final(self).spec_records() == clear_all(old(self).spec_records()),
            key_found(old(self).spec_keys(), *key) ==> ({
                let i = first_index(old(self).spec_keys(), *key);
                let ks = old(self).spec_keys();
                let rs = clear_all(old(self).spec_records());
                final(self).spec_keys() == ks.update(i, ks.last()).drop_last()
                    && final(self).spec_records() == rs.update(i, rs.last()).drop_last()
            }),
    {
        self.reset();
        if let Some(ix) = self.find(key) {
            self.index.swap_remove(ix);
            self.list.swap_remove(ix);
            proof {
                let rs = clear_all(old(self).spec_records());
                assert(self.spec_records() =~= rs.update(
                    first_index(old(self).spec_keys(), *key),
                    rs.last(),
                ).drop_last());
            }
        }
    }

    /// Add interest bits on the first source whose key equals `key`.
    /// Returns whether such a source was found.
    ///
    /// Resets the information about previously collected events.
    pub fn set(&mut self, key: &K, events: Event) -> (r: bool)
        requires
            old(self).wf(),
        ensures
            final(self).wf(),
            all_cleared(final(self).spec_records()),
            final(self).spec_events_count() == 0,
            r == key_found(old(self).spec_keys(), *key),
            final(self).spec_keys() == old(self).spec_keys(),
            !r ==> final(self).spec_records() == clear_all(old(self).spec_records()),
            r ==> ({
                let i = first_index(old(self).spec_keys(), *key);
                let rs = clear_all(old(self).spec_records());
                final(self).spec_records() == rs.update(
                    i,
                    PollFdView { events: rs[i].events | events, ..rs[i] },
                )
            }),
    {
        self.reset();
        if let Some(ix) = self.find(key) {
            let mut p = self.list[ix];
            p.set(events);
            self.list[ix] = p;
            proof {
                let i = first_index(old(self).spec_keys(), *key);
                let rs = clear_all(old(self).spec_records());
                assert(self.spec_records() =~= rs.update(
                    i,
                    PollFdView { events: rs[i].events | events, ..rs[i] },
                ));
            }
            return true;
        }
        false
    }

    /// Remove interest bits on the first source whose key equals `key`.
    /// Returns whether such a source was found.
    ///
    /// Resets the information about previously collected events.
    pub fn unset(&mut self, key: &K, events: Event) -> (r: bool)
        requires
            old(self).wf(),
        ensures
            final(self).wf(),
            all_cleared(final(self).spec_records()),
            final(self).spec_events_count() == 0,
            r == key_found(old(self).spec_keys(), *key),
            final(self).spec_keys() == old(self).spec_keys(),
            !r ==> final(self).spec_records() == clear_all(old(self).spec_records()),
            r ==> ({
                let i = first_index(old(self).spec_keys(), *key);
                let rs = clear_all(old(self).spec_records());
                final(self).spec_records() == rs.update(
                    i,
                    PollFdView { events: rs[i].events & !events, ..rs[i] },
                )
            }),
    {
        self.reset();
        if let Some(ix) = self.find(key) {
            let mut p = self.list[ix];
            p.unset(events);
            self.list[ix] = p;
            proof {
                let i = first_index(old(self).spec_keys(), *key);
                let rs = clear_all(old(self).spec_records());
                assert(self.spec_records() =~= rs.update(
                    i,
                    PollFdView { events: rs[i].events & !events, ..rs[i] },
                ));
            }
            return true;
        }
        false
    }

    /// Borrow the record of the first source whose key equals `key`.
    pub fn get(&self, key: &K) -> (r: Option<&PollFd>)
        requires
            self.wf(),
        ensures
            r is Some <==> key_found(self.spec_keys(), *key),
            r matches Some(p) ==> p@ == self.spec_records()[first_index(self.spec_keys(), *key)],
    {
        match self.find(key) {
            Some(ix) => Some(&self.list[ix]),
            None => None,
        }
    }

    /// Mutably borrow the record of the first source whose key equals
    /// `key`.
    pub fn get_mut(&mut self, key: &K) -> (r: Option<&mut PollFd>)
        requires
            old(self).wf(),
        ensures
            final(self).wf(),
            r is Some <==> key_found(old(self).spec_keys(), *key),
            r is None ==> *final(self) == *old(self),
            r matches Some(p) ==> ({
                let i = first_index(old(self).spec_keys(), *key);
                &&& (*p)@ == old(self).spec_records()[i]
                &&& final(self).spec_keys() == old(self).spec_keys()
                &&& final(self).spec_records().len() == old(self).spec_records().len()
                &&& final(self).spec_records()[i] == (*final(p))@
                &&& forall|j: int|
                    0 <= j < old(self).spec_records().len() && j != i
                        ==> final(self).spec_records()[j] == old(self).spec_records()[j]
                &&& final(self).spec_events_count() == old(self).spec_events_count()
            }),
    {
        match self.find(key) {
            Some(ix) => Some(&mut self.list[ix]),
            None => None,
        }
    }
}

/// Iterator over the sources that reported readiness on the most recent
/// wait, by shared borrow, yielding `(&key, &record)` pairs in storage
/// order.
pub struct Iter<'p, K> {
    keys: &'p Vec<K>,
    list: &'p Vec<PollFd>,
    pos: usize,
}

impl<'p, K> Iter<'p, K> {
    /// The keys walked, in storage order.
    pub closed spec fn spec_keys(&self) -> Seq<K> {
        self.keys@
    }

    /// The records walked, in storage order.
    pub closed spec fn spec_records(&self) -> Seq<PollFdView> {
        views_of(self.list@)
    }

    /// The next position to look at.
    pub closed spec fn spec_pos(&self) -> int {
        self.pos as int
    }

    /// Keys and records are aligned and the position is within bounds.
    pub open spec fn wf(&self) -> bool {
        self.spec_keys().len() == self.spec_records().len() && 0 <= self.spec_pos()
            <= self.spec_keys().len()
    }

    /// The next source at or after the current position whose record
    /// reported readiness, or nothing when every remaining record is
    /// quiet. A pure read: readiness masks are not cleared.
    pub fn next(&mut self) -> (r: Option<(&'p K, &'p PollFd)>)
        requires
            old(self).wf(),
        ensures
            final(self).wf(),
            final(self).spec_keys() == old(self).spec_keys(),
            final(self).spec_records() == old(self).spec_records(),
            ({
                let i = next_ready(old(self).spec_records(), old(self).spec_pos());
                if i < old(self).spec_records().len() {
                    &&& match r {
                        Some((k, p)) => *k == old(self).spec_keys()[i] && p@ == old(
                            self,
                        ).spec_records()[i],
                        None => false,
                    }
                    &&& final(self).spec_pos() == i + 1
                } else {
                    &&& r is None
                    &&& final(self).spec_pos() == old(self).spec_records().len()
                }
            }),
    {
        let keys: &'p Vec<K> = self.keys;
        let list: &'p Vec<PollFd> = self.list;
        let n = list.len();
        while self.pos < n
            invariant
                n == list@.len(),
                keys@.len() == list@.len(),
                keys == old(self).keys,
                list == old(self).list,
                self.keys == old(self).keys,
                self.list == old(self).list,
                old(self).spec_pos() <= self.pos <= n,
                forall|m: int|
                    old(self).spec_pos() <= m < self.pos ==> !(#[trigger] views_of(list@)[m]).is_ready(),
            decreases n - self.pos,
        {
            let i = self.pos;
            self.pos = i + 1;
            let p: &'p PollFd = &list[i];
            if p.has_events() {
                let k: &'p K = &keys[i];
                proof {
                    lemma_next_ready_is(old(self).spec_records(), old(self).spec_pos(), i as int);
                }
                return Some((k, p));
            }
        }
        proof {
            lemma_next_ready_is(
                old(self).spec_records(),
                old(self).spec_pos(),
                old(self).spec_records().len() as int,
            );
        }
        None
    }
}

/// Iterator over the sources that reported readiness on the most recent
/// wait, by move, yielding `(key, record)` pairs in storage order.
pub struct IntoIter<K> {
    keys: Vec<K>,
    list: Vec<PollFd>,
}

impl<K> IntoIter<K> {
    /// The keys not yet walked, in storage order.
    pub closed spec fn spec_keys(&self) -> Seq<K> {
        self.keys@
    }

    /// The records not yet walked, in storage order.
    pub closed spec fn spec_records(&self) -> Seq<PollFdView> {
        views_of(self.list@)
    }

    /// Keys and records are aligned.
    pub open spec fn wf(&self) -> bool {
        self.spec_keys().len() == self.spec_records().len()
    }

    /// The next source whose record reported readiness, or nothing when
    /// every remaining record is quiet; the quiet prefix and the yielded
    /// source are consumed.
    pub fn next(&mut self) -> (r: Option<(K, PollFd)>)
        requires
            old(self).wf(),
        ensures
            final(self).wf(),
            ({
                let keys = old(self).spec_keys();
                let recs = old(self).spec_records();
                let i = next_ready(recs, 0);
                if i < recs.len() {
                    &&& match r {
                        Some((k, p)) => k == keys[i] && p@ == recs[i],
                        None => false,
                    }
                    &&& final(self).spec_keys() == keys.skip(i + 1)
                    &&& final(self).spec_records() == recs.skip(i + 1)
                } else {
                    &&& r is None
                    &&& final(self).spec_keys().len() == 0
                }
            }),
    {
        let ghost okeys = self.spec_keys();
        let ghost orecs = self.spec_records();
        let ghost mut j: int = 0;
        while self.keys.len() > 0
            invariant
                self.spec_keys().len() == self.spec_records().len(),
                okeys == old(self).spec_keys(),
                orecs == old(self).spec_records(),
                okeys.len() == orecs.len(),
                0 <= j <= orecs.len(),
                self.spec_keys() == okeys.skip(j),
                self.spec_records() == orecs.skip(j),
                forall|m: int| 0 <= m < j ==> !(#[trigger] orecs[m]).is_ready(),
            decreases orecs.len() - j,
        {
            let ghost pk = self.keys@;
            let ghost pl = self.list@;
            let k = self.keys.remove(0);
            let p = self.list.remove(0);
            proof {
                pk.remove_ensures(0);
                pl.remove_ensures(0);
                assert(views_of(pl) == orecs.skip(j));
                assert(pk == okeys.skip(j));
                assert(self.keys@ == pk.remove(0));
                assert(self.keys@.len() == pk.len() - 1);
                assert(okeys.skip(j + 1).len() == pk.len() - 1);
                assert forall|m: int| 0 <= m < self.keys@.len() implies self.keys@[m] == okeys.skip(
                    j + 1,
                )[m] by {
                    assert(pk.remove(0)[m] == pk[m + 1]);
                    assert(okeys.skip(j + 1)[m] == okeys[j + 1 + m]);
                    assert(okeys.skip(j)[m + 1] == okeys[j + 1 + m]);
                }
                assert(self.spec_keys() =~= okeys.skip(j + 1));
                assert forall|m: int| 0 <= m < self.list@.len() implies #[trigger] self.list@[m]@
                    == orecs.skip(j + 1)[m] by {
                    assert(self.list@[m] == pl[m + 1]);
                    assert(views_of(pl)[m + 1] == pl[m + 1]@);
                }
                assert(self.spec_records() =~= orecs.skip(j + 1));
                assert(views_of(pl)[0] == pl[0]@);
                assert(p@ == orecs[j]);
            }
            if p.has_events() {
                proof {
                    assert(k == pk[0]);
                    assert(pk[0] == okeys.skip(j)[0]);
                    assert(okeys.skip(j)[0] == okeys[j]);
                    lemma_next_ready_is(orecs, 0, j);
                }
                return Some((k, p));
            }
            proof {
                j = j + 1;
            }
        }
        proof {
            lemma_next_ready_is(orecs, 0, orecs.len() as int);
        }
        None
    }
}

impl<K> Poll<K> {
    /// Iterate over the sources that reported readiness on the most recent
    /// wait, without consuming the registry.
    pub fn events(&self) -> (it: Iter<K>)
        requires
            self.wf(),
        ensures
            it.wf(),
            it.spec_keys() == self.spec_keys(),
            it.spec_records() == self.spec_records(),
            it.spec_pos() == 0,
    {
        Iter { keys: &self.index, list: &self.list, pos: 0 }
    }

    /// Iterate over the sources that reported readiness on the most recent
    /// wait, consuming the registry.
    pub fn into_iter(self) -> (it: IntoIter<K>)
        requires
            self.wf(),
        ensures
            it.wf(),
            it.spec_keys() == self.spec_keys(),
            it.spec_records() == self.spec_records(),
    {
        IntoIter { keys: self.index, list: self.list }
    }
}

} // verus!
