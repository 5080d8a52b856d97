//! Source records: one registered descriptor with its interest and its
//! last-reported readiness.

use vstd::prelude::*;

use crate::event;
use crate::event::Event;

verus! {

/// The mathematical value of a [`PollFd`]: descriptor, interest mask and
/// readiness mask, all small integers.
pub ghost struct PollFdView {
    /// The registered file descriptor.
    pub fd: i32,
    /// The interest mask the source is polled with.
    pub events: Event,
    /// The readiness mask reported by the most recent wait.
    pub revents: Event,
}

impl PollFdView {
    /// The record reported a readiness event: any bit set, including the
    /// implicit hangup/error/invalid ones.
    pub open spec fn is_ready(self) -> bool {
        self.revents != 0
    }

    /// The same record with the readiness mask cleared.
    pub open spec fn cleared(self) -> PollFdView {
        PollFdView { revents: 0, ..self }
    }

    /// Readable, per the reported readiness bits.
    pub open spec fn spec_is_readable(self) -> bool {
        self.revents & event::READ != 0
    }

    /// Writable, per the reported readiness bits.
    pub open spec fn spec_is_writable(self) -> bool {
        self.revents & event::WRITE != 0
    }

    /// The peer hung up, per the reported readiness bits.
    pub open spec fn spec_has_hangup(self) -> bool {
        self.revents & event::HANGUP != 0
    }

    /// An asynchronous error is pending, per the reported readiness bits.
    pub open spec fn spec_has_errored(self) -> bool {
        self.revents & event::ERROR != 0
    }

    /// The descriptor was not pollable, per the reported readiness bits.
    pub open spec fn spec_is_invalid(self) -> bool {
        self.revents & event::INVALID != 0
    }
}

/// A record in the shape the host multiplexing syscall reads and fills:
/// descriptor, interest mask, readiness mask.
///
/// `revents` is owned by the registry and overwritten on each wait; callers
/// read it through the predicates below.
#[derive(Debug, Copy, Clone, Default)]
pub struct PollFd {
    pub(crate) fd: i32,
    pub(crate) events: Event,
    pub(crate) revents: Event,
}

impl View for PollFd {
    type V = PollFdView;

    closed spec fn view(&self) -> PollFdView {
        PollFdView { fd: self.fd, events: self.events, revents: self.revents }
    }
}

impl PollFd {
    /// A fresh record with no readiness reported yet.
    pub(crate) fn new(fd: i32, events: Event) -> (p: Self)
        ensures
            p@ == (PollFdView { fd, events, revents: 0 }),
    {
        PollFd { fd, events, revents: 0 }
    }

    /// Overwrite the readiness mask with "nothing reported".
    pub(crate) fn clear_revents(&mut self)
        ensures
            final(self)@ == old(self)@.cleared(),
    {
        self.revents = 0;
    }

    /// The registered raw file descriptor.
    pub fn as_raw_fd(&self) -> (fd: i32)
        ensures
            fd == self@.fd,
    {
        self.fd
    }

    /// Add events to wait for on this source.
    pub fn set(&mut self, events: Event)
        ensures
            final(self)@ == (PollFdView { events: old(self)@.events | events, ..old(self)@ }),
    {
        self.events = self.events | events;
    }

    /// Remove events to wait for on this source.
    pub fn unset(&mut self, events: Event)
        ensures
            final(self)@ == (PollFdView { events: old(self)@.events & !events, ..old(self)@ }),
    {
        self.events = self.events & !events;
    }

    /// The source is writable.
    pub fn is_writable(self) -> (r: bool)
        ensures
            r == self@.spec_is_writable(),
    {
        self.revents & event::WRITE != 0
    }

    /// The source is readable.
    pub fn is_readable(self) -> (r: bool)
        ensures
            r == self@.spec_is_readable(),
    {
        self.revents & event::READ != 0
    }

    /// The source has been disconnected.
    pub fn has_hangup(self) -> (r: bool)
        ensures
            r == self@.spec_has_hangup(),
    {
        self.revents & event::HANGUP != 0
    }

    /// An error has occurred on the source.
    pub fn has_errored(self) -> (r: bool)
        ensures
            r == self@.spec_has_errored(),
    {
        self.revents & event::ERROR != 0
    }

    /// The source is not valid.
    pub fn is_invalid(self) -> (r: bool)
        ensures
            r == self@.spec_is_invalid(),
    {
        self.revents & event::INVALID != 0
    }

    /// Whether the event is an error: the underlying source is invalid, or
    /// an error occurred on it.
    pub fn is_err(&self) -> (r: bool)
        ensures
            r == (self@.spec_has_errored() || self@.spec_is_invalid()),
    {
        self.has_errored() || self.is_invalid()
    }
}

/// The record reports no readiness outside what was asked for: its
/// readiness mask is empty, or contains only bits of its interest mask and
/// the implicit hangup/error/invalid bits, which the host may always
/// report.
pub open spec fn reported_within_interest(v: PollFdView) -> bool {
    v.revents == 0 || v.revents & !(v.events | event::HANGUP | event::ERROR | event::INVALID)
        == 0
}

/// The views of a sequence of records.
pub open spec fn views_of(list: Seq<PollFd>) -> Seq<PollFdView> {
    list.map_values(|p: PollFd| p@)
}

/// The same records with every readiness mask cleared.
pub open spec fn clear_all(recs: Seq<PollFdView>) -> Seq<PollFdView> {
    recs.map_values(|v: PollFdView| v.cleared())
}

/// No record reports a readiness event.
pub open spec fn all_cleared(recs: Seq<PollFdView>) -> bool {
    forall|i: int| 0 <= i < recs.len() ==> !(#[trigger] recs[i]).is_ready()
}

/// How many records report a readiness event.
pub open spec fn ready_count(recs: Seq<PollFdView>) -> nat
    decreases recs.len(),
{
    if recs.len() == 0 {
        0
    } else {
        ready_count(recs.drop_last()) + if recs.last().is_ready() {
            1nat
        } else {
            0nat
        }
    }
}

/// A zero ready count means every record's readiness mask is empty, and a
/// positive one means some record's is not.
pub proof fn lemma_ready_count_zero(recs: Seq<PollFdView>)
    ensures
        (ready_count(recs) == 0) <==> all_cleared(recs),
    decreases recs.len(),
{
    if recs.len() > 0 {
        lemma_ready_count_zero(recs.drop_last());
        if all_cleared(recs.drop_last()) && !recs.last().is_ready() {
            assert forall|i: int| 0 <= i < recs.len() implies !(#[trigger] recs[i]).is_ready() by {
                if i < recs.len() - 1 {
                    assert(recs.drop_last()[i] == recs[i]);
                }
            }
        } else {
            if !all_cleared(recs.drop_last()) {
                let i = choose|i: int| 0 <= i < recs.drop_last().len()
                    && (#[trigger] recs.drop_last()[i]).is_ready();
                assert(recs[i].is_ready());
            }
        }
    }
}

/// The first position at or after `from` whose record reports a readiness
/// event, or the length of `recs` when there is none.
pub open spec fn next_ready(recs: Seq<PollFdView>, from: int) -> int
    decreases recs.len() - from,
{
    if from < 0 || from >= recs.len() {
        recs.len() as int
    } else if recs[from].is_ready() {
        from
    } else {
        next_ready(recs, from + 1)
    }
}

/// [`next_ready`] names `i0` exactly when every record from `from` up to
/// `i0` is quiet and the record at `i0` (if any) is ready.
pub proof fn lemma_next_ready_is(recs: Seq<PollFdView>, from: int, i0: int)
    requires
        0 <= from <= i0 <= recs.len(),
        forall|m: int| from <= m < i0 ==> !(#[trigger] recs[m]).is_ready(),
        i0 < recs.len() ==> recs[i0].is_ready(),
    ensures
        next_ready(recs, from) == if i0 < recs.len() {
            i0
        } else {
            recs.len() as int
        },
    decreases i0 - from,
{
    if from < i0 {
        lemma_next_ready_is(recs, from + 1, i0);
    }
}

/// [`next_ready`] finds a ready record when it answers a position short of
/// the length, and skips only quiet records on the way there.
pub proof fn lemma_next_ready_bounds(recs: Seq<PollFdView>, from: int)
    requires
        0 <= from <= recs.len(),
    ensures
        from <= next_ready(recs, from) <= recs.len(),
        next_ready(recs, from) < recs.len() ==> recs[next_ready(recs, from)].is_ready(),
        forall|m: int| from <= m < next_ready(recs, from) ==> !(#[trigger] recs[m]).is_ready(),
    decreases recs.len() - from,
{
    if from < recs.len() && !recs[from].is_ready() {
        lemma_next_ready_bounds(recs, from + 1);
    }
}

/// A wait that reported events leaves something for iteration to yield,
/// and one that reported none leaves nothing: the count of ready records
/// is positive exactly when the first ready position lies within bounds.
pub proof fn lemma_events_iff_ready(recs: Seq<PollFdView>)
    ensures
        (ready_count(recs) > 0) <==> next_ready(recs, 0) < recs.len(),
{
    lemma_ready_count_zero(recs);
    lemma_next_ready_bounds(recs, 0);
    if next_ready(recs, 0) < recs.len() {
        assert(recs[next_ready(recs, 0)].is_ready());
        assert(!all_cleared(recs));
    } else {
        assert forall|i: int| 0 <= i < recs.len() implies !(#[trigger] recs[i]).is_ready() by {}
        assert(all_cleared(recs));
    }
}

/// Indication of the presence of polled events in a file descriptor.
pub trait HasPoll {
    /// Whether the value reports a readiness event.
    spec fn spec_has_events(&self) -> bool;

    /// Returns whether the file descriptor has generated events.
    fn has_events(&self) -> (r: bool)
        ensures
            r == self.spec_has_events(),
    ;
}

impl HasPoll for PollFd {
    open spec fn spec_has_events(&self) -> bool {
        self@.is_ready()
    }

    fn has_events(&self) -> (r: bool) {
        self.revents != 0
    }
}

} // verus!
