//! Timestamped multi-source ingest buffer.
//!
//! Frames of several cameras arrive on independent clocks; the consumer wants
//! one frame per source whose timestamps lie within a tolerance. Each source
//! has a ring of bounded capacity, kept in chronological order. The rings hold
//! handles of the caller's choosing: owned bytes, a counted reference, or a
//! slot index.
//!
//! Emission ([`TimestampedIngestBuffer::try_emit`]):
//!
//! 1. The reference is the newest timestamp across all sources. Every source
//!    drops what is older than the reference minus the tolerance.
//! 2. If every source then holds a frame, each gives up its newest one. The
//!    frames before it stay for a later call.
//! 3. With a source that holds nothing, there is no tuple.

use crate::text::{decimal, push_decimal};
use crate::time::{Duration, monus};
use std::collections::VecDeque;
use vstd::prelude::*;

pub mod laws;

verus! {

/// Identifies a source. Assigned by the caller when the buffer is built.
pub type SourceId = u32;

/// A frame handle and the instant it was captured at.
#[derive(Debug, Clone)]
pub struct TimedFrame<H> {
    /// Capture instant relative to the source's anchor.
    pub timestamp: Duration,
    /// The caller's frame handle.
    pub handle: H,
}

/// One frame per source, and how far apart they are.
#[derive(Debug, Clone)]
pub struct SyncedTuple<H> {
    /// The newest timestamp across all sources.
    pub reference: Duration,
    /// One entry per source, in the order the sources were configured.
    pub frames: Vec<SyncedEntry<H>>,
    /// Latest minus earliest timestamp of the entries.
    pub max_delta: Duration,
}

/// One source's contribution to a [`SyncedTuple`].
#[derive(Debug, Clone)]
pub struct SyncedEntry<H> {
    /// The source that produced the frame.
    pub source_id: SourceId,
    /// Timestamp of the frame.
    pub timestamp: Duration,
    /// The frame handle.
    pub handle: H,
}

/// Why [`TimestampedIngestBuffer::push`] refused a frame.
#[derive(Debug, Clone, Copy, PartialEq, Eq, Structural)]
pub enum IngestError {
    /// The source was not declared when the buffer was built.
    UnknownSource(SourceId),
}

impl IngestError {
    /// The message of the error.
    pub fn message(&self) -> (text: String)
        ensures
            text@ == match *self {
                IngestError::UnknownSource(id) => "unknown source id "@ + decimal(id as nat),
            },
    {
        match self {
            IngestError::UnknownSource(id) => {
                let mut text: String = "unknown source id ".to_owned();
                push_decimal(&mut text, *id as u64);
                text
            },
        }
    }
}

/// The frames one source holds, oldest first.
pub type Ring<H> = Seq<TimedFrame<H>>;

/// Timestamps never decrease from front to back.
pub open spec fn chronological<H>(ring: Ring<H>) -> bool {
    forall|i: int, j: int|
        0 <= i <= j < ring.len() ==> #[trigger] ring[i].timestamp@ <= #[trigger] ring[j].timestamp@
}

/// What is left of `ring` once there is room for one more frame in
/// `capacity`: the oldest frames go first.
pub open spec fn evicted<H>(ring: Ring<H>, capacity: nat) -> Ring<H>
    recommends
        capacity > 0,
{
    if ring.len() >= capacity {
        ring.skip(ring.len() - capacity + 1)
    } else {
        ring
    }
}

/// How many frames, counted from the front, lie before the place where a
/// frame of instant `at` belongs: behind every frame that is not later.
pub open spec fn place<H>(ring: Ring<H>, at: nat) -> nat
    decreases ring.len(),
{
    if ring.len() == 0 {
        0
    } else if ring.last().timestamp@ <= at {
        ring.len()
    } else {
        place(ring.drop_last(), at)
    }
}

/// `ring` with `frame` put in its chronological place.
pub open spec fn pushed<H>(ring: Ring<H>, frame: TimedFrame<H>, capacity: nat) -> Ring<H> {
    let room = evicted(ring, capacity);
    room.insert(place(room, frame.timestamp@) as int, frame)
}

/// `ring` without its leading frames older than `cutoff`.
pub open spec fn trimmed<H>(ring: Ring<H>, cutoff: nat) -> Ring<H>
    decreases ring.len(),
{
    if ring.len() > 0 && ring[0].timestamp@ < cutoff {
        trimmed(ring.drop_first(), cutoff)
    } else {
        ring
    }
}

/// The largest number in `s`, or zero for none.
pub open spec fn max_of(s: Seq<nat>) -> nat
    decreases s.len(),
{
    if s.len() == 0 {
        0
    } else {
        let rest = max_of(s.drop_last());
        if s.last() > rest {
            s.last()
        } else {
            rest
        }
    }
}

/// The smaller of `cap` and the smallest number in `s`.
pub open spec fn min_of(s: Seq<nat>, cap: nat) -> nat
    decreases s.len(),
{
    if s.len() == 0 {
        cap
    } else {
        let rest = min_of(s.drop_last(), cap);
        if s.last() < rest {
            s.last()
        } else {
            rest
        }
    }
}

/// The newest timestamp of each ring, or zero for one that is empty.
pub open spec fn latest_of<H>(rings: Seq<Ring<H>>) -> Seq<nat> {
    rings.map_values(
        |r: Ring<H>|
            if r.len() > 0 {
                r.last().timestamp@
            } else {
                0
            },
    )
}

/// No ring is empty.
pub open spec fn all_filled<H>(rings: Seq<Ring<H>>) -> bool {
    forall|i: int| 0 <= i < rings.len() ==> (#[trigger] rings[i]).len() > 0
}

/// Number of frames in all rings.
pub open spec fn count_of<H>(rings: Seq<Ring<H>>) -> nat
    decreases rings.len(),
{
    if rings.len() == 0 {
        0
    } else {
        count_of(rings.drop_last()) + rings.last().len()
    }
}

/// What a buffer holds, source by source in configured order.
#[verifier::ext_equal]
pub struct BufferState<H> {
    /// The configured sources.
    pub ids: Seq<SourceId>,
    /// Frames held per source.
    pub rings: Seq<Ring<H>>,
    /// Spread of the last emitted tuple, per source.
    pub deltas: Seq<Option<Duration>>,
    /// Largest spread a tuple may have.
    pub tolerance: nat,
    /// Ring size per source.
    pub capacity: nat,
}

impl<H> BufferState<H> {
    /// The invariant of every buffer: distinct sources, each with a
    /// chronological ring within capacity.
    pub open spec fn valid(self) -> bool {
        &&& self.ids.len() > 0
        &&& self.ids.no_duplicates()
        &&& self.rings.len() == self.ids.len()
        &&& self.deltas.len() == self.ids.len()
        &&& self.capacity > 0
        &&& forall|i: int|
            0 <= i < self.rings.len() ==> chronological(#[trigger] self.rings[i])
                && self.rings[i].len() <= self.capacity
    }

    /// The newest timestamp across all sources that hold a frame.
    pub open spec fn reference(self) -> nat {
        max_of(latest_of(self.rings))
    }

    /// The oldest instant that may still be paired with the reference.
    pub open spec fn cutoff(self) -> nat {
        monus(self.reference(), self.tolerance)
    }

    /// The rings once everything older than the cutoff is gone.
    pub open spec fn window(self) -> Seq<Ring<H>> {
        let cutoff = self.cutoff();
        self.rings.map_values(|r: Ring<H>| trimmed(r, cutoff))
    }

    /// Whether every source holds a frame close enough to the reference.
    pub open spec fn emits(self) -> bool {
        all_filled(self.window())
    }

    /// Latest minus earliest timestamp among the frames due for emission.
    pub open spec fn spread(self) -> nat {
        let picks = latest_of(self.window());
        monus(max_of(picks), min_of(picks, self.reference()))
    }

    /// Position of a source, if it is configured.
    pub open spec fn position(self, id: SourceId) -> Option<int> {
        if self.ids.contains(id) {
            Some(self.ids.index_of(id))
        } else {
            None
        }
    }

    /// Number of frames held for a source; none for an unknown one.
    pub open spec fn held(self, id: SourceId) -> nat {
        match self.position(id) {
            Some(i) => self.rings[i].len(),
            None => 0,
        }
    }

    /// Number of frames held for some sources together.
    pub open spec fn held_for(self, ids: Seq<SourceId>) -> nat
        decreases ids.len(),
    {
        if ids.len() == 0 {
            0
        } else {
            self.held_for(ids.drop_last()) + self.held(ids.last())
        }
    }
}

struct SourceSlot<H> {
    id: SourceId,
    ring: VecDeque<TimedFrame<H>>,
    last_sync_delta: Option<Duration>,
}

proof fn lemma_place<H>(ring: Ring<H>, at: nat)
    requires
        chronological(ring),
    ensures
        place(ring, at) <= ring.len(),
        forall|i: int| 0 <= i < place(ring, at) ==> (#[trigger] ring[i]).timestamp@ <= at,
        forall|i: int| place(ring, at) <= i < ring.len() ==> (#[trigger] ring[i]).timestamp@ > at,
    decreases ring.len(),
{
    if ring.len() > 0 && ring.last().timestamp@ > at {
        let front = ring.drop_last();
        lemma_place(front, at);
        assert forall|i: int| 0 <= i < place(ring, at) implies (
        #[trigger] ring[i]).timestamp@ <= at by {
            assert(front[i] == ring[i]);
        }
        assert forall|i: int| place(ring, at) <= i < ring.len() implies (
        #[trigger] ring[i]).timestamp@ > at by {
            if i < front.len() {
                assert(front[i] == ring[i]);
            }
        }
    }
}

/// A frame has exactly one place in a chronological ring: the one with every
/// earlier-or-equal frame before it and every later frame behind it.
proof fn lemma_place_unique<H>(ring: Ring<H>, at: nat, n: nat)
    requires
        chronological(ring),
        n <= ring.len(),
        n > 0 ==> ring[n - 1].timestamp@ <= at,
        n < ring.len() ==> ring[n as int].timestamp@ > at,
    ensures
        place(ring, at) == n,
{
    lemma_place(ring, at);
    if place(ring, at) < n {
        assert(ring[n - 1].timestamp@ > at);
    }
    if place(ring, at) > n {
        assert(ring[n as int].timestamp@ <= at);
    }
}

proof fn lemma_trimmed<H>(ring: Ring<H>, cutoff: nat)
    requires
        chronological(ring),
    ensures
        trimmed(ring, cutoff).len() <= ring.len(),
        trimmed(ring, cutoff) == ring.skip(ring.len() - trimmed(ring, cutoff).len()),
        chronological(trimmed(ring, cutoff)),
        forall|i: int|
            0 <= i < trimmed(ring, cutoff).len() ==> (
            #[trigger] trimmed(ring, cutoff)[i]).timestamp@ >= cutoff,
        forall|i: int|
            0 <= i < ring.len() - trimmed(ring, cutoff).len() ==> (
            #[trigger] ring[i]).timestamp@ < cutoff,
    decreases ring.len(),
{
    if ring.len() > 0 && ring[0].timestamp@ < cutoff {
        let rest = ring.drop_first();
        assert forall|i: int, j: int| 0 <= i <= j < rest.len() implies
            #[trigger] rest[i].timestamp@ <= #[trigger] rest[j].timestamp@ by {
            assert(rest[i] == ring[i + 1]);
            assert(rest[j] == ring[j + 1]);
        }
        lemma_trimmed(rest, cutoff);
        let kept = trimmed(rest, cutoff);
        assert(rest.skip(rest.len() - kept.len()) =~= ring.skip(ring.len() - kept.len()));
        assert forall|i: int| 0 <= i < ring.len() - kept.len() implies (
        #[trigger] ring[i]).timestamp@ < cutoff by {
            if i > 0 {
                assert(rest[i - 1] == ring[i]);
            }
        }
    } else {
        assert(ring.skip(0) =~= ring);
        assert forall|i: int| 0 <= i < ring.len() implies (
        #[trigger] ring[i]).timestamp@ >= cutoff by {
            assert(ring[0].timestamp@ <= ring[i].timestamp@);
        }
    }
}

proof fn lemma_max_of(s: Seq<nat>)
    ensures
        forall|i: int| 0 <= i < s.len() ==> #[trigger] s[i] <= max_of(s),
        s.len() > 0 ==> exists|i: int| 0 <= i < s.len() && #[trigger] s[i] == max_of(s),
    decreases s.len(),
{
    if s.len() > 0 {
        let front = s.drop_last();
        lemma_max_of(front);
        assert forall|i: int| 0 <= i < s.len() implies #[trigger] s[i] <= max_of(s) by {
            if i < front.len() {
                assert(front[i] == s[i]);
            }
        }
        if s.last() > max_of(front) {
            assert(s[s.len() - 1] == max_of(s));
        } else if front.len() > 0 {
            let w = choose|i: int| 0 <= i < front.len() && #[trigger] front[i] == max_of(front);
            assert(s[w] == max_of(s));
        } else {
            assert(s[s.len() - 1] == max_of(s));
        }
    }
}

proof fn lemma_min_of(s: Seq<nat>, cap: nat)
    ensures
        min_of(s, cap) <= cap,
        forall|i: int| 0 <= i < s.len() ==> min_of(s, cap) <= #[trigger] s[i],
        min_of(s, cap) == cap || exists|i: int|
            0 <= i < s.len() && #[trigger] s[i] == min_of(s, cap),
    decreases s.len(),
{
    if s.len() > 0 {
        let front = s.drop_last();
        lemma_min_of(front, cap);
        assert forall|i: int| 0 <= i < s.len() implies min_of(s, cap) <= #[trigger] s[i] by {
            if i < front.len() {
                assert(front[i] == s[i]);
            }
        }
        if s.last() < min_of(front, cap) {
            assert(s[s.len() - 1] == min_of(s, cap));
        } else if min_of(front, cap) != cap {
            let w = choose|i: int|
                0 <= i < front.len() && #[trigger] front[i] == min_of(front, cap);
            assert(s[w] == min_of(s, cap));
        }
    }
}

impl<H> SourceSlot<H> {
    fn new(id: SourceId, capacity: usize) -> (slot: Self)
        ensures
            slot.id == id,
            slot.ring@ == Seq::<TimedFrame<H>>::empty(),
            slot.last_sync_delta is None,
    {
        SourceSlot { id, ring: VecDeque::with_capacity(capacity), last_sync_delta: None }
    }

    /// Put `frame` in its chronological place, after making room.
    fn push(&mut self, frame: TimedFrame<H>, capacity: usize)
        requires
            capacity > 0,
            chronological(old(self).ring@),
        ensures
            final(self).id == old(self).id,
            final(self).last_sync_delta == old(self).last_sync_delta,
            final(self).ring@ == pushed(old(self).ring@, frame, capacity as nat),
            final(self).ring@.len() == evicted(old(self).ring@, capacity as nat).len() + 1,
            chronological(final(self).ring@),
    {
        let ghost before = self.ring@;
        let ghost mut gone: int = 0;
        while self.ring.len() >= capacity
            invariant
                capacity > 0,
                0 <= gone <= before.len(),
                self.ring@ == before.skip(gone),
                gone > 0 ==> self.ring.len() + 1 >= capacity,
                self.id == old(self).id,
                self.last_sync_delta == old(self).last_sync_delta,
            decreases self.ring.len(),
        {
            let _oldest = self.ring.pop_front();
            proof {
                assert(before.skip(gone).subrange(
                    1,
                    before.len() - gone,
                ) =~= before.skip(gone + 1));
                gone = gone + 1;
            }
        }
        let ghost room = self.ring@;
        proof {
            if gone == 0 {
                assert(before.skip(0) =~= before);
            }
            assert(room == evicted(before, capacity as nat));
            assert forall|i: int, j: int| 0 <= i <= j < room.len() implies
                #[trigger] room[i].timestamp@ <= #[trigger] room[j].timestamp@ by {
                assert(room[i] == before[i + gone]);
                assert(room[j] == before[j + gone]);
            }
        }
        let mut idx: usize = self.ring.len();
        while idx > 0 && self.ring[idx - 1].timestamp.nanos > frame.timestamp.nanos
            invariant
                idx <= self.ring.len(),
                self.ring@ == room,
                chronological(room),
                idx < room.len() ==> room[idx as int].timestamp@ > frame.timestamp@,
                self.id == old(self).id,
                self.last_sync_delta == old(self).last_sync_delta,
            decreases idx,
        {
            idx = idx - 1;
        }
        proof {
            lemma_place_unique(room, frame.timestamp@, idx as nat);
            lemma_place(room, frame.timestamp@);
            let after = room.insert(idx as int, frame);
            assert forall|i: int, j: int| 0 <= i <= j < after.len() implies
                #[trigger] after[i].timestamp@ <= #[trigger] after[j].timestamp@ by {
                assert(after[i] == if i < idx { room[i] } else if i == idx { frame } else {
                    room[i - 1]
                });
                assert(after[j] == if j < idx { room[j] } else if j == idx { frame } else {
                    room[j - 1]
                });
            }
        }
        self.ring.insert(idx, frame);
    }

    /// The newest frame's timestamp, if any.
    fn latest_timestamp(&self) -> (t: Option<Duration>)
        ensures
            self.ring@.len() == 0 ==> t is None,
            self.ring@.len() > 0 ==> t == Some(self.ring@.last().timestamp),
    {
        let n: usize = self.ring.len();
        if n == 0 {
            None
        } else {
            Some(self.ring[n - 1].timestamp)
        }
    }

    /// Drop the leading frames older than `cutoff`.
    fn trim_older_than(&mut self, cutoff: Duration)
        ensures
            final(self).id == old(self).id,
            final(self).last_sync_delta == old(self).last_sync_delta,
            final(self).ring@ == trimmed(old(self).ring@, cutoff@),
    {
        while self.ring.len() > 0 && self.ring[0].timestamp.nanos < cutoff.nanos
            invariant
                trimmed(self.ring@, cutoff@) == trimmed(old(self).ring@, cutoff@),
                self.id == old(self).id,
                self.last_sync_delta == old(self).last_sync_delta,
            decreases self.ring.len(),
        {
            let ghost before = self.ring@;
            let _stale = self.ring.pop_front();
            assert(self.ring@ =~= before.drop_first());
        }
    }

    /// Take the newest frame that is not later than `reference`.
    fn pop_at_or_before(&mut self, reference: Duration) -> (picked: Option<TimedFrame<H>>)
        requires
            chronological(old(self).ring@),
        ensures
            final(self).id == old(self).id,
            final(self).last_sync_delta == old(self).last_sync_delta,
            ({
                let n = place(old(self).ring@, reference@);
                if n == 0 {
                    picked is None && final(self).ring@ == old(self).ring@
                } else {
                    &&& picked == Some(old(self).ring@[n - 1])
                    &&& final(self).ring@ == old(self).ring@.remove(n - 1)
                }
            }),
    {
        let mut n: usize = 0;
        while n < self.ring.len() && self.ring[n].timestamp.nanos <= reference.nanos
            invariant
                n <= self.ring.len(),
                *self == *old(self),
                n > 0 ==> self.ring@[n - 1].timestamp@ <= reference@,
            decreases self.ring.len() - n,
        {
            n = n + 1;
        }
        proof {
            lemma_place_unique(self.ring@, reference@, n as nat);
        }
        if n == 0 {
            None
        } else {
            self.ring.remove(n - 1)
        }
    }
}

/// Ring buffers of several sources, paired by timestamp.
pub struct TimestampedIngestBuffer<H> {
    sources: Vec<SourceSlot<H>>,
    tolerance: Duration,
    capacity_per_source: usize,
}

impl<H> View for TimestampedIngestBuffer<H> {
    type V = BufferState<H>;

    closed spec fn view(&self) -> BufferState<H> {
        BufferState {
            ids: self.sources@.map_values(|s: SourceSlot<H>| s.id),
            rings: self.sources@.map_values(|s: SourceSlot<H>| s.ring@),
            deltas: self.sources@.map_values(|s: SourceSlot<H>| s.last_sync_delta),
            tolerance: self.tolerance@,
            capacity: self.capacity_per_source as nat,
        }
    }
}

impl<H> TimestampedIngestBuffer<H> {
    /// Build a buffer for the given sources, in emission order.
    ///
    /// `tolerance` is the largest timestamp spread of an emitted tuple, and
    /// `capacity_per_source` the ring size of each source.
    pub fn new(source_ids: &[SourceId], tolerance: Duration, capacity_per_source: usize) -> (buffer:
        Self)
        requires
            source_ids@.len() > 0,
            source_ids@.no_duplicates(),
            capacity_per_source > 0,
        ensures
            buffer@.valid(),
            buffer@.ids == source_ids@,
            buffer@.tolerance == tolerance@,
            buffer@.capacity == capacity_per_source,
            forall|i: int| 0 <= i < source_ids@.len() ==> (#[trigger] buffer@.rings[i]).len() == 0,
            forall|i: int| 0 <= i < source_ids@.len() ==> #[trigger] buffer@.deltas[i] is None,
    {
        let mut sources: Vec<SourceSlot<H>> = Vec::with_capacity(source_ids.len());
        let mut i: usize = 0;
        while i < source_ids.len()
            invariant
                i <= source_ids@.len(),
                sources@.len() == i,
                forall|k: int|
                    0 <= k < i ==> {
                        &&& (#[trigger] sources@[k]).id == source_ids@[k]
                        &&& sources@[k].ring@.len() == 0
                        &&& sources@[k].last_sync_delta is None
                    },
            decreases source_ids@.len() - i,
        {
            sources.push(SourceSlot::new(source_ids[i], capacity_per_source));
            i = i + 1;
        }
        let buffer = TimestampedIngestBuffer { sources, tolerance, capacity_per_source };
        assert(buffer@.ids =~= source_ids@);
        buffer
    }

    /// Where `source_id` stands among the sources.
    fn find(&self, source_id: SourceId) -> (at: Option<usize>)
        requires
            self@.ids.no_duplicates(),
        ensures
            match at {
                Some(i) => i < self.sources@.len() && self@.position(source_id) == Some(i as int),
                None => self@.position(source_id) is None,
            },
    {
        let mut i: usize = 0;
        while i < self.sources.len()
            invariant
                i <= self.sources@.len(),
                self@.ids.no_duplicates(),
                self@.ids.len() == self.sources@.len(),
                forall|k: int| 0 <= k < i ==> self@.ids[k] != source_id,
            decreases self.sources@.len() - i,
        {
            assert(self@.ids[i as int] == self.sources@[i as int].id);
            if self.sources[i].id == source_id {
                assert(self@.ids.contains(source_id));
                return Some(i);
            }
            i = i + 1;
        }
        None
    }

    /// Push a frame of the given source into its ring. The oldest frame makes
    /// room when the ring is full.
    pub fn push(&mut self, source_id: SourceId, timestamp: Duration, handle: H) -> (pushed_frame:
        Result<(), IngestError>)
        requires
            old(self)@.valid(),
        ensures
            final(self)@.valid(),
            match old(self)@.position(source_id) {
                Some(i) => {
                    &&& pushed_frame is Ok
                    &&& final(self)@ == (BufferState {
                        rings: old(self)@.rings.update(
                            i,
                            pushed(
                                old(self)@.rings[i],
                                (TimedFrame { timestamp, handle }),
                                old(self)@.capacity,
                            ),
                        ),
                        ..old(self)@
                    })
                },
                None => {
                    &&& pushed_frame == Err::<(), IngestError>(
                        IngestError::UnknownSource(source_id),
                    )
                    &&& final(self)@ == old(self)@
                },
            },
    {
        let at = self.find(source_id);
        match at {
            None => Err(IngestError::UnknownSource(source_id)),
            Some(i) => {
                let ghost before = self@;
                assert(before.rings[i as int] == self.sources@[i as int].ring@);
                let capacity: usize = self.capacity_per_source;
                self.sources[i].push(TimedFrame { timestamp, handle }, capacity);
                proof {
                    let after = self@;
                    assert(after.ids =~= before.ids);
                    assert(after.deltas =~= before.deltas);
                    assert(after.rings =~= before.rings.update(
                        i as int,
                        pushed(
                            before.rings[i as int],
                            TimedFrame { timestamp, handle },
                            before.capacity,
                        ),
                    ));
                    assert forall|k: int| 0 <= k < after.rings.len() implies chronological(
                        #[trigger] after.rings[k],
                    ) && after.rings[k].len() <= after.capacity by {
                        if k != i {
                            assert(after.rings[k] == before.rings[k]);
                        }
                    }
                }
                Ok(())
            },
        }
    }

    /// Whether every source holds a frame.
    fn all_have_frames(&self) -> (filled: bool)
        ensures
            filled == all_filled(self@.rings),
    {
        let mut i: usize = 0;
        while i < self.sources.len()
            invariant
                i <= self.sources@.len(),
                self@.rings.len() == self.sources@.len(),
                forall|k: int| 0 <= k < i ==> (#[trigger] self@.rings[k]).len() > 0,
            decreases self.sources@.len() - i,
        {
            assert(self@.rings[i as int] == self.sources@[i as int].ring@);
            if self.sources[i].ring.len() == 0 {
                return false;
            }
            i = i + 1;
        }
        true
    }

    /// The newest timestamp across all sources.
    fn newest(&self) -> (reference: Duration)
        ensures
            reference@ == self@.reference(),
    {
        let mut reference = Duration::zero();
        let mut i: usize = 0;
        let ghost latest = latest_of(self@.rings);
        assert(latest.take(0) =~= Seq::<nat>::empty());
        while i < self.sources.len()
            invariant
                i <= self.sources@.len(),
                latest == latest_of(self@.rings),
                self@.rings.len() == self.sources@.len(),
                reference@ == max_of(latest.take(i as int)),
            decreases self.sources@.len() - i,
        {
            assert(self@.rings[i as int] == self.sources@[i as int].ring@);
            if let Some(t) = self.sources[i].latest_timestamp() {
                assert(latest[i as int] == t@);
                if t.nanos > reference.nanos {
                    reference = t;
                }
            }
            assert(latest.take(i + 1).drop_last() =~= latest.take(i as int));
            i = i + 1;
        }
        assert(latest.take(i as int) =~= latest);
        reference
    }

    /// Drop what is older than `cutoff` from every source.
    fn trim(&mut self, cutoff: Duration)
        ensures
            final(self)@ == (BufferState {
                rings: old(self)@.rings.map_values(|r: Ring<H>| trimmed(r, cutoff@)),
                ..old(self)@
            }),
    {
        let ghost before = self@;
        let ghost goal = before.rings.map_values(|r: Ring<H>| trimmed(r, cutoff@));
        let mut i: usize = 0;
        while i < self.sources.len()
            invariant
                i <= self.sources@.len(),
                self@.rings.len() == self.sources@.len(),
                before == old(self)@,
                goal == before.rings.map_values(|r: Ring<H>| trimmed(r, cutoff@)),
                self@ == (BufferState {
                    rings: goal.take(i as int) + before.rings.skip(i as int),
                    ..before
                }),
                before.rings.len() == self.sources@.len(),
            decreases self.sources@.len() - i,
        {
            let ghost middle = self@;
            assert(middle.rings[i as int] == self.sources@[i as int].ring@);
            assert(middle.rings[i as int] == before.rings[i as int]);
            self.sources[i].trim_older_than(cutoff);
            proof {
                let after = self@;
                assert(after.ids =~= middle.ids);
                assert(after.deltas =~= middle.deltas);
                assert(after.rings =~= middle.rings.update(i as int, goal[i as int]));
                assert(after.rings =~= goal.take(i + 1) + before.rings.skip(i + 1));
            }
            i = i + 1;
        }
        assert(goal.take(i as int) + before.rings.skip(i as int) =~= goal);
    }

    /// Take the newest frame of every source, in source order.
    fn pop_all(&mut self, reference: Duration) -> (frames: Vec<SyncedEntry<H>>)
        requires
            old(self)@.valid(),
            all_filled(old(self)@.rings),
            forall|k: int|
                0 <= k < old(self)@.rings.len() ==> (
                #[trigger] old(self)@.rings[k]).last().timestamp@ <= reference@,
        ensures
            final(self)@ == (BufferState {
                rings: old(self)@.rings.map_values(|r: Ring<H>| r.drop_last()),
                ..old(self)@
            }),
            frames@.len() == old(self)@.ids.len(),
            forall|k: int|
                0 <= k < frames@.len() ==> entry_of(
                    #[trigger] frames@[k],
                    old(self)@.ids[k],
                    old(self)@.rings[k].last(),
                ),
    {
        let ghost before = self@;
        let ghost goal = before.rings.map_values(|r: Ring<H>| r.drop_last());
        let mut frames: Vec<SyncedEntry<H>> = Vec::with_capacity(self.sources.len());
        let mut i: usize = 0;
        while i < self.sources.len()
            invariant
                i <= self.sources@.len(),
                self@.rings.len() == self.sources@.len(),
                before == old(self)@,
                before.valid(),
                all_filled(before.rings),
                forall|k: int|
                    0 <= k < before.rings.len() ==> (
                    #[trigger] before.rings[k]).last().timestamp@ <= reference@,
                goal == before.rings.map_values(|r: Ring<H>| r.drop_last()),
                self@ == (BufferState {
                    rings: goal.take(i as int) + before.rings.skip(i as int),
                    ..before
                }),
                before.rings.len() == self.sources@.len(),
                frames@.len() == i,
                forall|k: int|
                    0 <= k < i ==> entry_of(
                        #[trigger] frames@[k],
                        before.ids[k],
                        before.rings[k].last(),
                    ),
            decreases self.sources@.len() - i,
        {
            let ghost middle = self@;
            let ghost ring = before.rings[i as int];
            assert(middle.rings[i as int] == self.sources@[i as int].ring@);
            assert(middle.rings[i as int] == ring);
            assert(middle.ids[i as int] == self.sources@[i as int].id);
            proof {
                lemma_place_unique(ring, reference@, ring.len());
                assert(ring.remove(ring.len() - 1) =~= ring.drop_last());
            }
            let source_id: u32 = self.sources[i].id;
            let picked = self.sources[i].pop_at_or_before(reference);
            proof {
                let after = self@;
                assert(after.ids =~= middle.ids);
                assert(after.deltas =~= middle.deltas);
                assert(after.rings =~= middle.rings.update(i as int, goal[i as int]));
                assert(after.rings =~= goal.take(i + 1) + before.rings.skip(i + 1));
            }
            if let Some(frame) = picked {
                frames.push(
                    SyncedEntry { source_id, timestamp: frame.timestamp, handle: frame.handle },
                );
            }
            i = i + 1;
        }
        assert(goal.take(i as int) + before.rings.skip(i as int) =~= goal);
        frames
    }

    /// Record the spread of an emitted tuple for every source.
    fn record_delta(&mut self, delta: Duration)
        ensures
            final(self)@ == (BufferState {
                deltas: old(self)@.deltas.map_values(|d: Option<Duration>| Some(delta)),
                ..old(self)@
            }),
    {
        let ghost before = self@;
        let ghost goal = before.deltas.map_values(|d: Option<Duration>| Some(delta));
        let mut i: usize = 0;
        while i < self.sources.len()
            invariant
                i <= self.sources@.len(),
                before == old(self)@,
                before.deltas.len() == self.sources@.len(),
                goal == before.deltas.map_values(|d: Option<Duration>| Some(delta)),
                self@ == (BufferState {
                    deltas: goal.take(i as int) + before.deltas.skip(i as int),
                    ..before
                }),
            decreases self.sources@.len() - i,
        {
            let ghost middle = self@;
            self.sources[i].last_sync_delta = Some(delta);
            proof {
                let after = self@;
                assert(after.ids =~= middle.ids);
                assert(after.rings =~= middle.rings);
                assert(after.deltas =~= middle.deltas.update(i as int, goal[i as int]));
                assert(after.deltas =~= goal.take(i + 1) + before.deltas.skip(i + 1));
            }
            i = i + 1;
        }
        assert(goal.take(i as int) + before.deltas.skip(i as int) =~= goal);
    }

    /// Try to emit one frame per source, no further apart than the tolerance.
    ///
    /// What is out of tolerance is dropped from every source. If that leaves
    /// every source with a frame, each source's newest frame leaves its ring in
    /// the tuple.
    pub fn try_emit(&mut self) -> (tuple: Option<SyncedTuple<H>>)
        requires
            old(self)@.valid(),
        ensures
            final(self)@.valid(),
            tuple is Some <==> old(self)@.emits(),
            !old(self)@.emits() ==> final(self)@ == (BufferState {
                rings: old(self)@.window(),
                ..old(self)@
            }),
            tuple matches Some(t) ==> {
                &&& t.reference@ == old(self)@.reference()
                &&& t.max_delta@ == old(self)@.spread()
                &&& forall|k: int|
                    0 <= k < t.frames@.len() ==> {
                        &&& (#[trigger] t.frames@[k]).source_id == old(self)@.ids[k]
                        &&& t.frames@[k].timestamp == old(self)@.rings[k].last().timestamp
                        &&& t.frames@[k].handle == old(self)@.rings[k].last().handle
                    }
                &&& t.frames@.len() == old(self)@.ids.len()
                &&& forall|k: int|
                    0 <= k < t.frames@.len() ==> entry_of(
                        #[trigger] t.frames@[k],
                        old(self)@.ids[k],
                        old(self)@.window()[k].last(),
                    )
                &&& final(self)@ == (BufferState {
                    rings: old(self)@.window().map_values(|r: Ring<H>| r.drop_last()),
                    deltas: old(self)@.deltas.map_values(
                        |d: Option<Duration>| Some(t.max_delta),
                    ),
                    ..old(self)@
                })
            },
    {
        let ghost start = self@;
        let reference = self.newest();
        let cutoff = reference.saturating_sub(self.tolerance);
        self.trim(cutoff);
        let ghost windowed = self@;
        proof {
            lemma_window(start);
        }
        if !self.all_have_frames() {
            return None;
        }
        let frames = self.pop_all(reference);
        let mut min_ts = reference;
        let mut max_ts = Duration::zero();
        let ghost picks = latest_of(windowed.rings);
        let mut i: usize = 0;
        assert(picks.take(0) =~= Seq::<nat>::empty());
        while i < frames.len()
            invariant
                i <= frames@.len(),
                frames@.len() == picks.len(),
                picks == latest_of(windowed.rings),
                all_filled(windowed.rings),
                forall|k: int|
                    0 <= k < frames@.len() ==> entry_of(
                        #[trigger] frames@[k],
                        windowed.ids[k],
                        windowed.rings[k].last(),
                    ),
                max_ts@ == max_of(picks.take(i as int)),
                min_ts@ == min_of(picks.take(i as int), reference@),
            decreases frames@.len() - i,
        {
            let t = frames[i].timestamp;
            assert(entry_of(frames@[i as int], windowed.ids[i as int], windowed.rings[i as int].last()));
            assert(picks[i as int] == t@);
            if t.nanos < min_ts.nanos {
                min_ts = t;
            }
            if t.nanos > max_ts.nanos {
                max_ts = t;
            }
            assert(picks.take(i + 1).drop_last() =~= picks.take(i as int));
            i = i + 1;
        }
        assert(picks.take(i as int) =~= picks);
        let max_delta = max_ts.saturating_sub(min_ts);
        self.record_delta(max_delta);
        proof {
            let after = self@;
            assert forall|k: int| 0 <= k < after.rings.len() implies chronological(
                #[trigger] after.rings[k],
            ) && after.rings[k].len() <= after.capacity by {
                let ring = windowed.rings[k];
                assert(chronological(ring));
                assert forall|a: int, b: int| 0 <= a <= b < ring.drop_last().len() implies
                    #[trigger] ring.drop_last()[a].timestamp@
                    <= #[trigger] ring.drop_last()[b].timestamp@ by {
                    assert(ring[a].timestamp@ <= ring[b].timestamp@);
                }
            }
        }
        Some(SyncedTuple { reference, frames, max_delta })
    }

    /// Spread of the last emitted tuple, as recorded for a source. `None` for
    /// an unknown source and before the first emission.
    pub fn last_sync_delta(&self, source_id: SourceId) -> (delta: Option<Duration>)
        requires
            self@.valid(),
        ensures
            delta == (match self@.position(source_id) {
                Some(i) => self@.deltas[i],
                None => None,
            }),
    {
        match self.find(source_id) {
            Some(i) => self.sources[i].last_sync_delta,
            None => None,
        }
    }

    /// Number of frames held for a source; zero for an unknown one.
    pub fn len(&self, source_id: SourceId) -> (n: usize)
        requires
            self@.valid(),
        ensures
            n == self@.held(source_id),
    {
        match self.find(source_id) {
            Some(i) => self.sources[i].ring.len(),
            None => 0,
        }
    }

    /// Number of frames held across all sources.
    pub fn total_len(&self) -> (n: usize)
        requires
            count_of(self@.rings) <= usize::MAX,
        ensures
            n == count_of(self@.rings),
    {
        let mut n: usize = 0;
        let mut i: usize = 0;
        assert(self@.rings.take(0) =~= Seq::<Ring<H>>::empty());
        while i < self.sources.len()
            invariant
                i <= self.sources@.len(),
                self@.rings.len() == self.sources@.len(),
                count_of(self@.rings) <= usize::MAX,
                n == count_of(self@.rings.take(i as int)),
            decreases self.sources@.len() - i,
        {
            assert(self@.rings[i as int] == self.sources@[i as int].ring@);
            assert(self@.rings.take(i + 1).drop_last() =~= self@.rings.take(i as int));
            proof {
                lemma_count_prefix(self@.rings, i + 1);
            }
            n = n + self.sources[i].ring.len();
            i = i + 1;
        }
        assert(self@.rings.take(i as int) =~= self@.rings);
        n
    }

    /// Whether no source holds a frame.
    pub fn is_empty(&self) -> (empty: bool)
        ensures
            empty == (forall|i: int| 0 <= i < self@.rings.len() ==> (#[trigger] self@.rings[i]).len() == 0),
    {
        let mut i: usize = 0;
        while i < self.sources.len()
            invariant
                i <= self.sources@.len(),
                self@.rings.len() == self.sources@.len(),
                forall|k: int| 0 <= k < i ==> (#[trigger] self@.rings[k]).len() == 0,
            decreases self.sources@.len() - i,
        {
            assert(self@.rings[i as int] == self.sources@[i as int].ring@);
            if self.sources[i].ring.len() != 0 {
                return false;
            }
            i = i + 1;
        }
        true
    }

    /// Drop every frame. The recorded spreads stay.
    pub fn clear(&mut self)
        requires
            old(self)@.valid(),
        ensures
            final(self)@.valid(),
            final(self)@ == (BufferState {
                rings: old(self)@.rings.map_values(|r: Ring<H>| Seq::<TimedFrame<H>>::empty()),
                ..old(self)@
            }),
    {
        let ghost before = self@;
        let ghost goal = before.rings.map_values(|r: Ring<H>| Seq::<TimedFrame<H>>::empty());
        let mut i: usize = 0;
        while i < self.sources.len()
            invariant
                i <= self.sources@.len(),
                before == old(self)@,
                before.rings.len() == self.sources@.len(),
                goal == before.rings.map_values(|r: Ring<H>| Seq::<TimedFrame<H>>::empty()),
                self@ == (BufferState {
                    rings: goal.take(i as int) + before.rings.skip(i as int),
                    ..before
                }),
            decreases self.sources@.len() - i,
        {
            let ghost middle = self@;
            self.sources[i].ring.clear();
            proof {
                let after = self@;
                assert(after.ids =~= middle.ids);
                assert(after.deltas =~= middle.deltas);
                assert(after.rings =~= middle.rings.update(i as int, goal[i as int]));
                assert(after.rings =~= goal.take(i + 1) + before.rings.skip(i + 1));
            }
            i = i + 1;
        }
        assert(goal.take(i as int) + before.rings.skip(i as int) =~= goal);
    }

    /// The configured sources, in order.
    pub fn source_ids(&self) -> (ids: Vec<SourceId>)
        ensures
            ids@ == self@.ids,
    {
        let mut ids: Vec<SourceId> = Vec::with_capacity(self.sources.len());
        let mut i: usize = 0;
        while i < self.sources.len()
            invariant
                i <= self.sources@.len(),
                ids@ == self@.ids.take(i as int),
                self@.ids.len() == self.sources@.len(),
            decreases self.sources@.len() - i,
        {
            assert(self@.ids[i as int] == self.sources@[i as int].id);
            ids.push(self.sources[i].id);
            i = i + 1;
        }
        assert(self@.ids.take(i as int) =~= self@.ids);
        ids
    }

    /// The tolerance the buffer was built with.
    pub fn tolerance(&self) -> (tolerance: Duration)
        ensures
            tolerance@ == self@.tolerance,
    {
        self.tolerance
    }

    /// The ring size the buffer was built with.
    pub fn capacity_per_source(&self) -> (capacity: usize)
        ensures
            capacity == self@.capacity,
    {
        self.capacity_per_source
    }
}

/// An entry is the given frame of the given source.
pub open spec fn entry_of<H>(
    entry: SyncedEntry<H>,
    id: SourceId,
    frame: TimedFrame<H>,
) -> bool {
    &&& entry.source_id == id
    &&& entry.timestamp == frame.timestamp
    &&& entry.handle == frame.handle
}

proof fn lemma_count_prefix<H>(rings: Seq<Ring<H>>, n: int)
    requires
        0 <= n <= rings.len(),
    ensures
        count_of(rings.take(n)) <= count_of(rings),
    decreases rings.len() - n,
{
    if n < rings.len() {
        lemma_count_prefix(rings, n + 1);
        assert(rings.take(n + 1).drop_last() =~= rings.take(n));
    } else {
        assert(rings.take(n) =~= rings);
    }
}

/// The frames held across all sources are those held for each source, added up.
/// There are none exactly if every source holds none.
pub proof fn law_total_is_the_sum_over_sources<H>(state: BufferState<H>)
    requires
        state.valid(),
    ensures
        count_of(state.rings) == state.held_for(state.ids),
        count_of(state.rings) == 0 <==> forall|i: int|
            0 <= i < state.rings.len() ==> (#[trigger] state.rings[i]).len() == 0,
{
    lemma_count_of_prefix(state, state.ids.len() as int);
    assert(state.ids.take(state.ids.len() as int) =~= state.ids);
    assert(state.rings.take(state.ids.len() as int) =~= state.rings);
}

proof fn lemma_count_of_prefix<H>(state: BufferState<H>, n: int)
    requires
        state.valid(),
        0 <= n <= state.ids.len(),
    ensures
        count_of(state.rings.take(n)) == state.held_for(state.ids.take(n)),
        count_of(state.rings.take(n)) == 0 <==> forall|i: int|
            0 <= i < n ==> (#[trigger] state.rings[i]).len() == 0,
    decreases n,
{
    if n > 0 {
        lemma_count_of_prefix(state, n - 1);
        assert(state.rings.take(n).drop_last() =~= state.rings.take(n - 1));
        assert(state.ids.take(n).drop_last() =~= state.ids.take(n - 1));
        let id = state.ids[n - 1];
        assert(state.ids.contains(id));
        assert(state.ids[state.ids.index_of(id)] == id);
        assert(state.held(id) == state.rings[n - 1].len());
        assert(state.rings.take(n).last() == state.rings[n - 1]);
    }
}

/// What trimming leaves of a valid buffer is valid, within tolerance of the
/// reference, and still ends in each source's newest frame.
proof fn lemma_window<H>(state: BufferState<H>)
    requires
        state.valid(),
    ensures
        (BufferState { rings: state.window(), ..state }).valid(),
        forall|k: int|
            0 <= k < state.rings.len() && (#[trigger] state.window()[k]).len() > 0 ==> {
                &&& state.window()[k].last() == state.rings[k].last()
                &&& state.window()[k].last().timestamp@ <= state.reference()
                &&& state.window()[k].last().timestamp@ >= state.cutoff()
            },
{
    let latest = latest_of(state.rings);
    lemma_max_of(latest);
    let windowed = BufferState { rings: state.window(), ..state };
    assert forall|k: int| 0 <= k < windowed.rings.len() implies chronological(
        #[trigger] windowed.rings[k],
    ) && windowed.rings[k].len() <= windowed.capacity by {
        assert(chronological(state.rings[k]));
        lemma_trimmed(state.rings[k], state.cutoff());
    }
    assert forall|k: int|
        0 <= k < state.rings.len() && (#[trigger] state.window()[k]).len() > 0 implies {
        &&& state.window()[k].last() == state.rings[k].last()
        &&& state.window()[k].last().timestamp@ <= state.reference()
        &&& state.window()[k].last().timestamp@ >= state.cutoff()
    } by {
        assert(chronological(state.rings[k]));
        lemma_trimmed(state.rings[k], state.cutoff());
        assert(latest[k] == state.rings[k].last().timestamp@);
    }
}

/// The frames of an emitted tuple are never further apart than the tolerance,
/// and none is older than the reference by more than that.
pub proof fn law_emitted_spread_within_tolerance<H>(state: BufferState<H>)
    requires
        state.valid(),
        state.emits(),
    ensures
        state.spread() <= state.tolerance,
        forall|k: int|
            0 <= k < state.rings.len() ==> {
                &&& (#[trigger] state.window()[k]).last().timestamp@ <= state.reference()
                &&& state.reference() <= state.window()[k].last().timestamp@ + state.tolerance
            },
{
    lemma_window(state);
    let picks = latest_of(state.window());
    lemma_max_of(picks);
    lemma_min_of(picks, state.reference());
    assert forall|k: int| 0 <= k < picks.len() implies state.cutoff() <= #[trigger] picks[k]
        <= state.reference() by {
        assert(state.window()[k].len() > 0);
    }
}

/// Trimming keeps exactly the frames that are no older than the cutoff, in
/// their order.
pub proof fn law_trim_keeps_recent_frames<H>(ring: Ring<H>, cutoff: nat)
    requires
        chronological(ring),
    ensures
        trimmed(ring, cutoff) == ring.filter(|f: TimedFrame<H>| f.timestamp@ >= cutoff),
    decreases ring.len(),
{
    let recent = |f: TimedFrame<H>| f.timestamp@ >= cutoff;
    lemma_trimmed(ring, cutoff);
    let kept = trimmed(ring, cutoff);
    let n = ring.len() - kept.len();
    assert(ring =~= ring.take(n) + kept);
    lemma_filter_all(kept, recent);
    lemma_filter_none(ring.take(n), recent);
    Seq::filter_distributes_over_add(ring.take(n), kept, recent);
    assert(Seq::<TimedFrame<H>>::empty() + kept =~= kept);
}

proof fn lemma_filter_all<A>(s: Seq<A>, pred: spec_fn(A) -> bool)
    requires
        forall|i: int| 0 <= i < s.len() ==> pred(#[trigger] s[i]),
    ensures
        s.filter(pred) == s,
    decreases s.len(),
{
    reveal(Seq::filter);
    if s.len() > 0 {
        lemma_filter_all(s.drop_last(), pred);
        assert(s.drop_last().push(s.last()) =~= s);
    } else {
        assert(s.filter(pred) =~= s);
    }
}

proof fn lemma_filter_none<A>(s: Seq<A>, pred: spec_fn(A) -> bool)
    requires
        forall|i: int| 0 <= i < s.len() ==> !pred(#[trigger] s[i]),
    ensures
        s.filter(pred) == Seq::<A>::empty(),
    decreases s.len(),
{
    reveal(Seq::filter);
    if s.len() > 0 {
        lemma_filter_none(s.drop_last(), pred);
    }
}

/// Whether or not there is a tuple, no source is left with a frame that is out of
/// tolerance: what stays is within it of the newest frame across all sources.
pub proof fn law_stale_frames_are_dropped<H>(state: BufferState<H>, k: int, i: int)
    requires
        state.valid(),
        0 <= k < state.rings.len(),
        0 <= i < state.window()[k].len(),
    ensures
        state.window()[k][i].timestamp@ + state.tolerance >= state.reference(),
        state.rings[k].contains(state.window()[k][i]),
{
    assert(chronological(state.rings[k]));
    lemma_trimmed(state.rings[k], state.cutoff());
    let ring = state.rings[k];
    let kept = trimmed(ring, state.cutoff());
    assert(kept[i] == ring[ring.len() - kept.len() + i]);
}

/// A push adds its frame, drops only the oldest ones, and only when the ring
/// is full; the ring stays chronological and within capacity.
pub proof fn law_push_keeps_newest<H>(ring: Ring<H>, frame: TimedFrame<H>, capacity: nat)
    requires
        chronological(ring),
        0 < capacity,
        ring.len() <= capacity,
    ensures
        chronological(pushed(ring, frame, capacity)),
        pushed(ring, frame, capacity).len() <= capacity,
        pushed(ring, frame, capacity).contains(frame),
        ring.len() < capacity ==> pushed(ring, frame, capacity).len() == ring.len() + 1,
        ring.len() == capacity ==> pushed(ring, frame, capacity).len() == capacity
            && evicted(ring, capacity) == ring.drop_first(),
{
    let room = evicted(ring, capacity);
    assert forall|i: int, j: int| 0 <= i <= j < room.len() implies #[trigger] room[i].timestamp@
        <= #[trigger] room[j].timestamp@ by {
        let d = ring.len() - room.len();
        assert(room[i] == ring[i + d]);
        assert(room[j] == ring[j + d]);
    }
    lemma_place(room, frame.timestamp@);
    let n = place(room, frame.timestamp@) as int;
    let after = pushed(ring, frame, capacity);
    assert(after[n] == frame);
    assert forall|i: int, j: int| 0 <= i <= j < after.len() implies #[trigger] after[i].timestamp@
        <= #[trigger] after[j].timestamp@ by {
        assert(after[i] == if i < n { room[i] } else if i == n { frame } else { room[i - 1] });
        assert(after[j] == if j < n { room[j] } else if j == n { frame } else { room[j - 1] });
    }
    if ring.len() == capacity {
        assert(room =~= ring.drop_first());
    }
}

/// A successful emission takes one frame from each source and nothing that is
/// still within tolerance besides.
pub proof fn law_emission_preserves_other_frames<H>(state: BufferState<H>)
    requires
        state.valid(),
        state.emits(),
    ensures
        forall|k: int|
            0 <= k < state.rings.len() ==> (#[trigger] state.window()[k]) == state.rings[k].filter(
                |f: TimedFrame<H>| f.timestamp@ >= state.cutoff(),
            ) && state.window()[k] == state.window()[k].drop_last().push(state.rings[k].last()),
{
    lemma_window(state);
    assert forall|k: int| 0 <= k < state.rings.len() implies (#[trigger] state.window()[k])
        == state.rings[k].filter(|f: TimedFrame<H>| f.timestamp@ >= state.cutoff())
        && state.window()[k] == state.window()[k].drop_last().push(state.rings[k].last()) by {
        assert(chronological(state.rings[k]));
        law_trim_keeps_recent_frames(state.rings[k], state.cutoff());
        assert(state.window()[k].len() > 0);
        assert(state.window()[k].drop_last().push(state.window()[k].last())
            =~= state.window()[k]);
    }
}

} // verus!
