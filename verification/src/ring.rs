//! Triple-buffered readback.
//!
//! Three staging slots are written in turn. A submit writes one slot and reads
//! the oldest slot that still waits, once two are waiting: the copy submitted
//! two frames ago is complete by then, so reading it does not stall.

use vstd::prelude::*;

verus! {

/// Number of staging slots.
pub const SLOTS: usize = 3;

/// Most slots that wait to be read between two submits.
pub const MAX_PENDING: u8 = 2;

/// Which slot to write next, and how many written before it wait to be read.
#[derive(Clone, Copy, Debug, PartialEq, Eq, Structural)]
pub struct ReadbackRing {
    /// The slot the next submit writes.
    pub current_slot: usize,
    /// Number of slots that wait to be read.
    pub pending_count: u8,
}

/// What one submit does.
#[derive(Clone, Copy, Debug, PartialEq, Eq, Structural)]
pub struct SubmitSlots {
    /// The slot to write.
    pub write: usize,
    /// The slot to read, if one is due.
    pub read: Option<usize>,
}

/// The slot `n` steps before `slot`.
pub open spec fn slot_before(slot: int, n: int) -> int {
    (slot + 3 - n) % 3
}

impl View for ReadbackRing {
    type V = Seq<int>;

    /// The slots that wait to be read, oldest first.
    open spec fn view(&self) -> Seq<int> {
        Seq::new(
            self.pending_count as nat,
            |i: int| slot_before(self.current_slot as int, self.pending_count - i),
        )
    }
}

impl ReadbackRing {
    /// Slot and count are within the ring.
    pub open spec fn valid(&self) -> bool {
        &&& self.current_slot < SLOTS
        &&& self.pending_count <= MAX_PENDING
    }

    /// A ring with nothing waiting.
    pub fn new() -> (ring: ReadbackRing)
        ensures
            ring.valid(),
            ring.current_slot == 0,
            ring@ == Seq::<int>::empty(),
    {
        let ring = ReadbackRing { current_slot: 0, pending_count: 0 };
        assert(ring@ =~= Seq::<int>::empty());
        ring
    }

    /// What a submit writes and reads, before it happens.
    pub open spec fn due(&self) -> SubmitSlots {
        SubmitSlots {
            write: self.current_slot,
            read: if self.pending_count >= MAX_PENDING {
                Some(((self.current_slot + 1) % 3) as usize)
            } else {
                None
            },
        }
    }

    /// What the next submit writes and reads.
    pub fn plan(&self) -> (slots: SubmitSlots)
        requires
            self.valid(),
        ensures
            slots == self.due(),
            slots.write == self.current_slot,
            slots.write < SLOTS,
            !self@.contains(slots.write as int),
            slots.read == (if self@.len() == MAX_PENDING {
                Some(self@[0] as usize)
            } else {
                None
            }),
            slots.read matches Some(r) ==> r < SLOTS && r != slots.write,
    {
        let read: Option<usize> = if self.pending_count >= MAX_PENDING {
            Some((self.current_slot + 1) % SLOTS)
        } else {
            None
        };
        SubmitSlots { write: self.current_slot, read }
    }

    /// Record that a submit has written its slot and read the one that was
    /// due.
    pub fn advance(&mut self)
        requires
            old(self).valid(),
        ensures
            final(self).valid(),
            final(self).current_slot == (old(self).current_slot + 1) % 3,
            final(self)@ == (if old(self)@.len() == MAX_PENDING {
                old(self)@.drop_first()
            } else {
                old(self)@
            }).push(old(self).current_slot as int),
    {
        if self.pending_count < MAX_PENDING {
            self.pending_count = self.pending_count + 1;
        }
        self.current_slot = (self.current_slot + 1) % SLOTS;
        assert(self@ =~= (if old(self)@.len() == MAX_PENDING {
            old(self)@.drop_first()
        } else {
            old(self)@
        }).push(old(self).current_slot as int));
    }

    /// The slot to drain next, once no more submits follow.
    pub fn oldest_pending(&self) -> (slot: Option<usize>)
        requires
            self.valid(),
        ensures
            slot == (if self@.len() > 0 {
                Some(self@[0] as usize)
            } else {
                None
            }),
            slot matches Some(s) ==> s < SLOTS,
    {
        if self.pending_count == 0 {
            None
        } else {
            Some((self.current_slot + SLOTS - self.pending_count as usize) % SLOTS)
        }
    }

    /// Record that the oldest waiting slot has been drained.
    pub fn drained(&mut self)
        requires
            old(self).valid(),
            old(self)@.len() > 0,
        ensures
            final(self).valid(),
            final(self).current_slot == old(self).current_slot,
            final(self)@ == old(self)@.drop_first(),
    {
        self.pending_count = self.pending_count - 1;
        assert(self@ =~= old(self)@.drop_first());
    }
}

/// The ring after `n` submits from the start.
pub open spec fn ring_after(n: nat) -> ReadbackRing {
    ReadbackRing {
        current_slot: (n % 3) as usize,
        pending_count: if n < 2 {
            n as u8
        } else {
            2
        },
    }
}

/// Frame `n` is written to slot `n % 3`. The first two submits read nothing;
/// from then on submit `n` reads the slot that frame `n - 2` was written to.
pub proof fn law_two_frames_of_latency(n: nat)
    ensures
        ring_after(n).valid(),
        ring_after(n).due().write == n % 3,
        n < 2 ==> ring_after(n).due().read is None,
        n >= 2 ==> ring_after(n).due().read == Some(((n - 2) % 3) as usize),
        ring_after(n + 1).current_slot == (ring_after(n).current_slot + 1) % 3,
        ring_after(n + 1)@ == (if ring_after(n)@.len() == MAX_PENDING {
            ring_after(n)@.drop_first()
        } else {
            ring_after(n)@
        }).push(ring_after(n).current_slot as int),
{
}

/// The slots that wait are distinct and none of them is written next, so no
/// frame is overwritten before it is read.
pub proof fn law_pending_slots_are_safe(ring: ReadbackRing)
    requires
        ring.valid(),
    ensures
        ring@.no_duplicates(),
        !ring@.contains(ring.current_slot as int),
        ring@.len() <= 2,
        forall|i: int| 0 <= i < ring@.len() ==> 0 <= #[trigger] ring@[i] < 3,
{
}

/// Draining after the last submit gives the frames that were not read yet, in
/// the order they were submitted.
pub proof fn law_drain_order(n: nat)
    ensures
        n == 0 ==> ring_after(n)@ == Seq::<int>::empty(),
        n == 1 ==> ring_after(n)@ == seq![0int],
        n >= 2 ==> ring_after(n)@ == seq![(n - 2) % 3, (n - 1) % 3],
{
    if n == 0 {
        assert(ring_after(n)@ =~= Seq::<int>::empty());
    } else if n == 1 {
        assert(ring_after(n)@ =~= seq![0int]);
    } else {
        assert(ring_after(n)@ =~= seq![(n - 2) % 3, (n - 1) % 3]);
    }
}

/// Frames come back in the order in which they were submitted, each from the slot it was
/// written to: over any run of submits the first two read nothing, and from then on
/// submit `n` reads what submit `n - 2` wrote, which nothing has overwritten.
pub proof fn law_frames_come_back_in_order(rings: Seq<ReadbackRing>, n: int)
    requires
        0 <= n < rings.len(),
        rings[0].valid(),
        rings[0]@.len() == 0,
        forall|i: int|
            0 <= i < rings.len() - 1 ==> {
                &&& (#[trigger] rings[i + 1]).valid()
                &&& rings[i + 1].current_slot == (rings[i].current_slot + 1) % 3
                &&& rings[i + 1]@ == (if rings[i]@.len() == 2 {
                    rings[i]@.drop_first()
                } else {
                    rings[i]@
                }).push(rings[i].current_slot as int)
            },
    ensures
        rings[n].due().write == rings[n].current_slot,
        n < 2 ==> rings[n].due().read is None,
        n >= 2 ==> rings[n].due().read == Some(rings[n - 2].due().write),
        n >= 1 ==> rings[n].due().write != rings[n - 1].due().write,
        n >= 2 ==> rings[n].due().write != rings[n - 2].due().write,
{
    lemma_waiting(rings, n);
    if n >= 1 {
        assert(rings[n - 1 + 1].current_slot == (rings[n - 1].current_slot + 1) % 3);
    }
    if n >= 2 {
        assert(rings[n - 2 + 1].current_slot == (rings[n - 2].current_slot + 1) % 3);
        assert(rings[n]@[0] == rings[n - 2].current_slot);
    }
    assert(rings[n]@.len() == rings[n].pending_count);
}

proof fn lemma_waiting(rings: Seq<ReadbackRing>, n: int)
    requires
        0 <= n < rings.len(),
        rings[0].valid(),
        rings[0]@.len() == 0,
        forall|i: int|
            0 <= i < rings.len() - 1 ==> {
                &&& (#[trigger] rings[i + 1]).valid()
                &&& rings[i + 1].current_slot == (rings[i].current_slot + 1) % 3
                &&& rings[i + 1]@ == (if rings[i]@.len() == 2 {
                    rings[i]@.drop_first()
                } else {
                    rings[i]@
                }).push(rings[i].current_slot as int)
            },
    ensures
        rings[n].valid(),
        n == 0 ==> rings[n]@.len() == 0,
        n == 1 ==> rings[n]@ == seq![rings[0].current_slot as int],
        n >= 2 ==> rings[n]@ == seq![
            rings[n - 2].current_slot as int,
            rings[n - 1].current_slot as int,
        ],
    decreases n,
{
    if n > 0 {
        lemma_waiting(rings, n - 1);
        assert(rings[n - 1 + 1].valid());
        if n == 1 {
            assert(rings[1]@ =~= seq![rings[0].current_slot as int]);
        } else {
            assert(rings[n]@ =~= seq![
                rings[n - 2].current_slot as int,
                rings[n - 1].current_slot as int,
            ]);
        }
    }
}

} // verus!
