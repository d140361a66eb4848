//! What holds of the ingest buffer, in terms of the frames alone.

use crate::framesync::{
    BufferState, Ring, SourceId, SyncedEntry, TimedFrame, chronological, count_of, entry_of,
    evicted, latest_of, law_trim_keeps_recent_frames, lemma_max_of,
    lemma_min_of, lemma_place, lemma_trimmed, lemma_window, max_of, min_of, place, pushed,
};
use vstd::prelude::*;

verus! {

/// A push into a full ring keeps every frame but the oldest. The frames that stay keep
/// their order, and the new one comes behind those that are not later than it and before
/// those that are.
pub proof fn law_full_ring_loses_its_oldest<H>(ring: Ring<H>, frame: TimedFrame<H>, capacity: nat)
    requires
        chronological(ring),
        0 < capacity,
        ring.len() == capacity,
    ensures
        pushed(ring, frame, capacity).to_multiset() == ring.drop_first().to_multiset().insert(frame),
        exists|n: int|
            {
                &&& 0 <= n <= ring.drop_first().len()
                &&& pushed(ring, frame, capacity) == #[trigger] ring.drop_first().insert(n, frame)
                &&& forall|i: int|
                    0 <= i < n ==> (#[trigger] ring.drop_first()[i]).timestamp.nanos
                        <= frame.timestamp.nanos
                &&& forall|i: int|
                    n <= i < ring.drop_first().len() ==> (#[trigger] ring.drop_first()[i]).timestamp.nanos
                        > frame.timestamp.nanos
            },
{
    let kept = ring.drop_first();
    assert(evicted(ring, capacity) =~= kept);
    assert forall|i: int, j: int| 0 <= i <= j < kept.len() implies #[trigger] kept[i].timestamp@
        <= #[trigger] kept[j].timestamp@ by {
        let d = ring.len() - kept.len();
        assert(kept[i] == ring[i + d]);
        assert(kept[j] == ring[j + d]);
    }
    lemma_place(kept, frame.timestamp@);
    let n = place(kept, frame.timestamp@) as int;
    assert(pushed(ring, frame, capacity) == kept.insert(n, frame));
    vstd::seq_lib::to_multiset_insert(kept, n, frame);
    assert forall|i: int| 0 <= i < n implies (#[trigger] kept[i]).timestamp.nanos
        <= frame.timestamp.nanos by {
        assert(kept[i].timestamp@ <= frame.timestamp@);
    }
    assert forall|i: int| n <= i < kept.len() implies (#[trigger] kept[i]).timestamp.nanos
        > frame.timestamp.nanos by {
        assert(kept[i].timestamp@ > frame.timestamp@);
    }
}

/// A push into a ring with room keeps every frame. They keep their order, and the new one
/// comes behind those that are not later than it and before those that are.
pub proof fn law_ring_with_room_loses_nothing<H>(ring: Ring<H>, frame: TimedFrame<H>, capacity: nat)
    requires
        chronological(ring),
        0 < capacity,
        ring.len() < capacity,
    ensures
        pushed(ring, frame, capacity).to_multiset() == ring.to_multiset().insert(frame),
        exists|n: int|
            {
                &&& 0 <= n <= ring.len()
                &&& pushed(ring, frame, capacity) == #[trigger] ring.insert(n, frame)
                &&& forall|i: int|
                    0 <= i < n ==> (#[trigger] ring[i]).timestamp.nanos
                        <= frame.timestamp.nanos
                &&& forall|i: int|
                    n <= i < ring.len() ==> (#[trigger] ring[i]).timestamp.nanos
                        > frame.timestamp.nanos
            },
{
    let kept = ring;
    assert(evicted(ring, capacity) =~= kept);
    assert forall|i: int, j: int| 0 <= i <= j < kept.len() implies #[trigger] kept[i].timestamp@
        <= #[trigger] kept[j].timestamp@ by {
        let d = ring.len() - kept.len();
        assert(kept[i] == ring[i + d]);
        assert(kept[j] == ring[j + d]);
    }
    lemma_place(kept, frame.timestamp@);
    let n = place(kept, frame.timestamp@) as int;
    assert(pushed(ring, frame, capacity) == kept.insert(n, frame));
    vstd::seq_lib::to_multiset_insert(kept, n, frame);
    assert forall|i: int| 0 <= i < n implies (#[trigger] kept[i]).timestamp.nanos
        <= frame.timestamp.nanos by {
        assert(kept[i].timestamp@ <= frame.timestamp@);
    }
    assert forall|i: int| n <= i < kept.len() implies (#[trigger] kept[i]).timestamp.nanos
        > frame.timestamp.nanos by {
        assert(kept[i].timestamp@ > frame.timestamp@);
    }
}

/// The frames of a source never go back in time, and are never more than its ring holds.
pub proof fn law_rings_are_in_order<H>(state: BufferState<H>, k: int, i: int, j: int)
    requires
        state.valid(),
        0 <= k < state.rings.len(),
        0 <= i <= j < state.rings[k].len(),
    ensures
        state.rings[k][i].timestamp.nanos <= state.rings[k][j].timestamp.nanos,
        state.rings[k].len() <= state.capacity,
        state.rings.len() == state.ids.len(),
        state.deltas.len() == state.ids.len(),
{
    assert(chronological(state.rings[k]));
    assert(state.rings[k][i].timestamp@ <= state.rings[k][j].timestamp@);
}

/// The reference is the newest timestamp that any source holds.
pub proof fn law_reference_is_the_newest<H>(state: BufferState<H>)
    ensures
        forall|k: int|
            0 <= k < state.rings.len() && (#[trigger] state.rings[k]).len() > 0
                ==> state.rings[k].last().timestamp.nanos <= state.reference(),
        state.reference() == 0 || exists|k: int|
            0 <= k < state.rings.len() && (#[trigger] state.rings[k]).len() > 0
                && state.rings[k].last().timestamp.nanos == state.reference(),
{
    let latest = latest_of(state.rings);
    lemma_max_of(latest);
    assert forall|k: int|
        0 <= k < state.rings.len() && (#[trigger] state.rings[k]).len() > 0 implies
        state.rings[k].last().timestamp.nanos <= state.reference() by {
        assert(latest[k] == state.rings[k].last().timestamp@);
    }
    if latest.len() > 0 && state.reference() != 0 {
        let w = choose|i: int| 0 <= i < latest.len() && #[trigger] latest[i] == max_of(latest);
        assert(state.rings[w].len() > 0);
        assert(state.rings[w].last().timestamp.nanos == state.reference());
    }
}

/// What stays of a source's frames are those within tolerance of the reference, in their
/// order, and no others.
pub proof fn law_window_is_what_is_within_tolerance<H>(state: BufferState<H>, k: int)
    requires
        state.valid(),
        0 <= k < state.rings.len(),
    ensures
        state.window().len() == state.rings.len(),
        state.window()[k] == state.rings[k].filter(
            |f: TimedFrame<H>| f.timestamp.nanos + state.tolerance >= state.reference(),
        ),
{
    assert(chronological(state.rings[k]));
    law_trim_keeps_recent_frames(state.rings[k], state.cutoff());
    let a = |f: TimedFrame<H>| f.timestamp@ >= state.cutoff();
    let b = |f: TimedFrame<H>| f.timestamp.nanos + state.tolerance >= state.reference();
    assert(a =~= b);
}

/// There is a tuple exactly if every source holds a frame and none of their newest frames
/// is further from the newest of all than the tolerance.
pub proof fn law_tuple_is_owed_when_all_are_close<H>(state: BufferState<H>)
    requires
        state.valid(),
    ensures
        state.emits() <==> forall|j: int, k: int|
            0 <= j < state.rings.len() && 0 <= k < state.rings.len() ==> {
                &&& (#[trigger] state.rings[j]).len() > 0
                &&& (#[trigger] state.rings[k]).len() > 0
                &&& state.rings[j].last().timestamp.nanos <= state.rings[k].last().timestamp.nanos
                    + state.tolerance
            },
{
    law_reference_is_the_newest(state);
    lemma_window(state);
    let close = forall|j: int, k: int|
        0 <= j < state.rings.len() && 0 <= k < state.rings.len() ==> {
            &&& (#[trigger] state.rings[j]).len() > 0
            &&& (#[trigger] state.rings[k]).len() > 0
            &&& state.rings[j].last().timestamp.nanos <= state.rings[k].last().timestamp.nanos
                + state.tolerance
        };
    if state.emits() {
        assert forall|j: int, k: int|
            0 <= j < state.rings.len() && 0 <= k < state.rings.len() implies {
            &&& (#[trigger] state.rings[j]).len() > 0
            &&& (#[trigger] state.rings[k]).len() > 0
            &&& state.rings[j].last().timestamp.nanos <= state.rings[k].last().timestamp.nanos
                + state.tolerance
        } by {
            assert(state.window()[j].len() > 0);
            assert(state.window()[k].len() > 0);
            lemma_trimmed(state.rings[j], state.cutoff());
            lemma_trimmed(state.rings[k], state.cutoff());
        }
    }
    if close {
        assert forall|k: int| 0 <= k < state.window().len() implies (
        #[trigger] state.window()[k]).len() > 0 by {
            assert(state.rings[k].len() > 0);
            assert(chronological(state.rings[k]));
            lemma_trimmed(state.rings[k], state.cutoff());
            if state.window()[k].len() == 0 {
                let n = state.rings[k].len() - 1;
                assert(state.rings[k][n].timestamp@ < state.cutoff());
                let j = choose|j: int|
                    0 <= j < state.rings.len() && (#[trigger] state.rings[j]).len() > 0
                        && state.rings[j].last().timestamp.nanos == state.reference();
                assert(state.rings[j].len() > 0);
            }
        }
    }
}

/// The spread of a tuple is the widest gap between two of its frames.
pub proof fn law_spread_is_the_widest_gap<H>(state: BufferState<H>)
    requires
        state.valid(),
        state.emits(),
    ensures
        forall|j: int, k: int|
            0 <= j < state.rings.len() && 0 <= k < state.rings.len() ==> (
            #[trigger] state.rings[j]).last().timestamp.nanos <= (
            #[trigger] state.rings[k]).last().timestamp.nanos + state.spread(),
        exists|j: int, k: int|
            {
                &&& 0 <= j < state.rings.len()
                &&& 0 <= k < state.rings.len()
                &&& (#[trigger] state.rings[j]).last().timestamp.nanos == (
                #[trigger] state.rings[k]).last().timestamp.nanos + state.spread()
            },
{
    lemma_window(state);
    let picks = latest_of(state.window());
    lemma_max_of(picks);
    lemma_min_of(picks, state.reference());
    assert forall|k: int| 0 <= k < picks.len() implies #[trigger] picks[k]
        == state.rings[k].last().timestamp.nanos && picks[k] <= state.reference() by {
        assert(state.window()[k].len() > 0);
    }
    let j = choose|i: int| 0 <= i < picks.len() && #[trigger] picks[i] == max_of(picks);
    if min_of(picks, state.reference()) == state.reference() {
        assert(picks[0] >= state.reference());
        assert(picks[0] == min_of(picks, state.reference()));
    }
    let k = choose|i: int|
        0 <= i < picks.len() && #[trigger] picks[i] == min_of(picks, state.reference());
    assert(picks[k] <= picks[j]);
    assert(state.rings[j].last().timestamp.nanos == state.rings[k].last().timestamp.nanos
        + state.spread());
    assert forall|a: int, b: int| 0 <= a < state.rings.len() && 0 <= b < state.rings.len() implies (
    #[trigger] state.rings[a]).last().timestamp.nanos <= (
    #[trigger] state.rings[b]).last().timestamp.nanos + state.spread() by {
        assert(picks[a] <= max_of(picks));
        assert(min_of(picks, state.reference()) <= picks[b]);
    }
}

/// Each entry of a tuple is its own source's newest frame: the source's number, the frame's
/// timestamp and its handle.
pub proof fn law_entries_are_the_newest_frames<H>(
    state: BufferState<H>,
    entry: SyncedEntry<H>,
    k: int,
)
    requires
        state.valid(),
        state.emits(),
        0 <= k < state.ids.len(),
        entry_of(entry, state.ids[k], state.window()[k].last()),
    ensures
        entry.source_id == state.ids[k],
        entry.timestamp == state.rings[k].last().timestamp,
        entry.handle == state.rings[k].last().handle,
{
    lemma_window(state);
    assert(state.window()[k].len() > 0);
}

/// A source is found by its number, wherever it stands, and no other is.
pub proof fn law_sources_are_found_by_number<H>(state: BufferState<H>, id: SourceId, i: int)
    requires
        state.valid(),
        0 <= i < state.ids.len(),
    ensures
        state.ids[i] == id <==> state.position(id) == Some(i),
        state.ids[i] == id ==> state.held(id) == state.rings[i].len(),
        state.position(id) is None <==> !state.ids.contains(id),
        state.position(id) is None ==> state.held(id) == 0,
{
    if state.ids.contains(id) {
        assert(state.ids[state.ids.index_of(id)] == id);
    }
}

/// The frames held in all are the lengths of the rings, added up.
pub proof fn law_total_adds_up_the_rings<H>(rings: Seq<Ring<H>>)
    ensures
        count_of(rings) == rings.fold_left(0nat, |n: nat, r: Ring<H>| n + r.len()),
    decreases rings.len(),
{
    reveal(Seq::fold_left);
    if rings.len() > 0 {
        law_total_adds_up_the_rings(rings.drop_last());
    }
}

} // verus!
