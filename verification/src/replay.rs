//! Ring of recently rendered frames, bounded by duration.

use crate::pose::Pose;
use crate::time::{Duration, monus};
use std::collections::VecDeque;
use vstd::prelude::*;

verus! {

/// One rendered panorama frame.
#[derive(Debug)]
pub struct ReplayFrame {
    /// Tightly packed pixels, four bytes each.
    pub rgba: Vec<u8>,
    /// When the frame was submitted.
    pub captured_at: Duration,
    /// Pose the frame was rendered with.
    pub pose: Pose,
}

impl ReplayFrame {
    /// Same pixels, time and pose.
    pub open spec fn same(&self, other: &ReplayFrame) -> bool {
        &&& self.rgba@ == other.rgba@
        &&& self.captured_at == other.captured_at
        &&& self.pose == other.pose
    }
}

impl Clone for ReplayFrame {
    fn clone(&self) -> (copy: ReplayFrame)
        ensures
            copy.same(self),
    {
        let rgba = self.rgba.clone();
        assert(rgba@ =~= self.rgba@);
        ReplayFrame { rgba, captured_at: self.captured_at, pose: self.pose }
    }
}

/// `frames` without the leading ones captured before `cutoff`.
pub open spec fn recent(frames: Seq<ReplayFrame>, cutoff: nat) -> Seq<ReplayFrame>
    decreases frames.len(),
{
    if frames.len() > 0 && frames[0].captured_at@ < cutoff {
        recent(frames.drop_first(), cutoff)
    } else {
        frames
    }
}

/// The frames a buffer of the given length holds once `frame` is added.
pub open spec fn replay_pushed(
    frames: Seq<ReplayFrame>,
    frame: ReplayFrame,
    max_duration: nat,
) -> Seq<ReplayFrame> {
    recent(frames.push(frame), monus(frame.captured_at@, max_duration))
}

/// Recently rendered frames, oldest first.
pub struct ReplayBuffer {
    frames: VecDeque<ReplayFrame>,
    max_duration: Duration,
}

impl View for ReplayBuffer {
    type V = Seq<ReplayFrame>;

    closed spec fn view(&self) -> Seq<ReplayFrame> {
        self.frames@
    }
}

impl ReplayBuffer {
    /// Largest age of a frame relative to the newest one.
    pub closed spec fn window(&self) -> Duration {
        self.max_duration
    }

    /// An empty buffer that keeps frames for `max_duration`.
    pub fn new(max_duration: Duration) -> (buffer: ReplayBuffer)
        ensures
            buffer@ == Seq::<ReplayFrame>::empty(),
            buffer.window() == max_duration,
    {
        ReplayBuffer { frames: VecDeque::new(), max_duration }
    }

    /// Add a frame, and drop the leading frames that are older than the
    /// window allows next to it.
    pub fn push(&mut self, frame: ReplayFrame)
        ensures
            final(self)@ == replay_pushed(old(self)@, frame, old(self).window()@),
            final(self).window() == old(self).window(),
    {
        let cutoff = frame.captured_at.saturating_sub(self.max_duration);
        self.frames.push_back(frame);
        let ghost all = self.frames@;
        while self.frames.len() > 0 && self.frames[0].captured_at.nanos < cutoff.nanos
            invariant
                recent(self.frames@, cutoff@) == recent(all, cutoff@),
                self.max_duration == old(self).max_duration,
            decreases self.frames.len(),
        {
            let ghost before = self.frames@;
            let _old = self.frames.pop_front();
            assert(self.frames@ =~= before.drop_first());
        }
    }

    /// Number of frames.
    pub fn len(&self) -> (n: usize)
        ensures
            n == self@.len(),
    {
        self.frames.len()
    }

    /// Whether there are no frames.
    pub fn is_empty(&self) -> (empty: bool)
        ensures
            empty == (self@.len() == 0),
    {
        self.frames.len() == 0
    }

    /// Largest age of a frame relative to the newest one.
    pub fn max_duration(&self) -> (window: Duration)
        ensures
            window == self.window(),
    {
        self.max_duration
    }

    /// The frames, oldest first.
    pub fn iter(&self) -> (frames: Vec<&ReplayFrame>)
        ensures
            frames@.len() == self@.len(),
            forall|i: int| 0 <= i < frames@.len() ==> *(#[trigger] frames@[i]) == self@[i],
    {
        let mut frames: Vec<&ReplayFrame> = Vec::with_capacity(self.frames.len());
        let mut i: usize = 0;
        while i < self.frames.len()
            invariant
                i <= self.frames@.len(),
                frames@.len() == i,
                forall|k: int| 0 <= k < i ==> *(#[trigger] frames@[k]) == self.frames@[k],
            decreases self.frames@.len() - i,
        {
            frames.push(&self.frames[i]);
            i = i + 1;
        }
        frames
    }

    /// The newest frame.
    pub fn latest(&self) -> (frame: Option<&ReplayFrame>)
        ensures
            frame == (if self@.len() > 0 {
                Some(&self@.last())
            } else {
                None
            }),
    {
        let n: usize = self.frames.len();
        if n == 0 {
            None
        } else {
            Some(&self.frames[n - 1])
        }
    }

    /// The oldest frame.
    pub fn oldest(&self) -> (frame: Option<&ReplayFrame>)
        ensures
            frame == (if self@.len() > 0 {
                Some(&self@[0])
            } else {
                None
            }),
    {
        if self.frames.len() == 0 {
            None
        } else {
            Some(&self.frames[0])
        }
    }

    /// Time between the oldest and the newest frame.
    pub fn buffered_duration(&self) -> (spread: Duration)
        ensures
            spread@ == replay_spread(self@),
    {
        let n: usize = self.frames.len();
        if n == 0 {
            Duration::zero()
        } else {
            self.frames[n - 1].captured_at.saturating_sub(self.frames[0].captured_at)
        }
    }

    /// Drop every frame. The window stays.
    pub fn clear(&mut self)
        ensures
            final(self)@ == Seq::<ReplayFrame>::empty(),
            final(self).window() == old(self).window(),
    {
        self.frames.clear();
    }

    /// Copies of the frames, oldest first.
    pub fn snapshot(&self) -> (copies: Vec<ReplayFrame>)
        ensures
            copies@.len() == self@.len(),
            forall|i: int| 0 <= i < copies@.len() ==> (#[trigger] copies@[i]).same(&self@[i]),
    {
        let mut copies: Vec<ReplayFrame> = Vec::with_capacity(self.frames.len());
        let mut i: usize = 0;
        while i < self.frames.len()
            invariant
                i <= self.frames@.len(),
                copies@.len() == i,
                forall|k: int| 0 <= k < i ==> (#[trigger] copies@[k]).same(&self.frames@[k]),
            decreases self.frames@.len() - i,
        {
            copies.push(self.frames[i].clone());
            i = i + 1;
        }
        copies
    }

    /// Take the frames out, oldest first.
    pub fn take(&mut self) -> (frames: Vec<ReplayFrame>)
        ensures
            frames@ == old(self)@,
            final(self)@ == Seq::<ReplayFrame>::empty(),
            final(self).window() == old(self).window(),
    {
        let ghost all = self.frames@;
        let mut frames: Vec<ReplayFrame> = Vec::with_capacity(self.frames.len());
        while self.frames.len() > 0
            invariant
                frames@ + self.frames@ == all,
                self.max_duration == old(self).max_duration,
            decreases self.frames.len(),
        {
            let ghost rest = self.frames@;
            let ghost done = frames@;
            if let Some(frame) = self.frames.pop_front() {
                frames.push(frame);
            }
            assert(frames@ + self.frames@ =~= done + rest);
        }
        assert(frames@ =~= all);
        assert(self.frames@ =~= Seq::<ReplayFrame>::empty());
        frames
    }
}

/// Time between the first and the last of `frames`.
pub open spec fn replay_spread(frames: Seq<ReplayFrame>) -> nat {
    if frames.len() == 0 {
        0
    } else {
        monus(frames.last().captured_at@, frames[0].captured_at@)
    }
}

proof fn lemma_recent(frames: Seq<ReplayFrame>, cutoff: nat)
    ensures
        recent(frames, cutoff).len() <= frames.len(),
        recent(frames, cutoff) == frames.skip(frames.len() - recent(frames, cutoff).len()),
        recent(frames, cutoff).len() > 0 ==> recent(frames, cutoff)[0].captured_at@ >= cutoff,
        forall|i: int|
            0 <= i < frames.len() - recent(frames, cutoff).len() ==> (
            #[trigger] frames[i]).captured_at@ < cutoff,
    decreases frames.len(),
{
    if frames.len() > 0 && frames[0].captured_at@ < cutoff {
        let rest = frames.drop_first();
        lemma_recent(rest, cutoff);
        let kept = recent(rest, cutoff);
        assert(rest.skip(rest.len() - kept.len()) =~= frames.skip(frames.len() - kept.len()));
        assert forall|i: int| 0 <= i < frames.len() - kept.len() implies (
        #[trigger] frames[i]).captured_at@ < cutoff by {
            if i > 0 {
                assert(rest[i - 1] == frames[i]);
            }
        }
    } else {
        assert(frames.skip(0) =~= frames);
    }
}

/// After a push the newest frame is there, what is left is the tail of what
/// was there, and it spans no more than the window.
pub proof fn law_replay_is_bounded(
    frames: Seq<ReplayFrame>,
    frame: ReplayFrame,
    max_duration: nat,
)
    ensures
        ({
            let after = replay_pushed(frames, frame, max_duration);
            &&& after.len() > 0
            &&& after.last() == frame
            &&& after == frames.push(frame).skip(frames.len() + 1 - after.len())
            &&& replay_spread(after) <= max_duration
        }),
{
    let all = frames.push(frame);
    let cutoff = monus(frame.captured_at@, max_duration);
    lemma_recent(all, cutoff);
    let after = replay_pushed(frames, frame, max_duration);
    if after.len() == 0 {
        assert(all[all.len() - 1].captured_at@ < cutoff);
    }
}

/// A push drops only frames older than the window.
pub proof fn law_replay_keeps_the_window(
    frames: Seq<ReplayFrame>,
    frame: ReplayFrame,
    max_duration: nat,
    i: int,
)
    requires
        0 <= i < frames.len(),
        frames[i].captured_at@ + max_duration >= frame.captured_at@,
    ensures
        replay_pushed(frames, frame, max_duration).contains(frames[i]),
{
    let all = frames.push(frame);
    let cutoff = monus(frame.captured_at@, max_duration);
    lemma_recent(all, cutoff);
    let after = replay_pushed(frames, frame, max_duration);
    let gone = all.len() - after.len();
    assert(all[i] == frames[i]);
    if i < gone {
        assert(all[i].captured_at@ < cutoff);
    }
    assert(after[i - gone] == frames[i]);
}

/// A push adds its frame at the end, and drops exactly the leading frames that are older
/// than it by more than the window, up to the first that is not.
pub proof fn law_push_drops_what_left_the_window(
    frames: Seq<ReplayFrame>,
    frame: ReplayFrame,
    max_duration: nat,
)
    ensures
        ({
            let all = frames.push(frame);
            let after = replay_pushed(frames, frame, max_duration);
            let gone = all.len() - after.len();
            &&& 0 <= gone < all.len()
            &&& forall|i: int| 0 <= i < after.len() ==> #[trigger] after[i] == all[i + gone]
            &&& forall|i: int|
                0 <= i < gone ==> (#[trigger] all[i]).captured_at.nanos + max_duration
                    < frame.captured_at.nanos
            &&& all[gone].captured_at.nanos + max_duration >= frame.captured_at.nanos
        }),
{
    let all = frames.push(frame);
    let cutoff = monus(frame.captured_at@, max_duration);
    lemma_recent(all, cutoff);
    law_replay_is_bounded(frames, frame, max_duration);
    let after = replay_pushed(frames, frame, max_duration);
    let gone = all.len() - after.len();
    assert(after[0] == all[gone]);
}

/// The time that is buffered is that from the oldest frame to the newest.
pub proof fn law_buffered_time_is_from_oldest_to_newest(frames: Seq<ReplayFrame>)
    ensures
        frames.len() == 0 ==> replay_spread(frames) == 0,
        frames.len() > 0 && frames.first().captured_at.nanos <= frames.last().captured_at.nanos
            ==> frames.first().captured_at.nanos + replay_spread(frames)
            == frames.last().captured_at.nanos,
{
}

/// A copy of a frame has its pixels, its time and its pose.
pub proof fn law_copies_are_complete(copy: ReplayFrame, frame: ReplayFrame)
    requires
        copy.same(&frame),
    ensures
        copy.rgba@ == frame.rgba@,
        copy.captured_at.nanos == frame.captured_at.nanos,
        copy.pose.yaw == frame.pose.yaw,
        copy.pose.pitch == frame.pose.pitch,
        copy.pose.fov_degrees == frame.pose.fov_degrees,
{
}

} // verus!
