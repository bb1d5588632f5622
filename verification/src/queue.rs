use vstd::prelude::*;
use crate::frame::Frame;

verus! {

/// Increment that sticks at the counter's ceiling instead of wrapping.
pub open spec fn saturating_inc(x: u64) -> u64 {
    if x < u64::MAX {
        (x + 1) as u64
    } else {
        u64::MAX
    }
}

/// A bounded first-in-first-out frame queue: the hand-off between a
/// transport's network thread and the realtime thread, sized for a few
/// periods of slack.
///
/// Both ends are bounded and non-blocking. Popping an empty queue yields
/// nothing (the caller substitutes silence); pushing into a full queue drops
/// the oldest frame to make room and counts the overflow.
pub struct FrameQueue {
    frames: Vec<Frame>,
    capacity: usize,
    overflows: u64,
}

impl View for FrameQueue {
    type V = Seq<Seq<u32>>;

    closed spec fn view(&self) -> Seq<Seq<u32>> {
        self.frames@.map_values(|f: Frame| f@)
    }
}

impl FrameQueue {
    /// The fixed number of frames the queue can hold.
    pub closed spec fn spec_capacity(&self) -> usize {
        self.capacity
    }

    /// How many pushes found the queue full and dropped its oldest frame.
    pub closed spec fn spec_overflows(&self) -> u64 {
        self.overflows
    }

    /// Queued frames never exceed the fixed, positive capacity.
    pub open spec fn wf(&self) -> bool {
        self@.len() <= self.spec_capacity() && self.spec_capacity() >= 1
    }

    /// An empty queue holding up to `capacity` frames.
    pub fn new(capacity: usize) -> (q: FrameQueue)
        requires
            capacity >= 1,
        ensures
            q.wf(),
            q@ == Seq::<Seq<u32>>::empty(),
            q.spec_capacity() == capacity,
            q.spec_overflows() == 0,
    {
        let frames: Vec<Frame> = Vec::new();
        proof {
            assert(frames@.map_values(|f: Frame| f@) =~= Seq::<Seq<u32>>::empty());
        }
        FrameQueue { frames, capacity, overflows: 0 }
    }

    /// How many frames wait in the queue.
    pub fn len(&self) -> (n: usize)
        ensures
            n == self@.len(),
    {
        self.frames.len()
    }

    /// How many pushes have dropped a frame so far.
    pub fn overflows(&self) -> (n: u64)
        ensures
            n == self.spec_overflows(),
    {
        self.overflows
    }

    /// Bounded, non-blocking push. Into a full queue the oldest frame is
    /// dropped to make room — fresh audio over stale audio — and the drop is
    /// counted as one overflow.
    pub fn push(&mut self, f: Frame)
        requires
            old(self).wf(),
        ensures
            final(self).wf(),
            final(self).spec_capacity() == old(self).spec_capacity(),
            old(self)@.len() < old(self).spec_capacity() ==> final(self)@ == old(self)@.push(f@)
                && final(self).spec_overflows() == old(self).spec_overflows(),
            old(self)@.len() == old(self).spec_capacity() ==> final(self)@ == old(
                self,
            )@.drop_first().push(f@) && final(self).spec_overflows() == saturating_inc(
                old(self).spec_overflows(),
            ),
    {
        let ghost pre = self.frames@;
        if self.frames.len() == self.capacity {
            self.frames.remove(0);
            if self.overflows < u64::MAX {
                self.overflows = self.overflows + 1;
            }
            proof {
                assert(self.frames@ =~= pre.drop_first());
            }
        }
        let ghost mid = self.frames@;
        self.frames.push(f);
        proof {
            assert(self.frames@ =~= mid.push(f));
            assert(self.frames@.map_values(|g: Frame| g@) =~= mid.map_values(|g: Frame| g@).push(
                f@,
            ));
            if pre.len() == self.capacity {
                assert(mid.map_values(|g: Frame| g@) =~= pre.map_values(
                    |g: Frame| g@,
                ).drop_first());
            }
        }
    }

    /// Bounded, non-blocking pop of the oldest frame; nothing when empty.
    pub fn pop(&mut self) -> (r: Option<Frame>)
        ensures
            final(self).spec_capacity() == old(self).spec_capacity(),
            final(self).spec_overflows() == old(self).spec_overflows(),
            old(self).wf() ==> final(self).wf(),
            old(self)@.len() == 0 ==> r is None && final(self)@ == old(self)@,
            old(self)@.len() > 0 ==> (r matches Some(f) && f@ == old(self)@[0] && final(self)@
                == old(self)@.drop_first()),
    {
        let ghost pre = self.frames@;
        if self.frames.len() == 0 {
            None
        } else {
            let f: Frame = self.frames.remove(0);
            proof {
                assert(self.frames@ =~= pre.drop_first());
                assert(self.frames@.map_values(|g: Frame| g@) =~= pre.map_values(
                    |g: Frame| g@,
                ).drop_first());
            }
            Some(f)
        }
    }
}

} // verus!
