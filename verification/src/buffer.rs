//! The per-recording frame queue and the registry of active recordings.

use crate::frame::FrameShape;
use vstd::prelude::*;

verus! {

/// One captured frame: the time since the previous frame, in nanoseconds, and
/// the tightly packed pixels in the target's own format.
#[derive(Debug, Clone)]
pub struct FrameEntry {
    pub frame_time: u128,
    pub texture: Vec<u8>,
}

/// What a bounded queue of the given capacity holds after one more entry: the
/// entry goes to the back, and the oldest entry leaves when the queue is full.
pub open spec fn pushed(frames: Seq<FrameEntry>, capacity: int, entry: FrameEntry) -> Seq<FrameEntry> {
    if capacity <= 0 {
        frames
    } else if frames.len() < capacity {
        frames.push(entry)
    } else {
        frames.skip(1).push(entry)
    }
}

/// A queue that was within a capacity of at least one holds, after one more
/// entry, the newest entries of all that it was given, as many as fit, in
/// their order, and the new entry is its last.
pub proof fn pushed_keeps_the_newest(frames: Seq<FrameEntry>, capacity: int, entry: FrameEntry)
    requires
        0 < capacity,
        frames.len() <= capacity,
    ensures
        frames.len() < capacity ==> pushed(frames, capacity, entry).len() == frames.len() + 1,
        frames.len() == capacity ==> pushed(frames, capacity, entry).len() == capacity,
        pushed(frames, capacity, entry) == frames.push(entry).skip(
            frames.len() + 1 - pushed(frames, capacity, entry).len(),
        ),
        pushed(frames, capacity, entry).last() == entry,
{
    let all = frames.push(entry);
    let kept = pushed(frames, capacity, entry);
    if frames.len() < capacity {
        assert(kept =~= all.skip(0));
    } else {
        assert(kept =~= all.skip(1));
    }
}

/// A bounded queue of captured frames, oldest first.
pub struct FrameBuffer {
    frames: Vec<FrameEntry>,
    capacity: usize,
}

impl View for FrameBuffer {
    type V = Seq<FrameEntry>;

    closed spec fn view(&self) -> Seq<FrameEntry> {
        self.frames@
    }
}

impl FrameBuffer {
    /// The largest number of frames that the queue holds.
    pub closed spec fn limit(&self) -> int {
        self.capacity as int
    }

    /// The queue never holds more frames than its limit.
    pub closed spec fn wf(&self) -> bool {
        self.frames@.len() <= self.capacity
    }

    /// An empty queue that holds up to `capacity` frames.
    pub fn new(capacity: usize) -> (b: FrameBuffer)
        ensures
            b.wf(),
            b@ == Seq::<FrameEntry>::empty(),
            b.limit() == capacity,
    {
        FrameBuffer { frames: Vec::new(), capacity }
    }

    /// Number of frames in the queue.
    pub fn len(&self) -> (n: usize)
        ensures
            n == self@.len(),
    {
        self.frames.len()
    }

    /// The capacity that the queue was made with.
    pub fn capacity(&self) -> (n: usize)
        ensures
            n == self.limit(),
    {
        self.capacity
    }

    /// Appends a frame; the oldest frame leaves when the queue is full.
    pub fn push(&mut self, entry: FrameEntry)
        requires
            old(self).wf(),
        ensures
            final(self).wf(),
            final(self).limit() == old(self).limit(),
            final(self)@ == pushed(old(self)@, old(self).limit(), entry),
            old(self).limit() > 0 ==> final(self)@.len() > 0 && final(self)@.last() == entry,
    {
        if self.capacity == 0 {
            return ;
        }
        if self.frames.len() >= self.capacity {
            let _ = self.frames.remove(0);
            assert(self.frames@ =~= old(self).frames@.skip(1));
        }
        self.frames.push(entry);
    }

    /// The most recent frame, if there is one.
    pub fn back(&self) -> (r: Option<&FrameEntry>)
        ensures
            match r {
                Some(e) => self@.len() > 0 && *e == self@.last(),
                None => self@.len() == 0,
            },
    {
        let n: usize = self.frames.len();
        if n == 0 {
            None
        } else {
            Some(&self.frames[n - 1])
        }
    }
}

/// One capture session: its id, the target it reads (when it can be resolved),
/// the bytes of the last readback, and its queue of frames.
pub struct Recorder {
    pub tracking_id: usize,
    pub target: Option<FrameShape>,
    pub last_frame: Option<Vec<u8>>,
    pub frames: FrameBuffer,
}

/// Index of the first recorder with the given id, if there is one.
pub open spec fn position_of(recorders: Seq<Recorder>, tracking_id: usize) -> Option<int> {
    if exists|i: int| 0 <= i < recorders.len() && recorders[i].tracking_id == tracking_id {
        Some(
            choose|i: int|
                0 <= i < recorders.len() && recorders[i].tracking_id == tracking_id && forall|j: int|
                    0 <= j < i ==> recorders[j].tracking_id != tracking_id,
        )
    } else {
        None
    }
}

/// The recordings that are being tracked, in the order in which they came.
pub struct ActiveRecorders {
    pub recorders: Vec<Recorder>,
}

impl ActiveRecorders {
    /// The first recorder with the given id, if there is one.
    pub open spec fn lookup(&self, tracking_id: usize) -> Option<Recorder> {
        match position_of(self.recorders@, tracking_id) {
            Some(i) => Some(self.recorders@[i]),
            None => None,
        }
    }

    /// A registry without recordings.
    pub fn new() -> (r: ActiveRecorders)
        ensures
            r.recorders@.len() == 0,
    {
        ActiveRecorders { recorders: Vec::new() }
    }

    /// Index of the first recorder with the given id.
    pub fn find(&self, tracking_id: usize) -> (r: Option<usize>)
        ensures
            match r {
                Some(i) => position_of(self.recorders@, tracking_id) == Some(i as int)
                    && i < self.recorders@.len()
                    && self.recorders@[i as int].tracking_id == tracking_id
                    && forall|j: int| 0 <= j < i ==> self.recorders@[j].tracking_id != tracking_id,
                None => position_of(self.recorders@, tracking_id).is_none()
                    && forall|j: int| 0 <= j < self.recorders@.len() ==> self.recorders@[j].tracking_id != tracking_id,
            },
    {
        let mut i: usize = 0;
        while i < self.recorders.len()
            invariant
                i <= self.recorders@.len(),
                forall|j: int| 0 <= j < i ==> self.recorders@[j].tracking_id != tracking_id,
            decreases self.recorders@.len() - i,
        {
            if self.recorders[i].tracking_id == tracking_id {
                proof {
                    let k = position_of(self.recorders@, tracking_id).unwrap();
                    assert(k == i) by {
                        if k < i {
                            assert(self.recorders@[k].tracking_id != tracking_id);
                        }
                    }
                }
                return Some(i);
            }
            i += 1;
        }
        None
    }

    /// The first recorder with the given id, if there is one.
    pub fn get(&self, tracking_id: usize) -> (r: Option<&Recorder>)
        ensures
            match r {
                Some(rec) => self.lookup(tracking_id) == Some(*rec) && rec.tracking_id == tracking_id,
                None => self.lookup(tracking_id).is_none()
                    && forall|j: int| 0 <= j < self.recorders@.len() ==> self.recorders@[j].tracking_id != tracking_id,
            },
    {
        match self.find(tracking_id) {
            Some(i) => Some(&self.recorders[i]),
            None => None,
        }
    }
}

} // verus!
