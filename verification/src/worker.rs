//! The encode worker's decisions: what to do with each message that arrives
//! on its channel, and where on the output timeline each frame is placed.

use crate::channel::receive;
use crate::frame::{frame_cells, frame_dims, FrameShape, RgbFrame};
use crossbeam_channel::Receiver;
use vstd::prelude::*;

verus! {

/// A message on a worker's input channel. A frame carries the time since the
/// previous frame, in nanoseconds, and the raw pixel buffer.
#[derive(Debug, Clone)]
pub enum Mp4TaskPayload {
    Data(u128, Vec<u8>),
    Terminate,
}

/// Where a worker stands in its life.
#[derive(Clone, Copy, Debug, PartialEq, Eq, Structural)]
pub enum WorkerPhase {
    /// The encoder is open and frames are accepted.
    Running,
    /// The loop has ended; nothing more is encoded.
    Finished,
}

/// What the worker's driver has to do after a message.
pub enum WorkerAction {
    /// Submit `frame` to the encoder at `position` (nanoseconds from the
    /// start of the output), then wait for the next message.
    Encode { frame: RgbFrame, position: u128 },
    /// Flush the encoder and close the output; the worker has ended.
    Finalize,
    /// The worker had already ended: nothing is to be done.
    Halt,
}

/// The three answers of a worker, without what they carry.
#[derive(Clone, Copy, Debug, PartialEq, Eq, Structural)]
pub enum ActionKind {
    Encode,
    Finalize,
    Halt,
}

impl WorkerAction {
    /// Which of the three answers this is.
    pub open spec fn kind(self) -> ActionKind {
        match self {
            WorkerAction::Encode { .. } => ActionKind::Encode,
            WorkerAction::Finalize => ActionKind::Finalize,
            WorkerAction::Halt => ActionKind::Halt,
        }
    }
}

/// The state of one encode worker.
#[derive(Clone, Copy, Debug, PartialEq, Eq, Structural)]
pub struct EncodeWorker {
    pub shape: FrameShape,
    pub phase: WorkerPhase,
    /// Timeline position of the next frame, in nanoseconds.
    pub position: u128,
    /// Number of frames handed to the encoder so far.
    pub encoded: u64,
}

/// Output dimensions that the encoder is opened with.
#[derive(Clone, Copy, Debug, PartialEq, Eq, Structural)]
pub struct EncoderSettings {
    pub width: u64,
    pub height: u32,
}

/// A timeline position held in 128 bits: the number itself, or the largest
/// position where the number is above it.
pub open spec fn clamp_u128(n: int) -> u128 {
    if n > u128::MAX {
        u128::MAX
    } else {
        n as u128
    }
}

/// A frame count held in 64 bits: the number itself, or the largest count
/// where the number is above it.
pub open spec fn clamp_u64(n: int) -> u64 {
    if n > u64::MAX {
        u64::MAX
    } else {
        n as u64
    }
}

/// The duration that a message adds to the timeline when it is encoded.
pub open spec fn duration_of(msg: Option<Mp4TaskPayload>) -> int {
    match msg {
        Some(Mp4TaskPayload::Data(d, _)) => d as int,
        _ => 0,
    }
}

/// Sum of the durations of all messages of a sequence.
pub open spec fn total_duration(msgs: Seq<Option<Mp4TaskPayload>>) -> int
    decreases msgs.len(),
{
    if msgs.len() == 0 {
        0
    } else {
        total_duration(msgs.drop_last()) + duration_of(msgs.last())
    }
}

impl EncodeWorker {
    /// Whether a message is a frame that this worker encodes: the worker is
    /// running and the buffer passes the shape's tests.
    pub open spec fn accepts(self, msg: Option<Mp4TaskPayload>) -> bool {
        self.phase == WorkerPhase::Running && match msg {
            Some(Mp4TaskPayload::Data(_, pixels)) => self.shape.verdict(pixels@.len() as int).is_ok(),
            _ => false,
        }
    }

    /// The worker's answer to a message: a frame that it accepts is encoded,
    /// anything else makes a running worker finalize its output, and a worker
    /// that has ended does nothing.
    pub open spec fn answer(self, msg: Option<Mp4TaskPayload>) -> ActionKind {
        if self.phase == WorkerPhase::Finished {
            ActionKind::Halt
        } else if self.accepts(msg) {
            ActionKind::Encode
        } else {
            ActionKind::Finalize
        }
    }

    /// The worker after a message; `None` stands for a closed channel.
    pub open spec fn next(self, msg: Option<Mp4TaskPayload>) -> EncodeWorker {
        if self.phase == WorkerPhase::Finished {
            self
        } else if self.accepts(msg) {
            EncodeWorker {
                shape: self.shape,
                phase: WorkerPhase::Running,
                position: clamp_u128(self.position + duration_of(msg)),
                encoded: clamp_u64(self.encoded + 1),
            }
        } else {
            EncodeWorker {
                shape: self.shape,
                phase: WorkerPhase::Finished,
                position: self.position,
                encoded: self.encoded,
            }
        }
    }

    /// The worker after a sequence of messages, oldest first.
    pub open spec fn run(self, msgs: Seq<Option<Mp4TaskPayload>>) -> EncodeWorker
        decreases msgs.len(),
    {
        if msgs.len() == 0 {
            self
        } else {
            self.run(msgs.drop_last()).next(msgs.last())
        }
    }

    /// A worker for a target of the given shape, at the start of its
    /// timeline, with nothing encoded.
    pub fn start(shape: FrameShape) -> (w: EncodeWorker)
        ensures
            w == (EncodeWorker { shape, phase: WorkerPhase::Running, position: 0, encoded: 0 }),
    {
        EncodeWorker { shape, phase: WorkerPhase::Running, position: 0, encoded: 0 }
    }

    /// The dimensions to open the encoder with: the even-padded width and the
    /// target's height.
    pub fn settings(&self) -> (s: EncoderSettings)
        ensures
            s.width == self.shape.padded_width(),
            s.height == self.shape.height,
    {
        EncoderSettings { width: crate::frame::even_width(self.shape.width), height: self.shape.height }
    }

    /// Whether the worker has ended.
    pub fn is_done(&self) -> (done: bool)
        ensures
            done == (self.phase == WorkerPhase::Finished),
    {
        self.phase == WorkerPhase::Finished
    }

    /// Handles one message from the channel, or `None` when the channel has
    /// closed. A frame that passes the shape's tests is converted and placed
    /// at the current position, which then advances by the frame's duration.
    /// Anything else ends a running worker, whose output is then finalized.
    pub fn step(&mut self, msg: Option<Mp4TaskPayload>) -> (action: WorkerAction)
        ensures
            *final(self) == old(self).next(msg),
            action.kind() == old(self).answer(msg),
            match action {
                WorkerAction::Encode { frame, position } => old(self).accepts(msg)
                    && position == old(self).position
                    && match msg {
                        Some(Mp4TaskPayload::Data(_, pixels)) => frame_cells(frame) == old(self).shape.rgb_spec(pixels@)
                            && frame_dims(frame) == (
                                old(self).shape.height as nat,
                                old(self).shape.padded_width() as nat,
                                3nat,
                            ),
                        _ => false,
                    },
                WorkerAction::Finalize => old(self).phase == WorkerPhase::Running && !old(self).accepts(msg),
                WorkerAction::Halt => old(self).phase == WorkerPhase::Finished,
            },
    {
        if self.phase == WorkerPhase::Finished {
            return WorkerAction::Halt;
        }
        match msg {
            Some(Mp4TaskPayload::Data(frame_time, pixels)) => {
                match self.shape.convert(&pixels) {
                    Ok(frame) => {
                        let position: u128 = self.position;
                        self.position = position.saturating_add(frame_time);
                        self.encoded = self.encoded.saturating_add(1);
                        WorkerAction::Encode { frame, position }
                    },
                    Err(_) => {
                        self.phase = WorkerPhase::Finished;
                        WorkerAction::Finalize
                    },
                }
            },
            _ => {
                self.phase = WorkerPhase::Finished;
                WorkerAction::Finalize
            },
        }
    }

    /// Waits for the next message on the worker's channel and handles it as
    /// `step` does; a worker that has ended does not wait. Whatever arrived, the worker moved as it does for that
    /// message, and the answer is the one it gives to that message.
    pub fn receive_and_step(&mut self, input: &Receiver<Mp4TaskPayload>) -> (action: WorkerAction)
        ensures
            exists|msg: Option<Mp4TaskPayload>| #[trigger]
                old(self).next(msg) == *final(self) && action.kind() == old(self).answer(msg),
            old(self).phase == WorkerPhase::Finished ==> *final(self) == *old(self) && action.kind()
                == ActionKind::Halt,
            final(self).shape == old(self).shape,
            final(self).position >= old(self).position,
            final(self).encoded >= old(self).encoded,
    {
        if self.phase == WorkerPhase::Finished {
            assert(old(self).next(None) == *self && ActionKind::Halt == old(self).answer(None));
            return WorkerAction::Halt;
        }
        let msg: Option<Mp4TaskPayload> = receive(input);
        let ghost arrived = msg;
        let action: WorkerAction = self.step(msg);
        assert(old(self).next(arrived) == *self && action.kind() == old(self).answer(arrived));
        action
    }
}

/// Whether a message is a frame whose buffer passes the shape's tests.
pub open spec fn is_valid_frame(shape: FrameShape, msg: Option<Mp4TaskPayload>) -> bool {
    match msg {
        Some(Mp4TaskPayload::Data(_, pixels)) => shape.verdict(pixels@.len() as int).is_ok(),
        _ => false,
    }
}

/// Whether a message is a frame whose buffer has the wrong length.
pub open spec fn is_misshapen_frame(shape: FrameShape, msg: Option<Mp4TaskPayload>) -> bool {
    match msg {
        Some(Mp4TaskPayload::Data(_, pixels)) => pixels@.len() != shape.byte_len(),
        _ => false,
    }
}

/// The durations of a sequence of messages never sum to less than zero.
pub proof fn total_duration_is_natural(msgs: Seq<Option<Mp4TaskPayload>>)
    ensures
        total_duration(msgs) >= 0,
    decreases msgs.len(),
{
    if msgs.len() > 0 {
        total_duration_is_natural(msgs.drop_last());
    }
}

/// A running worker that is fed valid frames only keeps running, has
/// encoded every one of them, and stands at its first position plus the sum
/// of their durations (up to the largest position that can be held).
pub proof fn valid_frames_accumulate(w: EncodeWorker, msgs: Seq<Option<Mp4TaskPayload>>)
    requires
        w.phase == WorkerPhase::Running,
        forall|i: int| 0 <= i < msgs.len() ==> is_valid_frame(w.shape, #[trigger] msgs[i]),
    ensures
        w.run(msgs).phase == WorkerPhase::Running,
        w.run(msgs).shape == w.shape,
        w.run(msgs).position == clamp_u128(w.position + total_duration(msgs)),
        w.run(msgs).encoded == clamp_u64(w.encoded + msgs.len()),
    decreases msgs.len(),
{
    if msgs.len() > 0 {
        let front = msgs.drop_last();
        assert forall|i: int| 0 <= i < front.len() implies is_valid_frame(w.shape, #[trigger] front[i]) by {
            assert(front[i] == msgs[i]);
        }
        valid_frames_accumulate(w, front);
        total_duration_is_natural(front);
        assert(is_valid_frame(w.shape, msgs[msgs.len() - 1]));
        assert(w.run(front).accepts(msgs.last()));
    }
}

/// In a stream of valid frames, frame `n` is placed exactly at the sum of
/// the durations of the frames before it, and the position after it is that
/// position plus its own duration, as long as the sum can be held.
pub proof fn frame_position_is_cumulative(w: EncodeWorker, msgs: Seq<Option<Mp4TaskPayload>>, n: int)
    requires
        w.phase == WorkerPhase::Running,
        forall|i: int| 0 <= i < msgs.len() ==> is_valid_frame(w.shape, #[trigger] msgs[i]),
        0 <= n < msgs.len(),
        w.position + total_duration(msgs.take(n + 1)) <= u128::MAX,
    ensures
        w.run(msgs.take(n)).answer(msgs[n]) == ActionKind::Encode,
        w.run(msgs.take(n)).position == w.position + total_duration(msgs.take(n)),
        w.run(msgs.take(n + 1)).position == w.run(msgs.take(n)).position + duration_of(msgs[n]),
{
    let before = msgs.take(n);
    let through = msgs.take(n + 1);
    assert(through.drop_last() =~= before);
    assert(through.last() == msgs[n]);
    assert forall|i: int| 0 <= i < before.len() implies is_valid_frame(w.shape, #[trigger] before[i]) by {
        assert(before[i] == msgs[i]);
    }
    assert forall|i: int| 0 <= i < through.len() implies is_valid_frame(w.shape, #[trigger] through[i]) by {
        assert(through[i] == msgs[i]);
    }
    valid_frames_accumulate(w, before);
    valid_frames_accumulate(w, through);
    total_duration_is_natural(before);
    assert(is_valid_frame(w.shape, msgs[n]));
}

/// Whatever arrives, in whatever order, the position never moves back: the
/// position after `i` messages is not above the position after `j >= i`.
pub proof fn position_never_decreases(w: EncodeWorker, msgs: Seq<Option<Mp4TaskPayload>>, i: int, j: int)
    requires
        0 <= i <= j <= msgs.len(),
    ensures
        w.run(msgs.take(i)).position <= w.run(msgs.take(j)).position,
        w.run(msgs.take(i)).encoded <= w.run(msgs.take(j)).encoded,
    decreases j - i,
{
    if i < j {
        position_never_decreases(w, msgs, i, j - 1);
        assert(msgs.take(j).drop_last() =~= msgs.take(j - 1));
    }
}

/// A worker that has ended stays as it is, whatever arrives.
pub proof fn finished_worker_ignores(w: EncodeWorker, msgs: Seq<Option<Mp4TaskPayload>>)
    requires
        w.phase == WorkerPhase::Finished,
    ensures
        w.run(msgs) == w,
    decreases msgs.len(),
{
    if msgs.len() > 0 {
        finished_worker_ignores(w, msgs.drop_last());
    }
}

/// A frame of the wrong length is not encoded, and neither is anything that
/// arrives after it: once message `k` is such a frame, the worker has ended
/// after every longer prefix `j`, with the frame count and the position that
/// it had before message `k`. A worker that was still running when the frame
/// came answers it by finalizing its output; to whatever comes later it
/// answers by doing nothing.
pub proof fn misshapen_frame_ends_worker(w: EncodeWorker, msgs: Seq<Option<Mp4TaskPayload>>, k: int, j: int)
    requires
        0 <= k < j <= msgs.len(),
        is_misshapen_frame(w.shape, msgs[k]),
    ensures
        !w.run(msgs.take(k)).accepts(msgs[k]),
        w.run(msgs.take(k)).phase == WorkerPhase::Running ==> w.run(msgs.take(k)).answer(msgs[k])
            == ActionKind::Finalize,
        w.run(msgs.take(j)).phase == WorkerPhase::Finished,
        j < msgs.len() ==> w.run(msgs.take(j)).answer(msgs[j]) == ActionKind::Halt,
        w.run(msgs.take(j)).encoded == w.run(msgs.take(k)).encoded,
        w.run(msgs.take(j)).position == w.run(msgs.take(k)).position,
        j < msgs.len() ==> !w.run(msgs.take(j)).accepts(msgs[j]),
    decreases j - k,
{
    assert(msgs.take(j).drop_last() =~= msgs.take(j - 1));
    assert(msgs.take(j).last() == msgs[j - 1]);
    shape_is_kept(w, msgs.take(k));
    if j > k + 1 {
        misshapen_frame_ends_worker(w, msgs, k, j - 1);
    }
}

/// The shape of a worker never changes.
pub proof fn shape_is_kept(w: EncodeWorker, msgs: Seq<Option<Mp4TaskPayload>>)
    ensures
        w.run(msgs).shape == w.shape,
    decreases msgs.len(),
{
    if msgs.len() > 0 {
        shape_is_kept(w, msgs.drop_last());
    }
}

} // verus!
