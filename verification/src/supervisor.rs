//! The worker supervisor: routing of start and stop requests to encode
//! workers, and the feed stage that offers each worker its recording's most
//! recent frame.

use crate::buffer::{ActiveRecorders, Recorder};
use crate::channel::{offer, open_channel};
use crate::frame::FrameShape;
use crate::worker::{EncodeWorker, EncoderSettings, Mp4TaskPayload, WorkerPhase};
use crossbeam_channel::{Receiver, Sender};
use vstd::prelude::*;

verus! {

/// What a capture request asks for.
#[derive(Debug, Clone, Copy, PartialEq, Eq, Structural)]
pub enum Mp4State {
    Start,
    Stop,
}

impl Default for Mp4State {
    fn default() -> (s: Mp4State)
        ensures
            s == Mp4State::Start,
    {
        Mp4State::Start
    }
}

/// A request to start or stop the video capture of one recording.
pub struct Mp4Capture {
    pub tracking_id: usize,
    pub path: Option<String>,
    pub capture_type: Mp4State,
}

/// The supervisor's record of a live worker: the sending half of its input
/// channel and the id of the recording that it belongs to.
pub struct Mp4Task {
    pub input: Sender<Mp4TaskPayload>,
    pub owner_id: usize,
}

/// All that is needed to run a new worker.
pub struct WorkerLaunch {
    pub tracking_id: usize,
    pub path: Option<String>,
    pub worker: EncodeWorker,
    pub settings: EncoderSettings,
    pub receiver: Receiver<Mp4TaskPayload>,
}

/// What became of a capture request.
pub enum Mp4Outcome {
    /// The recording is not tracked or its target cannot be resolved.
    Ignored,
    /// A worker was registered and is to be run.
    Launched(WorkerLaunch),
    /// The task at `index` was told to terminate; `delivered` says whether
    /// its channel took the message.
    Signalled { index: usize, delivered: bool },
    /// No task belongs to the recording: nothing was done.
    NoTask,
}

/// What the feed stage did for one task.
#[derive(Debug, Clone, Copy, PartialEq, Eq, Structural)]
pub enum FeedOutcome {
    /// The task's recording is not tracked.
    NoRecorder,
    /// The recording has no frame yet.
    NoFrame,
    /// The channel took the frame.
    Sent,
    /// The channel refused the frame, which is lost.
    Dropped,
}

/// Index of the first task that belongs to the given recording.
pub open spec fn task_index(tasks: Seq<Mp4Task>, tracking_id: usize) -> Option<int> {
    if exists|i: int| 0 <= i < tasks.len() && tasks[i].owner_id == tracking_id {
        Some(
            choose|i: int|
                0 <= i < tasks.len() && tasks[i].owner_id == tracking_id && forall|j: int|
                    0 <= j < i ==> tasks[j].owner_id != tracking_id,
        )
    } else {
        None
    }
}

/// The target of a recording, where the recording is tracked and its target
/// can be resolved.
pub open spec fn resolved_target(recorders: ActiveRecorders, tracking_id: usize) -> Option<FrameShape> {
    match recorders.lookup(tracking_id) {
        Some(r) => r.target,
        None => None,
    }
}

/// What the feed stage may report for a task of the given recording.
pub open spec fn feed_allowed(recorders: ActiveRecorders, tracking_id: usize, outcome: FeedOutcome) -> bool {
    match recorders.lookup(tracking_id) {
        None => outcome == FeedOutcome::NoRecorder,
        Some(r) => if r.frames@.len() == 0 {
            outcome == FeedOutcome::NoFrame
        } else {
            outcome == FeedOutcome::Sent || outcome == FeedOutcome::Dropped
        },
    }
}

/// The feed stage's report for a frame that was offered to a channel.
pub fn feed_outcome(delivered: bool) -> (o: FeedOutcome)
    ensures
        o == if delivered {
            FeedOutcome::Sent
        } else {
            FeedOutcome::Dropped
        },
{
    if delivered {
        FeedOutcome::Sent
    } else {
        FeedOutcome::Dropped
    }
}

/// Index of the first task that belongs to the given recording.
pub fn find_task(tasks: &Vec<Mp4Task>, tracking_id: usize) -> (r: Option<usize>)
    ensures
        match r {
            Some(i) => task_index(tasks@, tracking_id) == Some(i as int) && i < tasks@.len()
                && tasks@[i as int].owner_id == tracking_id
                && forall|j: int| 0 <= j < i ==> tasks@[j].owner_id != tracking_id,
            None => task_index(tasks@, tracking_id).is_none()
                && forall|j: int| 0 <= j < tasks@.len() ==> tasks@[j].owner_id != tracking_id,
        },
{
    let mut i: usize = 0;
    while i < tasks.len()
        invariant
            i <= tasks@.len(),
            forall|j: int| 0 <= j < i ==> tasks@[j].owner_id != tracking_id,
        decreases tasks@.len() - i,
    {
        if tasks[i].owner_id == tracking_id {
            proof {
                let k = task_index(tasks@, tracking_id).unwrap();
                assert(k == i) by {
                    if k < i {
                        assert(tasks@[k].owner_id != tracking_id);
                    }
                }
            }
            return Some(i);
        }
        i += 1;
    }
    None
}

/// The message that the feed stage offers for a recording: its most recent
/// frame, copied, or nothing where it has no frame yet.
pub fn latest_message(recorder: &Recorder) -> (m: Option<Mp4TaskPayload>)
    ensures
        match m {
            Some(Mp4TaskPayload::Data(frame_time, pixels)) => recorder.frames@.len() > 0
                && frame_time == recorder.frames@.last().frame_time
                && pixels@ == recorder.frames@.last().texture@,
            Some(Mp4TaskPayload::Terminate) => false,
            None => recorder.frames@.len() == 0,
        },
{
    match recorder.frames.back() {
        Some(entry) => {
            let pixels: Vec<u8> = entry.texture.clone();
            assert(pixels@ =~= entry.texture@);
            Some(Mp4TaskPayload::Data(entry.frame_time, pixels))
        },
        None => None,
    }
}

/// Handles one capture request. A request for a recording that is not
/// tracked, or whose target cannot be resolved, is ignored. A start request
/// opens a channel, registers a task with its sending half and hands back
/// what the new worker needs. A stop request tells the first task of the
/// recording to terminate; where there is none, nothing happens.
pub fn manage_mp4_task(tasks: &mut Vec<Mp4Task>, recorders: &ActiveRecorders, event: Mp4Capture) -> (outcome:
    Mp4Outcome)
    ensures
        match outcome {
            Mp4Outcome::Ignored => resolved_target(*recorders, event.tracking_id).is_none() && final(tasks)@ == old(
                tasks,
            )@,
            Mp4Outcome::Launched(launch) => event.capture_type == Mp4State::Start
                && resolved_target(*recorders, event.tracking_id) == Some(launch.worker.shape)
                && launch.worker.phase == WorkerPhase::Running
                && launch.worker.position == 0
                && launch.worker.encoded == 0
                && launch.settings.width == launch.worker.shape.padded_width()
                && launch.settings.height == launch.worker.shape.height
                && launch.tracking_id == event.tracking_id
                && launch.path == event.path
                && final(tasks)@.len() == old(tasks)@.len() + 1
                && final(tasks)@.drop_last() == old(tasks)@
                && final(tasks)@.last().owner_id == event.tracking_id,
            Mp4Outcome::Signalled { index, delivered } => event.capture_type == Mp4State::Stop
                && resolved_target(*recorders, event.tracking_id).is_some()
                && task_index(old(tasks)@, event.tracking_id) == Some(index as int)
                && index < old(tasks)@.len()
                && old(tasks)@[index as int].owner_id == event.tracking_id
                && final(tasks)@ == old(tasks)@,
            Mp4Outcome::NoTask => event.capture_type == Mp4State::Stop
                && resolved_target(*recorders, event.tracking_id).is_some()
                && task_index(old(tasks)@, event.tracking_id).is_none()
                && final(tasks)@ == old(tasks)@,
        },
{
    let shape: FrameShape = match recorders.get(event.tracking_id) {
        Some(recorder) => match recorder.target {
            Some(shape) => shape,
            None => {
                return Mp4Outcome::Ignored;
            },
        },
        None => {
            return Mp4Outcome::Ignored;
        },
    };
    match event.capture_type {
        Mp4State::Start => {
            let (sender, receiver) = open_channel();
            let worker: EncodeWorker = EncodeWorker::start(shape);
            let settings: EncoderSettings = worker.settings();
            tasks.push(Mp4Task { input: sender, owner_id: event.tracking_id });
            assert(tasks@.drop_last() =~= old(tasks)@);
            Mp4Outcome::Launched(
                WorkerLaunch { tracking_id: event.tracking_id, path: event.path, worker, settings, receiver },
            )
        },
        Mp4State::Stop => {
            match find_task(tasks, event.tracking_id) {
                Some(index) => {
                    let delivered: bool = offer(&tasks[index].input, Mp4TaskPayload::Terminate);
                    Mp4Outcome::Signalled { index, delivered }
                },
                None => Mp4Outcome::NoTask,
            }
        },
    }
}

/// The feed stage: offers every task the most recent frame of its recording
/// and reports, task by task, what happened. A frame that a channel does not
/// take at once is dropped; the stage never waits.
pub fn send_frame_to_mp4_tasks(recorders: &ActiveRecorders, tasks: &Vec<Mp4Task>) -> (report: Vec<FeedOutcome>)
    ensures
        report@.len() == tasks@.len(),
        forall|i: int| 0 <= i < tasks@.len() ==> feed_allowed(*recorders, tasks@[i].owner_id, #[trigger] report@[i]),
{
    let mut report: Vec<FeedOutcome> = Vec::new();
    let mut i: usize = 0;
    while i < tasks.len()
        invariant
            i <= tasks@.len(),
            report@.len() == i,
            forall|j: int| 0 <= j < i ==> feed_allowed(*recorders, tasks@[j].owner_id, #[trigger] report@[j]),
        decreases tasks@.len() - i,
    {
        let task: &Mp4Task = &tasks[i];
        let outcome: FeedOutcome = match recorders.get(task.owner_id) {
            None => FeedOutcome::NoRecorder,
            Some(recorder) => match latest_message(recorder) {
                None => FeedOutcome::NoFrame,
                Some(message) => feed_outcome(offer(&task.input, message)),
            },
        };
        report.push(outcome);
        i += 1;
    }
    report
}

/// Whether the task at index `i` was reported as finished.
pub open spec fn is_flagged(done: Seq<bool>, i: int) -> bool {
    0 <= i < done.len() && done[i]
}

/// The tasks at indices `from` and above that were not reported as finished,
/// in their order.
pub open spec fn surviving_from(tasks: Seq<Mp4Task>, done: Seq<bool>, from: int) -> Seq<Mp4Task>
    decreases tasks.len() - from,
{
    if from < 0 || from >= tasks.len() {
        Seq::<Mp4Task>::empty()
    } else if is_flagged(done, from) {
        surviving_from(tasks, done, from + 1)
    } else {
        seq![tasks[from]] + surviving_from(tasks, done, from + 1)
    }
}

/// Reaps finished workers: `done[i]` says whether the worker of task `i` has
/// reported completion. Those tasks leave the registry, which releases their
/// channels; the others stay, in their order. A task without a flag stays.
pub fn clean_unmonitored_tasks(tasks: &mut Vec<Mp4Task>, done: &Vec<bool>) -> (reaped: usize)
    ensures
        final(tasks)@ == surviving_from(old(tasks)@, done@, 0),
        reaped == old(tasks)@.len() - final(tasks)@.len(),
{
    let mut i: usize = tasks.len();
    let mut reaped: usize = 0;
    while i > 0
        invariant
            i <= old(tasks)@.len() <= usize::MAX,
            tasks@ == old(tasks)@.take(i as int) + surviving_from(old(tasks)@, done@, i as int),
            reaped == old(tasks)@.len() - tasks@.len(),
        decreases i,
    {
        i -= 1;
        if i < done.len() && done[i] {
            let _ = tasks.remove(i);
            reaped += 1;
            assert(tasks@ =~= old(tasks)@.take(i as int) + surviving_from(old(tasks)@, done@, i as int));
        } else {
            assert(tasks@ =~= old(tasks)@.take(i as int) + surviving_from(old(tasks)@, done@, i as int));
        }
    }
    assert(old(tasks)@.take(0) =~= Seq::<Mp4Task>::empty());
    assert(tasks@ =~= surviving_from(old(tasks)@, done@, 0));
    reaped
}

/// A task that was not reported as finished is still registered after a
/// reap.
pub proof fn reap_keeps_live_tasks(tasks: Seq<Mp4Task>, done: Seq<bool>, from: int, i: int)
    requires
        0 <= from <= i < tasks.len(),
        !is_flagged(done, i),
    ensures
        surviving_from(tasks, done, from).contains(tasks[i]),
    decreases i - from,
{
    if from == i {
        let s = seq![tasks[from]] + surviving_from(tasks, done, from + 1);
        assert(s[0] == tasks[i]);
    } else {
        reap_keeps_live_tasks(tasks, done, from + 1, i);
        let rest = surviving_from(tasks, done, from + 1);
        let k = choose|k: int| 0 <= k < rest.len() && rest[k] == tasks[i];
        if !is_flagged(done, from) {
            let s = seq![tasks[from]] + rest;
            assert(s[k + 1] == tasks[i]);
        }
    }
}

/// Every task that is registered after a reap was registered before it and
/// was not reported as finished.
pub proof fn reap_keeps_only_live_tasks(tasks: Seq<Mp4Task>, done: Seq<bool>, from: int, k: int)
    requires
        0 <= from,
        0 <= k < surviving_from(tasks, done, from).len(),
    ensures
        exists|i: int|
            from <= i < tasks.len() && !is_flagged(done, i) && tasks[i] == #[trigger] surviving_from(
                tasks,
                done,
                from,
            )[k],
    decreases tasks.len() - from,
{
    if from < tasks.len() {
        let rest = surviving_from(tasks, done, from + 1);
        if is_flagged(done, from) {
            reap_keeps_only_live_tasks(tasks, done, from + 1, k);
        } else if k == 0 {
            assert(!is_flagged(done, from) && tasks[from] == surviving_from(tasks, done, from)[0]);
        } else {
            reap_keeps_only_live_tasks(tasks, done, from + 1, k - 1);
            let i = choose|i: int| from + 1 <= i < tasks.len() && !is_flagged(done, i) && tasks[i] == rest[k - 1];
            assert(tasks[i] == surviving_from(tasks, done, from)[k]);
        }
    }
}

/// A stop request reaches a task of its own recording and no other: the
/// index that `task_index` names holds a task of that recording, and none
/// before it does. Where no task belongs to the recording, it names none.
pub proof fn stop_reaches_only_its_recording(tasks: Seq<Mp4Task>, tracking_id: usize)
    ensures
        match task_index(tasks, tracking_id) {
            Some(i) => 0 <= i < tasks.len() && tasks[i].owner_id == tracking_id && forall|j: int|
                0 <= j < i ==> tasks[j].owner_id != tracking_id,
            None => forall|j: int| 0 <= j < tasks.len() ==> tasks[j].owner_id != tracking_id,
        },
{
    if exists|i: int| 0 <= i < tasks.len() && tasks[i].owner_id == tracking_id {
        let w = choose|i: int| 0 <= i < tasks.len() && tasks[i].owner_id == tracking_id;
        first_match_exists(tasks, tracking_id, w);
    }
}

/// Where some task belongs to a recording, one of them is the first.
proof fn first_match_exists(tasks: Seq<Mp4Task>, tracking_id: usize, w: int)
    requires
        0 <= w < tasks.len(),
        tasks[w].owner_id == tracking_id,
    ensures
        exists|i: int|
            0 <= i < tasks.len() && tasks[i].owner_id == tracking_id && forall|j: int|
                0 <= j < i ==> tasks[j].owner_id != tracking_id,
    decreases w,
{
    if exists|k: int| 0 <= k < w && tasks[k].owner_id == tracking_id {
        let k = choose|k: int| 0 <= k < w && tasks[k].owner_id == tracking_id;
        first_match_exists(tasks, tracking_id, k);
    } else {
        assert(0 <= w < tasks.len() && tasks[w].owner_id == tracking_id && forall|j: int|
            0 <= j < w ==> tasks[j].owner_id != tracking_id);
    }
}

} // verus!
