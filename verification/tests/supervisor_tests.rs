use capture_media::buffer::{ActiveRecorders, FrameBuffer, FrameEntry, Recorder};
use capture_media::frame::FrameShape;
use capture_media::supervisor::{
    clean_unmonitored_tasks, feed_outcome, find_task, latest_message, manage_mp4_task, send_frame_to_mp4_tasks,
    FeedOutcome, Mp4Capture, Mp4Outcome, Mp4State, Mp4Task,
};
use capture_media::worker::{Mp4TaskPayload, WorkerPhase};

fn square() -> FrameShape {
    FrameShape { width: 64, height: 64, pixel_size: 4 }
}

fn recorders() -> ActiveRecorders {
    let mut r = ActiveRecorders::new();
    r.recorders.push(Recorder { tracking_id: 1, target: Some(square()), last_frame: None, frames: FrameBuffer::new(4) });
    r.recorders.push(Recorder {
        tracking_id: 2,
        target: Some(FrameShape { width: 101, height: 10, pixel_size: 4 }),
        last_frame: None,
        frames: FrameBuffer::new(4),
    });
    r.recorders.push(Recorder { tracking_id: 3, target: None, last_frame: None, frames: FrameBuffer::new(4) });
    r
}

fn request(id: usize, kind: Mp4State) -> Mp4Capture {
    Mp4Capture { tracking_id: id, path: None, capture_type: kind }
}

#[test]
fn default_request_is_start() {
    assert_eq!(Mp4State::default(), Mp4State::Start);
}

#[test]
fn start_registers_a_task_and_hands_out_the_worker() {
    let mut tasks: Vec<Mp4Task> = Vec::new();
    let event = Mp4Capture { tracking_id: 2, path: Some(String::from("out.mp4")), capture_type: Mp4State::Start };
    match manage_mp4_task(&mut tasks, &recorders(), event) {
        Mp4Outcome::Launched(launch) => {
            assert_eq!(launch.tracking_id, 2);
            assert_eq!(launch.path, Some(String::from("out.mp4")));
            assert_eq!(launch.worker.shape, FrameShape { width: 101, height: 10, pixel_size: 4 });
            assert_eq!(launch.worker.phase, WorkerPhase::Running);
            assert_eq!(launch.worker.position, 0);
            assert_eq!(launch.settings.width, 102);
            assert_eq!(launch.settings.height, 10);
            assert_eq!(tasks.len(), 1);
            assert_eq!(tasks[0].owner_id, 2);
            assert!(tasks[0].input.send(Mp4TaskPayload::Terminate).is_ok());
            assert!(matches!(launch.receiver.recv(), Ok(Mp4TaskPayload::Terminate)));
        }
        _ => panic!("the request was not launched"),
    }
}

#[test]
fn requests_for_unresolved_targets_are_ignored() {
    let mut tasks: Vec<Mp4Task> = Vec::new();
    let r = recorders();
    assert!(matches!(manage_mp4_task(&mut tasks, &r, request(3, Mp4State::Start)), Mp4Outcome::Ignored));
    assert!(matches!(manage_mp4_task(&mut tasks, &r, request(9, Mp4State::Start)), Mp4Outcome::Ignored));
    assert!(matches!(manage_mp4_task(&mut tasks, &r, request(3, Mp4State::Stop)), Mp4Outcome::Ignored));
    assert_eq!(tasks.len(), 0);
}

#[test]
fn stop_on_an_unknown_id_changes_nothing() {
    let mut tasks: Vec<Mp4Task> = Vec::new();
    let r = recorders();
    assert!(matches!(manage_mp4_task(&mut tasks, &r, request(1, Mp4State::Start)), Mp4Outcome::Launched(_)));
    assert!(matches!(manage_mp4_task(&mut tasks, &r, request(2, Mp4State::Stop)), Mp4Outcome::NoTask));
    assert_eq!(tasks.len(), 1);
    assert_eq!(tasks[0].owner_id, 1);
    assert!(matches!(manage_mp4_task(&mut tasks, &r, request(9, Mp4State::Stop)), Mp4Outcome::Ignored));
    assert_eq!(tasks.len(), 1);
}

#[test]
fn stop_signals_only_the_task_of_that_recording() {
    let mut tasks: Vec<Mp4Task> = Vec::new();
    let r = recorders();
    let first = match manage_mp4_task(&mut tasks, &r, request(1, Mp4State::Start)) {
        Mp4Outcome::Launched(l) => l,
        _ => panic!("not launched"),
    };
    let second = match manage_mp4_task(&mut tasks, &r, request(2, Mp4State::Start)) {
        Mp4Outcome::Launched(l) => l,
        _ => panic!("not launched"),
    };
    match manage_mp4_task(&mut tasks, &r, request(2, Mp4State::Stop)) {
        Mp4Outcome::Signalled { index, delivered } => {
            assert_eq!(index, 1);
            assert!(delivered);
        }
        _ => panic!("not signalled"),
    }
    assert_eq!(tasks.len(), 2);
    assert!(matches!(second.receiver.try_recv(), Ok(Mp4TaskPayload::Terminate)));
    assert!(first.receiver.try_recv().is_err());
}

#[test]
fn stop_to_a_worker_that_is_gone_is_reported() {
    let mut tasks: Vec<Mp4Task> = Vec::new();
    let r = recorders();
    let launch = match manage_mp4_task(&mut tasks, &r, request(1, Mp4State::Start)) {
        Mp4Outcome::Launched(l) => l,
        _ => panic!("not launched"),
    };
    drop(launch);
    assert!(matches!(
        manage_mp4_task(&mut tasks, &r, request(1, Mp4State::Stop)),
        Mp4Outcome::Signalled { index: 0, delivered: false }
    ));
}

#[test]
fn find_task_gives_the_first_match() {
    let (s, _r) = crossbeam_channel::unbounded::<Mp4TaskPayload>();
    let tasks = vec![
        Mp4Task { input: s.clone(), owner_id: 4 },
        Mp4Task { input: s.clone(), owner_id: 8 },
        Mp4Task { input: s, owner_id: 8 },
    ];
    assert_eq!(find_task(&tasks, 8), Some(1));
    assert_eq!(find_task(&tasks, 4), Some(0));
    assert_eq!(find_task(&tasks, 5), None);
}

#[test]
fn feed_outcome_names_sent_and_dropped() {
    assert_eq!(feed_outcome(true), FeedOutcome::Sent);
    assert_eq!(feed_outcome(false), FeedOutcome::Dropped);
}

#[test]
fn latest_message_copies_the_newest_frame() {
    let mut rec = Recorder { tracking_id: 1, target: Some(square()), last_frame: None, frames: FrameBuffer::new(4) };
    assert!(latest_message(&rec).is_none());
    rec.frames.push(FrameEntry { frame_time: 3, texture: vec![1, 2] });
    rec.frames.push(FrameEntry { frame_time: 4, texture: vec![5, 6, 7] });
    match latest_message(&rec) {
        Some(Mp4TaskPayload::Data(t, pixels)) => {
            assert_eq!(t, 4);
            assert_eq!(pixels, vec![5, 6, 7]);
        }
        _ => panic!("no frame"),
    }
    assert_eq!(rec.frames.len(), 2);
}

#[test]
fn feed_offers_the_latest_frame_to_each_task() {
    let mut r = recorders();
    r.recorders[0].frames.push(FrameEntry { frame_time: 16, texture: vec![9u8; 8] });
    r.recorders[0].frames.push(FrameEntry { frame_time: 17, texture: vec![8u8; 8] });
    let (s1, r1) = crossbeam_channel::unbounded::<Mp4TaskPayload>();
    let (s2, r2) = crossbeam_channel::unbounded::<Mp4TaskPayload>();
    let (s9, r9) = crossbeam_channel::unbounded::<Mp4TaskPayload>();
    let (gone, gone_receiver) = crossbeam_channel::unbounded::<Mp4TaskPayload>();
    drop(gone_receiver);
    let tasks = vec![
        Mp4Task { input: s1, owner_id: 1 },
        Mp4Task { input: s2, owner_id: 2 },
        Mp4Task { input: s9, owner_id: 9 },
        Mp4Task { input: gone, owner_id: 1 },
    ];
    let report = send_frame_to_mp4_tasks(&r, &tasks);
    assert_eq!(report, vec![FeedOutcome::Sent, FeedOutcome::NoFrame, FeedOutcome::NoRecorder, FeedOutcome::Dropped]);
    match r1.try_recv() {
        Ok(Mp4TaskPayload::Data(t, pixels)) => {
            assert_eq!(t, 17);
            assert_eq!(pixels, vec![8u8; 8]);
        }
        _ => panic!("no frame arrived"),
    }
    assert!(r1.try_recv().is_err());
    assert!(r2.try_recv().is_err());
    assert!(r9.try_recv().is_err());
}

#[test]
fn feed_drops_frames_when_the_consumer_is_blocked() {
    let mut r = recorders();
    r.recorders[0].frames.push(FrameEntry { frame_time: 16, texture: vec![9u8; 8] });
    let (full, receiver) = crossbeam_channel::bounded::<Mp4TaskPayload>(1);
    let tasks = vec![Mp4Task { input: full, owner_id: 1 }];
    assert_eq!(send_frame_to_mp4_tasks(&r, &tasks), vec![FeedOutcome::Sent]);
    assert_eq!(send_frame_to_mp4_tasks(&r, &tasks), vec![FeedOutcome::Dropped]);
    assert_eq!(send_frame_to_mp4_tasks(&r, &tasks), vec![FeedOutcome::Dropped]);
    assert!(receiver.try_recv().is_ok());
    assert!(receiver.try_recv().is_err());
}

#[test]
fn reap_removes_finished_tasks_only() {
    let (s, _r) = crossbeam_channel::unbounded::<Mp4TaskPayload>();
    let mut tasks = vec![
        Mp4Task { input: s.clone(), owner_id: 1 },
        Mp4Task { input: s.clone(), owner_id: 2 },
        Mp4Task { input: s.clone(), owner_id: 3 },
        Mp4Task { input: s, owner_id: 4 },
    ];
    assert_eq!(clean_unmonitored_tasks(&mut tasks, &vec![true, false, true]), 2);
    let ids: Vec<usize> = tasks.iter().map(|t| t.owner_id).collect();
    assert_eq!(ids, vec![2, 4]);
    assert_eq!(clean_unmonitored_tasks(&mut tasks, &vec![false, false]), 0);
    assert_eq!(tasks.len(), 2);
    assert_eq!(clean_unmonitored_tasks(&mut tasks, &Vec::new()), 0);
    assert_eq!(clean_unmonitored_tasks(&mut tasks, &vec![true, true, true]), 2);
    assert!(tasks.is_empty());
}
