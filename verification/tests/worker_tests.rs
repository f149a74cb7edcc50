use capture_media::frame::FrameShape;
use capture_media::output::output_name;
use capture_media::worker::{EncodeWorker, Mp4TaskPayload, WorkerAction, WorkerPhase};

fn target() -> FrameShape {
    FrameShape { width: 64, height: 64, pixel_size: 4 }
}

fn frame(duration: u128) -> Option<Mp4TaskPayload> {
    Some(Mp4TaskPayload::Data(duration, vec![0u8; 64 * 64 * 4]))
}

fn encode_position(action: WorkerAction) -> Option<u128> {
    match action {
        WorkerAction::Encode { position, .. } => Some(position),
        _ => None,
    }
}

#[test]
fn start_is_running_at_zero() {
    let w = EncodeWorker::start(target());
    assert_eq!(w.phase, WorkerPhase::Running);
    assert_eq!(w.position, 0);
    assert_eq!(w.encoded, 0);
    assert!(!w.is_done());
}

#[test]
fn settings_use_padded_width() {
    let w = EncodeWorker::start(FrameShape { width: 101, height: 33, pixel_size: 4 });
    let s = w.settings();
    assert_eq!(s.width, 102);
    assert_eq!(s.height, 33);
}

#[test]
fn thirty_frames_of_a_thirtieth_second() {
    let mut w = EncodeWorker::start(target());
    let step: u128 = 33_333_333;
    for i in 0..30u128 {
        let action = w.step(frame(step));
        match action {
            WorkerAction::Encode { frame, position } => {
                assert_eq!(position, i * step);
                assert_eq!(frame.dims(), (64, 64, 3));
            }
            _ => panic!("frame {} was not encoded", i),
        }
    }
    assert_eq!(w.encoded, 30);
    assert_eq!(w.position, 999_999_990);
    assert!(matches!(w.step(Some(Mp4TaskPayload::Terminate)), WorkerAction::Finalize));
    assert!(w.is_done());
    assert_eq!(w.encoded, 30);
}

#[test]
fn positions_are_cumulative_durations() {
    let mut w = EncodeWorker::start(target());
    let durations: [u128; 5] = [10, 0, 7, 1_000_000_000, 3];
    let mut sum: u128 = 0;
    let mut last: u128 = 0;
    for d in durations {
        let position = encode_position(w.step(frame(d))).unwrap();
        assert_eq!(position, sum);
        assert!(position >= last);
        last = position;
        sum += d;
        assert_eq!(w.position, sum);
    }
    assert_eq!(w.position, 1_000_000_020);
}

#[test]
fn misshapen_frame_ends_the_worker() {
    let mut w = EncodeWorker::start(target());
    assert!(encode_position(w.step(frame(5))).is_some());
    assert!(encode_position(w.step(frame(5))).is_some());
    let short = Some(Mp4TaskPayload::Data(5, vec![0u8; 64 * 64 * 4 - 1]));
    assert!(matches!(w.step(short), WorkerAction::Finalize));
    assert!(w.is_done());
    assert_eq!(w.encoded, 2);
    assert_eq!(w.position, 10);
    assert!(matches!(w.step(frame(5)), WorkerAction::Halt));
    assert!(matches!(w.step(Some(Mp4TaskPayload::Terminate)), WorkerAction::Halt));
    assert!(matches!(w.step(None), WorkerAction::Halt));
    assert_eq!(w.encoded, 2);
    assert_eq!(w.position, 10);
}

#[test]
fn closed_channel_finalizes() {
    let mut w = EncodeWorker::start(target());
    assert!(encode_position(w.step(frame(1))).is_some());
    assert!(matches!(w.step(None), WorkerAction::Finalize));
    assert!(w.is_done());
}

#[test]
fn frame_without_three_channels_ends_the_worker() {
    let mut w = EncodeWorker::start(FrameShape { width: 2, height: 2, pixel_size: 1 });
    let action = w.step(Some(Mp4TaskPayload::Data(1, vec![0u8; 4])));
    assert!(matches!(action, WorkerAction::Finalize));
    assert_eq!(w.encoded, 0);
}

#[test]
fn position_stops_at_the_largest_value() {
    let mut w = EncodeWorker { shape: target(), phase: WorkerPhase::Running, position: u128::MAX - 1, encoded: u64::MAX };
    assert_eq!(encode_position(w.step(frame(5))), Some(u128::MAX - 1));
    assert_eq!(w.position, u128::MAX);
    assert_eq!(w.encoded, u64::MAX);
}

#[test]
fn two_workers_count_independently() {
    let mut a = EncodeWorker::start(target());
    let mut b = EncodeWorker::start(FrameShape { width: 3, height: 1, pixel_size: 3 });
    for _ in 0..4 {
        assert!(encode_position(a.step(frame(2))).is_some());
    }
    assert!(encode_position(b.step(Some(Mp4TaskPayload::Data(9, vec![1u8; 9])))).is_some());
    assert!(matches!(a.step(Some(Mp4TaskPayload::Terminate)), WorkerAction::Finalize));
    for _ in 0..6 {
        assert!(encode_position(b.step(Some(Mp4TaskPayload::Data(9, vec![1u8; 9])))).is_some());
    }
    assert!(matches!(b.step(Some(Mp4TaskPayload::Terminate)), WorkerAction::Finalize));
    assert_eq!(a.encoded, 4);
    assert_eq!(a.position, 8);
    assert_eq!(b.encoded, 7);
    assert_eq!(b.position, 63);
}

#[test]
fn output_name_prefers_the_given_path() {
    assert_eq!(output_name(Some(String::from("clips/a.mp4")), 12), "clips/a.mp4");
    assert_eq!(output_name(Some(String::new()), 12), "");
}

#[test]
fn output_name_is_made_from_the_start_time() {
    assert_eq!(output_name(None, 1_700_000_000), "1700000000.mp4");
    assert_eq!(output_name(None, 0), "0.mp4");
    assert_eq!(output_name(None, 9), "9.mp4");
    assert_eq!(output_name(None, 10), "10.mp4");
    assert_eq!(output_name(None, u64::MAX), "18446744073709551615.mp4");
}

#[test]
fn receive_and_step_follows_the_channel() {
    let (sender, receiver) = crossbeam_channel::unbounded::<Mp4TaskPayload>();
    let mut w = EncodeWorker::start(FrameShape { width: 1, height: 1, pixel_size: 4 });
    sender.send(Mp4TaskPayload::Data(7, vec![1, 2, 3, 4])).unwrap();
    sender.send(Mp4TaskPayload::Data(8, vec![5, 6, 7, 8])).unwrap();
    sender.send(Mp4TaskPayload::Terminate).unwrap();
    match w.receive_and_step(&receiver) {
        WorkerAction::Encode { frame, position } => {
            assert_eq!(position, 0);
            assert_eq!(frame.dims(), (1, 2, 3));
            assert_eq!(frame.cells(), vec![1, 2, 3, 0, 0, 0]);
        }
        _ => panic!("the first frame was not encoded"),
    }
    assert_eq!(encode_position(w.receive_and_step(&receiver)), Some(7));
    assert_eq!(w.position, 15);
    assert!(matches!(w.receive_and_step(&receiver), WorkerAction::Finalize));
    assert!(matches!(w.receive_and_step(&receiver), WorkerAction::Halt));
}

#[test]
fn receive_and_step_finalizes_when_the_sender_is_gone() {
    let (sender, receiver) = crossbeam_channel::unbounded::<Mp4TaskPayload>();
    let mut w = EncodeWorker::start(target());
    drop(sender);
    assert!(matches!(w.receive_and_step(&receiver), WorkerAction::Finalize));
    assert!(w.is_done());
}

#[test]
fn encoded_frame_rebuilds_as_an_array() {
    let mut w = EncodeWorker::start(FrameShape { width: 3, height: 2, pixel_size: 4 });
    let pixels: Vec<u8> = (1u8..=24).collect();
    match w.step(Some(Mp4TaskPayload::Data(1, pixels))) {
        WorkerAction::Encode { frame, .. } => {
            let array = ndarray::Array3::from_shape_vec(frame.dims(), frame.cells()).unwrap();
            assert_eq!(array.dim(), (2, 4, 3));
            assert_eq!(array[[0, 0, 0]], 1);
            assert_eq!(array[[0, 2, 2]], 11);
            assert_eq!(array[[1, 1, 1]], 18);
            assert_eq!(array[[0, 3, 0]], 0);
            assert_eq!(array[[1, 3, 2]], 0);
        }
        _ => panic!("the frame was not encoded"),
    }
}
