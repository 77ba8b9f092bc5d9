use ndiaudiosrc::frame::{buffer_size, frame_duration, poll_result, AudioFrame, CaptureKind, FrameResult};
use ndiaudiosrc::loss::{classify_loss, LossDecision};
use ndiaudiosrc::source::{
    AudioFormat, BufferPlan, CreateStep, FlowError, NdiAudioSrc,
};
use ndiaudiosrc::timing::{presentation_timestamp, pts_delta, Connection, SessionOrigin};

fn audio(ts: u64, rate: i32, channels: i32, samples: i32) -> FrameResult {
    FrameResult::Audio(AudioFrame {
        timestamp: ts,
        sample_rate: rate,
        no_channels: channels,
        no_samples: samples,
    })
}

fn negotiated_source(threshold: u32) -> NdiAudioSrc {
    let mut src = NdiAudioSrc::new();
    assert!(src.start(1));
    assert!(src.set_loss_threshold(threshold));
    assert!(src.set_caps(Some(AudioFormat { rate: 48000, channels: 2 })));
    src
}

/// Runs one create call over the given poll results; returns the final step
/// and how many results it consumed.
fn run_create(
    src: &mut NdiAudioSrc,
    conn: &mut Connection,
    results: &[FrameResult],
) -> (Result<CreateStep, FlowError>, usize) {
    let mut cycle = match src.begin_create() {
        Ok(c) => c,
        Err(e) => return (Err(e), 0),
    };
    let mut used = 0;
    for r in results {
        used += 1;
        let step = cycle.step(src, conn, *r);
        if step != CreateStep::Poll {
            return (Ok(step), used);
        }
    }
    (Ok(CreateStep::Poll), used)
}

#[test]
fn two_empty_polls_then_audio_gives_one_buffer() {
    let mut src = negotiated_source(5);
    let mut conn = Connection::new();
    assert!(conn.observe(100) == false);
    let results = [
        FrameResult::NoFrame,
        FrameResult::NoFrame,
        audio(1000, 48000, 2, 480),
    ];
    let (step, used) = run_create(&mut src, &mut conn, &results);
    assert_eq!(used, 3);
    match step {
        Ok(CreateStep::Emit(plan)) => {
            assert_eq!(plan.size, 1920);
            assert_eq!(plan.offset, 0);
            assert_eq!(plan.offset_end, 480);
            assert_eq!(plan.duration, 10_000_000);
            assert_eq!(plan.pts_delta, Some(90_000));
        }
        other => panic!("unexpected {:?}", other),
    }
    assert_eq!(src.sample_offset, 480);
}

#[test]
fn six_errors_close_the_stream_with_threshold_five() {
    let mut src = negotiated_source(5);
    let mut conn = Connection::new();
    let results = [FrameResult::Error; 6];
    let (step, used) = run_create(&mut src, &mut conn, &results);
    assert_eq!(used, 6);
    assert_eq!(step, Ok(CreateStep::Fail(FlowError::StreamClosed)));
}

#[test]
fn five_errors_then_audio_recovers_with_threshold_five() {
    let mut src = negotiated_source(5);
    let mut conn = Connection::new();
    conn.observe(10);
    let mut results = vec![FrameResult::Error; 5];
    results.push(audio(20, 48000, 2, 480));
    let mut cycle = src.begin_create().unwrap();
    for r in &results[..5] {
        assert_eq!(cycle.step(&mut src, &mut conn, *r), CreateStep::Poll);
    }
    assert_eq!(cycle.failures, 5);
    let step = cycle.step(&mut src, &mut conn, results[5]);
    assert!(matches!(step, CreateStep::Emit(_)));
    assert_eq!(cycle.failures, 0);
}

#[test]
fn zero_threshold_never_closes() {
    let mut src = negotiated_source(0);
    let mut conn = Connection::new();
    for _ in 0..100 {
        let (step, used) = run_create(&mut src, &mut conn, &[FrameResult::NoFrame]);
        assert_eq!(used, 1);
        assert_eq!(step, Ok(CreateStep::EmitEmpty));
        let (step, _) = run_create(&mut src, &mut conn, &[FrameResult::Error]);
        assert_eq!(step, Ok(CreateStep::EmitEmpty));
    }
    assert_eq!(src.sample_offset, 0);
}

#[test]
fn create_before_caps_is_not_negotiated() {
    let mut src = NdiAudioSrc::new();
    assert!(src.start(3));
    let mut conn = Connection::new();
    let (step, used) = run_create(&mut src, &mut conn, &[audio(5, 48000, 2, 480)]);
    assert_eq!(step, Err(FlowError::NotNegotiated));
    assert_eq!(used, 0);
    assert_eq!(conn.initial_timestamp, 0);
}

#[test]
fn offsets_are_contiguous_across_creates() {
    let mut src = negotiated_source(5);
    let mut conn = Connection::new();
    conn.observe(1);
    let mut last_end = 0;
    for (i, n) in [480, 1024, 7, 0, 960].iter().enumerate() {
        let (step, _) = run_create(&mut src, &mut conn, &[audio(10 + i as u64, 44100, 1, *n)]);
        match step {
            Ok(CreateStep::Emit(BufferPlan { offset, offset_end, .. })) => {
                assert_eq!(offset, last_end);
                assert_eq!(offset_end, offset + *n as u64);
                last_end = offset_end;
            }
            other => panic!("unexpected {:?}", other),
        }
    }
    assert_eq!(last_end, 2471);
    src.stop();
    assert_eq!(src.sample_offset, 0);
}

#[test]
fn buffer_size_is_samples_times_channels_times_two() {
    let f = AudioFrame { timestamp: 1, sample_rate: 44100, no_channels: 6, no_samples: 1024 };
    assert_eq!(buffer_size(&f), 12288);
    let big = AudioFrame {
        timestamp: 1,
        sample_rate: 1,
        no_channels: i32::MAX,
        no_samples: i32::MAX,
    };
    assert_eq!(buffer_size(&big), 2 * (i32::MAX as u64) * (i32::MAX as u64));
}

#[test]
fn duration_is_rounded_down() {
    let f = AudioFrame { timestamp: 1, sample_rate: 44100, no_channels: 2, no_samples: 1024 };
    assert_eq!(frame_duration(&f), 23_219_954);
}

#[test]
fn old_frames_are_skipped_and_lower_the_origin() {
    let mut src = negotiated_source(5);
    let mut conn = Connection::new();
    conn.observe(1000);
    let results = [audio(900, 48000, 2, 480), audio(950, 48000, 2, 480)];
    let (step, used) = run_create(&mut src, &mut conn, &results);
    assert_eq!(used, 2);
    assert_eq!(conn.initial_timestamp, 900);
    match step {
        Ok(CreateStep::Emit(plan)) => assert_eq!(plan.pts_delta, Some(5000)),
        other => panic!("unexpected {:?}", other),
    }
}

#[test]
fn first_frame_sets_origin_and_is_skipped() {
    let mut conn = Connection::new();
    assert!(!conn.observe(500));
    assert_eq!(conn.initial_timestamp, 500);
    assert!(conn.observe(600));
    assert_eq!(conn.initial_timestamp, 500);
    assert!(!conn.observe(500));
    assert!(!conn.observe(400));
    assert_eq!(conn.initial_timestamp, 400);
}

#[test]
fn origin_never_increases() {
    let mut conn = Connection::new();
    conn.observe(50);
    let mut prev = conn.initial_timestamp;
    for ts in [70, 40, 90, 45, 10, 200] {
        conn.observe(ts);
        assert!(conn.initial_timestamp <= prev);
        prev = conn.initial_timestamp;
    }
    assert_eq!(prev, 10);
}

#[test]
fn presentation_times_increase_with_timestamps() {
    let initial = 1_000;
    let start = 5_000_000;
    let mut prev = None;
    for ts in [1_001u64, 1_002, 2_000, 1_000_000] {
        let pts = presentation_timestamp(initial, ts, start).unwrap();
        assert_eq!(pts, (ts - initial) * 100 + start);
        if let Some(p) = prev {
            assert!(pts > p);
        }
        prev = Some(pts);
    }
    assert_eq!(presentation_timestamp(0, u64::MAX, 0), None);
    assert_eq!(presentation_timestamp(0, u64::MAX / 100, u64::MAX), None);
    assert_eq!(pts_delta(10, 12), Some(200));
}

#[test]
fn session_origin_latches_once() {
    let mut origin = SessionOrigin::new();
    assert!(!origin.is_latched());
    assert_eq!(origin.stamp(Some(100), 7_000), Some(7_100));
    assert!(origin.is_latched());
    assert_eq!(origin.stamp(Some(200), 9_999), Some(7_200));
    assert_eq!(origin.latch(1), 7_000);
    assert_eq!(origin.stamp(None, 3), None);
    assert_eq!(origin.stamp(Some(u64::MAX), 0), None);
}

#[test]
fn loss_decisions() {
    assert_eq!(classify_loss(0, 0), LossDecision::EmitEmpty);
    assert_eq!(classify_loss(40, 0), LossDecision::EmitEmpty);
    assert_eq!(classify_loss(0, 1), LossDecision::Retry);
    assert_eq!(classify_loss(1, 1), LossDecision::Closed);
    assert_eq!(classify_loss(4, 5), LossDecision::Retry);
    assert_eq!(classify_loss(5, 5), LossDecision::Closed);
}

#[test]
fn capture_kinds_map_to_poll_results() {
    let f = AudioFrame { timestamp: 3, sample_rate: 48000, no_channels: 2, no_samples: 10 };
    assert_eq!(poll_result(CaptureKind::Audio, f), FrameResult::Audio(f));
    assert_eq!(poll_result(CaptureKind::Error, f), FrameResult::Error);
    assert_eq!(poll_result(CaptureKind::NoFrame, f), FrameResult::NoFrame);
    assert_eq!(poll_result(CaptureKind::Video, f), FrameResult::NoFrame);
    assert_eq!(poll_result(CaptureKind::Metadata, f), FrameResult::NoFrame);
    assert_eq!(poll_result(CaptureKind::StatusChange, f), FrameResult::NoFrame);
    let bad = AudioFrame { sample_rate: 0, ..f };
    assert_eq!(poll_result(CaptureKind::Audio, bad), FrameResult::Error);
}
