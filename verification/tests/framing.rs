use voice_chat::config::FRAME_SIZE;
use voice_chat::frame::{Frame, FrameAccumulator};
use voice_chat::stream::capture;

fn ramp(start: usize, count: usize) -> Vec<f32> {
    (start..start + count).map(|i| i as f32).collect()
}

#[test]
fn drain_yields_one_frame_per_480_samples() {
    let mut accumulator: FrameAccumulator<f32> = FrameAccumulator::new();
    accumulator.push(&ramp(0, 1000));
    let frames = accumulator.drain_ready_frames();
    assert_eq!(frames.len(), 2);
    assert_eq!(accumulator.len(), 40);
    assert_eq!(frames[0].samples(), &ramp(0, 480));
    assert_eq!(frames[1].samples(), &ramp(480, 480));
}

#[test]
fn drain_leaves_a_partial_frame_buffered() {
    let mut accumulator: FrameAccumulator<f32> = FrameAccumulator::new();
    accumulator.push(&ramp(0, 479));
    assert!(accumulator.drain_ready_frames().is_empty());
    assert_eq!(accumulator.len(), 479);
    accumulator.push(&ramp(479, 1));
    let frames = accumulator.drain_ready_frames();
    assert_eq!(frames.len(), 1);
    assert_eq!(accumulator.len(), 0);
    assert_eq!(frames[0].samples(), &ramp(0, 480));
}

#[test]
fn drain_of_an_empty_accumulator_yields_nothing() {
    let mut accumulator: FrameAccumulator<i16> = FrameAccumulator::new();
    assert_eq!(accumulator.len(), 0);
    assert!(accumulator.drain_ready_frames().is_empty());
    accumulator.push(&[]);
    assert!(accumulator.drain_ready_frames().is_empty());
    assert_eq!(accumulator.len(), 0);
}

#[test]
fn drain_of_exact_multiples_leaves_nothing() {
    let mut accumulator: FrameAccumulator<f32> = FrameAccumulator::new();
    accumulator.push(&ramp(0, 3 * FRAME_SIZE));
    let frames = accumulator.drain_ready_frames();
    assert_eq!(frames.len(), 3);
    assert_eq!(accumulator.len(), 0);
    assert_eq!(frames[2].samples(), &ramp(960, 480));
}

#[test]
fn frames_over_many_pushes_match_the_totals() {
    let sizes = [100usize, 400, 7, 960, 0, 479, 1, 1234];
    let mut accumulator: FrameAccumulator<f32> = FrameAccumulator::new();
    let mut total = 0usize;
    let mut yielded: Vec<f32> = Vec::new();
    let mut frames_seen = 0usize;
    for size in sizes {
        accumulator.push(&ramp(total, size));
        total += size;
        for frame in accumulator.drain_ready_frames() {
            assert_eq!(frame.samples().len(), FRAME_SIZE);
            yielded.extend_from_slice(frame.samples());
            frames_seen += 1;
        }
        assert_eq!(frames_seen, total / FRAME_SIZE);
        assert_eq!(accumulator.len(), total % FRAME_SIZE);
    }
    assert_eq!(total, 3181);
    assert_eq!(frames_seen, 6);
    assert_eq!(accumulator.len(), 301);
    assert_eq!(yielded, ramp(0, 6 * FRAME_SIZE));
}

#[test]
fn draining_once_or_after_every_push_gives_the_same_frames() {
    let mut stepwise: FrameAccumulator<i16> = FrameAccumulator::new();
    let mut at_once: FrameAccumulator<i16> = FrameAccumulator::new();
    let chunks: Vec<Vec<i16>> = vec![vec![1; 300], vec![2; 300], vec![3; 500]];
    let mut first: Vec<Vec<i16>> = Vec::new();
    for chunk in &chunks {
        stepwise.push(chunk);
        at_once.push(chunk);
        for frame in stepwise.drain_ready_frames() {
            first.push(frame.into_vec());
        }
    }
    let second: Vec<Vec<i16>> =
        at_once.drain_ready_frames().into_iter().map(|f| f.into_vec()).collect();
    assert_eq!(first, second);
    assert_eq!(first.len(), 2);
    assert_eq!(stepwise.len(), 140);
    assert_eq!(at_once.len(), 140);
    assert_eq!(&first[0][..300], &[1i16; 300][..]);
    assert_eq!(&first[0][300..], &[2i16; 180][..]);
    assert_eq!(&first[1][..120], &[2i16; 120][..]);
    assert_eq!(&first[1][120..], &[3i16; 360][..]);
}

#[test]
fn a_frame_takes_exactly_480_samples() {
    assert!(Frame::from_vec(vec![0i16; 479]).is_none());
    assert!(Frame::from_vec(vec![0i16; 481]).is_none());
    assert!(Frame::from_vec(Vec::<i16>::new()).is_none());
    let frame = Frame::from_vec(ramp(5, 480)).expect("480 samples make a frame");
    assert_eq!(frame.samples(), &ramp(5, 480));
    assert_eq!(frame.into_vec(), ramp(5, 480));
}

#[test]
fn capture_while_transmitting_buffers_and_cuts_frames() {
    let mut accumulator: FrameAccumulator<f32> = FrameAccumulator::new();
    let frames = capture(&mut accumulator, true, true, &ramp(0, 500));
    assert_eq!(frames.len(), 1);
    assert_eq!(frames[0].samples(), &ramp(0, 480));
    assert_eq!(accumulator.len(), 20);
    let frames = capture(&mut accumulator, true, true, &ramp(500, 460));
    assert_eq!(frames.len(), 1);
    assert_eq!(frames[0].samples(), &ramp(480, 480));
    assert_eq!(accumulator.len(), 0);
}

#[test]
fn capture_while_silent_discards_the_samples() {
    let mut accumulator: FrameAccumulator<f32> = FrameAccumulator::new();
    assert!(capture(&mut accumulator, true, true, &ramp(0, 100)).is_empty());
    assert_eq!(accumulator.len(), 100);
    assert!(capture(&mut accumulator, true, false, &ramp(100, 1000)).is_empty());
    assert_eq!(accumulator.len(), 100);
    assert!(capture(&mut accumulator, false, true, &ramp(100, 1000)).is_empty());
    assert_eq!(accumulator.len(), 100);
    assert!(capture(&mut accumulator, false, false, &ramp(100, 1000)).is_empty());
    assert_eq!(accumulator.len(), 100);
    let frames = capture(&mut accumulator, true, true, &ramp(100, 380));
    assert_eq!(frames.len(), 1);
    assert_eq!(frames[0].samples(), &ramp(0, 480));
}
