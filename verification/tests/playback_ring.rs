use voice_chat::config::{sample_capacity, BUFFER_DURATION_MS, BUFFER_SAMPLES, SAMPLE_RATE};
use voice_chat::playback::PlaybackRing;
use voice_chat::stream::playback;

#[test]
fn pulling_from_an_empty_ring_returns_silence() {
    let mut ring: PlaybackRing<f32> = PlaybackRing::new(BUFFER_SAMPLES, 0.0);
    assert_eq!(ring.len(), 0);
    assert_eq!(ring.pull_one(), 0.0);
    assert_eq!(ring.pull_one(), 0.0);
    assert_eq!(ring.len(), 0);
    assert_eq!(ring.pull_many(4), vec![0.0, 0.0, 0.0, 0.0]);
    assert_eq!(ring.len(), 0);
}

#[test]
fn ring_hands_samples_out_in_the_order_pushed() {
    let mut ring: PlaybackRing<f32> = PlaybackRing::new(8, 0.0);
    ring.push_many(&[0.1, 0.2, 0.3]);
    ring.push_many(&[0.4]);
    assert_eq!(ring.len(), 4);
    assert_eq!(ring.pull_one(), 0.1);
    assert_eq!(ring.pull_one(), 0.2);
    assert_eq!(ring.len(), 2);
    assert_eq!(ring.pull_one(), 0.3);
    assert_eq!(ring.pull_one(), 0.4);
    assert_eq!(ring.pull_one(), 0.0);
}

#[test]
fn overflow_evicts_exactly_the_oldest_excess() {
    let mut ring: PlaybackRing<i16> = PlaybackRing::new(5, 0);
    ring.push_many(&[1, 2, 3]);
    ring.push_many(&[4, 5, 6, 7]);
    assert_eq!(ring.len(), 5);
    assert_eq!(ring.pull_many(5), vec![3, 4, 5, 6, 7]);
    assert_eq!(ring.len(), 0);
}

#[test]
fn one_push_larger_than_the_capacity_keeps_its_newest_samples() {
    let mut ring: PlaybackRing<i16> = PlaybackRing::new(3, 0);
    ring.push_many(&[9, 9]);
    ring.push_many(&[1, 2, 3, 4, 5, 6]);
    assert_eq!(ring.len(), 3);
    assert_eq!(ring.pull_many(3), vec![4, 5, 6]);
}

#[test]
fn a_push_that_fills_the_ring_exactly_evicts_nothing() {
    let mut ring: PlaybackRing<i16> = PlaybackRing::new(4, 0);
    ring.push_many(&[1, 2]);
    ring.push_many(&[3, 4]);
    assert_eq!(ring.len(), 4);
    assert_eq!(ring.pull_many(4), vec![1, 2, 3, 4]);
}

#[test]
fn ring_never_exceeds_its_capacity() {
    let mut ring: PlaybackRing<f32> = PlaybackRing::new(BUFFER_SAMPLES, 0.0);
    assert_eq!(ring.capacity(), 9600);
    let frame: Vec<f32> = (0..480).map(|i| i as f32).collect();
    for pushes in 1..=30usize {
        ring.push_many(&frame);
        assert_eq!(ring.len(), (pushes * 480).min(9600));
    }
    assert_eq!(ring.len(), 9600);
    assert_eq!(ring.pull_one(), 0.0);
    assert_eq!(ring.pull_one(), 1.0);
}

#[test]
fn ring_of_capacity_zero_holds_nothing() {
    let mut ring: PlaybackRing<i16> = PlaybackRing::new(0, -1);
    ring.push_many(&[1, 2, 3]);
    assert_eq!(ring.len(), 0);
    assert_eq!(ring.pull_one(), -1);
    assert_eq!(ring.silence(), -1);
}

#[test]
fn pull_many_pads_an_underrun_with_silence() {
    let mut ring: PlaybackRing<f32> = PlaybackRing::new(16, 0.0);
    ring.push_many(&[0.5, -0.5]);
    assert_eq!(ring.pull_many(5), vec![0.5, -0.5, 0.0, 0.0, 0.0]);
    assert_eq!(ring.len(), 0);
    ring.push_many(&[0.25, 0.75, 1.0]);
    assert_eq!(ring.pull_many(2), vec![0.25, 0.75]);
    assert_eq!(ring.len(), 1);
    assert_eq!(ring.pull_many(0), Vec::<f32>::new());
    assert_eq!(ring.len(), 1);
}

#[test]
fn playback_pulls_only_while_the_client_runs() {
    let mut ring: PlaybackRing<f32> = PlaybackRing::new(16, 0.0);
    ring.push_many(&[0.5, 0.25]);
    assert_eq!(playback(&mut ring, false, 3), None);
    assert_eq!(ring.len(), 2);
    assert_eq!(playback(&mut ring, true, 3), Some(vec![0.5, 0.25, 0.0]));
    assert_eq!(ring.len(), 0);
    assert_eq!(playback(&mut ring, true, 2), Some(vec![0.0, 0.0]));
}

#[test]
fn the_capacity_is_200_ms_of_audio() {
    assert_eq!(sample_capacity(SAMPLE_RATE, BUFFER_DURATION_MS), Some(BUFFER_SAMPLES));
    assert_eq!(sample_capacity(48000, 200), Some(9600));
    assert_eq!(sample_capacity(48000, 10), Some(480));
    assert_eq!(sample_capacity(44100, 15), Some(661));
    assert_eq!(sample_capacity(0, 200), Some(0));
    assert_eq!(sample_capacity(999, 1), Some(0));
    assert_eq!(
        sample_capacity(u32::MAX, u32::MAX),
        Some(18_446_744_065_119_617usize)
    );
}
