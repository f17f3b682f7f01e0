use sentiric_uac::SampleRing;

#[test]
fn a_full_queue_drops_the_newest_samples() {
    let mut ring = SampleRing::new(3);
    ring.enqueue(&[1, 2, 3, 4, 5]);
    assert_eq!(ring.len(), 3);
    assert_eq!(ring.drain(), vec![1, 2, 3]);
}

#[test]
fn samples_come_out_in_the_order_they_went_in() {
    let mut ring = SampleRing::new(8);
    ring.enqueue(&[10, 11]);
    ring.enqueue(&[12]);
    assert_eq!(ring.take_frame(2), Some(vec![10, 11]));
    ring.enqueue(&[13, 14]);
    assert_eq!(ring.drain(), vec![12, 13, 14]);
    assert_eq!(ring.len(), 0);
    assert_eq!(ring.drain(), Vec::<u32>::new());
}

#[test]
fn the_queue_wraps_around_its_storage() {
    let mut ring = SampleRing::new(3);
    for round in 0..10u32 {
        ring.enqueue(&[2 * round, 2 * round + 1]);
        assert_eq!(ring.drain(), vec![2 * round, 2 * round + 1]);
    }
}

#[test]
fn an_incomplete_frame_stays_in_the_queue() {
    let mut ring = SampleRing::new(4);
    ring.enqueue(&[1, 2]);
    assert_eq!(ring.take_frame(3), None);
    assert_eq!(ring.len(), 2);
    assert_eq!(ring.take_frame(0), Some(vec![]));
    assert_eq!(ring.take_frame(2), Some(vec![1, 2]));
}

#[test]
fn capture_of_one_channel_keeps_every_sample() {
    let mut ring = SampleRing::new(8);
    ring.capture(&[1, 2, 3], 1);
    assert_eq!(ring.drain(), vec![1, 2, 3]);
}

#[test]
fn capture_of_stereo_keeps_the_left_channel() {
    let mut ring = SampleRing::new(8);
    ring.capture(&[1, 101, 2, 102, 3, 103], 2);
    assert_eq!(ring.drain(), vec![1, 2, 3]);
}

#[test]
fn capture_takes_the_first_sample_of_an_incomplete_frame() {
    let mut ring = SampleRing::new(8);
    ring.capture(&[1, 101, 201, 2, 102], 3);
    assert_eq!(ring.drain(), vec![1, 2]);
    ring.capture(&[], 2);
    assert_eq!(ring.len(), 0);
}

#[test]
fn capture_drops_what_does_not_fit() {
    let mut ring = SampleRing::new(2);
    ring.capture(&[1, 101, 2, 102, 3, 103], 2);
    assert_eq!(ring.drain(), vec![1, 2]);
}

#[test]
fn render_repeats_a_sample_on_every_channel() {
    let mut ring = SampleRing::new(8);
    ring.enqueue(&[5, 6, 7]);
    assert_eq!(ring.render(4, 2), vec![5, 5, 6, 6]);
    assert_eq!(ring.drain(), vec![7]);
}

#[test]
fn render_plays_silence_once_the_queue_is_dry() {
    let mut ring = SampleRing::new(8);
    ring.enqueue(&[5]);
    assert_eq!(ring.render(5, 2), vec![5, 5, 0, 0, 0]);
    assert_eq!(ring.render(3, 1), vec![0, 0, 0]);
}

#[test]
fn render_of_an_incomplete_frame_takes_a_sample() {
    let mut ring = SampleRing::new(8);
    ring.enqueue(&[5, 6, 7]);
    assert_eq!(ring.render(3, 2), vec![5, 5, 6]);
    assert_eq!(ring.drain(), vec![7]);
}

#[test]
fn render_and_capture_over_the_same_channels_give_the_signal_back() {
    let mut speaker = SampleRing::new(8);
    speaker.enqueue(&[5, 6, 7]);
    let wide = speaker.render(9, 3);
    let mut microphone = SampleRing::new(8);
    microphone.capture(&wide, 3);
    assert_eq!(microphone.drain(), vec![5, 6, 7]);
}

#[test]
fn silence_is_the_bit_pattern_zero() {
    assert_eq!(0.0f32.to_bits(), 0);
    let mut ring = SampleRing::new(1);
    assert_eq!(f32::from_bits(ring.render(1, 1)[0]), 0.0);
}
