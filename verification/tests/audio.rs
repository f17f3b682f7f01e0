use sentiric_uac::audio::{
    cut_frames, handset_capacity, require_devices, select_input, select_output, silence,
    AudioFault, HardwarePlan, StreamRange,
};

fn range(channels: u16, max_sample_rate: u32) -> StreamRange {
    StreamRange { channels, max_sample_rate }
}

#[test]
fn mono_is_preferred_even_after_stereo() {
    let ranges = [range(2, 48000), range(6, 48000), range(1, 16000), range(1, 44100)];
    assert!(matches!(select_input(&ranges), Ok(2)));
    assert!(matches!(select_output(&ranges), Ok(2)));
}

#[test]
fn the_first_stereo_range_stands_in_for_mono() {
    let ranges = [range(6, 48000), range(2, 48000), range(2, 44100)];
    assert!(matches!(select_input(&ranges), Ok(1)));
    assert!(matches!(select_output(&ranges), Ok(1)));
}

#[test]
fn other_channel_counts_are_refused() {
    let ranges = [range(6, 48000), range(0, 8000)];
    assert!(matches!(select_input(&ranges), Err(AudioFault::NoInputConfig)));
    assert!(matches!(select_output(&ranges), Err(AudioFault::NoOutputConfig)));
    assert!(matches!(select_input(&[]), Err(AudioFault::NoInputConfig)));
}

#[test]
fn faults_speak_plainly() {
    let cause = || "busy".to_string();
    assert_eq!(AudioFault::NoMicrophone.message(), "Microphone not found");
    assert_eq!(AudioFault::NoSpeaker.message(), "Speaker not found");
    assert_eq!(
        AudioFault::MicrophoneMissing.message(),
        "Microphone access denied or not found by OS"
    );
    assert_eq!(AudioFault::SpeakerMissing.message(), "Speaker access denied or not found by OS");
    assert_eq!(AudioFault::NoInputConfig.message(), "No supported input config found");
    assert_eq!(AudioFault::NoOutputConfig.message(), "No supported output config found");
    assert_eq!(AudioFault::InputStream(cause()).message(), "build_input_stream failed: busy");
    assert_eq!(AudioFault::OutputStream(cause()).message(), "build_output_stream failed: busy");
    assert_eq!(AudioFault::InputPlay(cause()).message(), "input_stream.play() failed: busy");
    assert_eq!(AudioFault::OutputPlay(cause()).message(), "output_stream.play() failed: busy");
    assert_eq!(AudioFault::Device(cause()).message(), "busy");
}

#[test]
fn a_missing_device_is_named() {
    for dialled in [false, true] {
        assert!(matches!(require_devices(dialled, true, true), Ok(())));
    }
    for speaker in [false, true] {
        let found = require_devices(true, false, speaker);
        assert!(matches!(found, Err(AudioFault::NoMicrophone)));
        let found = require_devices(false, false, speaker);
        assert!(matches!(found, Err(AudioFault::MicrophoneMissing)));
    }
    assert!(matches!(require_devices(true, true, false), Err(AudioFault::NoSpeaker)));
    assert!(matches!(require_devices(false, true, false), Err(AudioFault::SpeakerMissing)));
}

#[test]
fn a_plan_follows_the_chosen_ranges() {
    let plan = HardwarePlan::new(range(2, 48000), range(1, 44100), 20);
    assert_eq!(plan.in_channels, 2);
    assert_eq!(plan.out_channels, 1);
    assert_eq!(plan.in_rate, 48000);
    assert_eq!(plan.out_rate, 44100);
    assert_eq!(plan.frame_size, 960);
    assert_eq!(plan.mic_capacity, 192000);
    assert_eq!(plan.speaker_capacity, 176400);
    assert!(plan.frame_size <= plan.mic_capacity);
}

#[test]
fn a_frame_size_is_rounded_down() {
    assert_eq!(HardwarePlan::new(range(1, 11025), range(1, 8000), 20).frame_size, 220);
    assert_eq!(HardwarePlan::new(range(1, 22050), range(1, 8000), 1).frame_size, 22);
}

#[test]
fn a_dialled_call_queues_two_seconds() {
    assert_eq!(handset_capacity(48000), 96000);
}

#[test]
fn silence_is_all_zero() {
    assert_eq!(silence(4), vec![0i16; 4]);
    assert_eq!(silence(0), Vec::<i16>::new());
}

#[test]
fn frames_are_cut_in_order_and_the_rest_is_left_out() {
    let samples: Vec<i16> = (1..=8).collect();
    assert_eq!(cut_frames(&samples, 3), vec![vec![1, 2, 3], vec![4, 5, 6]]);
    assert_eq!(cut_frames(&samples, 4), vec![vec![1, 2, 3, 4], vec![5, 6, 7, 8]]);
    assert_eq!(cut_frames(&samples, 9), Vec::<Vec<i16>>::new());
}
