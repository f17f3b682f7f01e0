use sentiric_uac::audio::AudioFault;
use sentiric_uac::media_loop::{LoopAction, LoopEvent, MediaLoop, SoundPath};
use sentiric_uac::rtp::RtpStream;
use sentiric_uac::session::{MediaAction, MediaEvent, MediaSource};
use sentiric_uac::RtpEngine;

fn path(source: MediaSource, samples: usize) -> SoundPath {
    SoundPath { source, stream: RtpStream::new(Some(0), 7, 1000, 77, samples) }
}

fn running_engine() -> RtpEngine {
    let mut engine = RtpEngine::new(false);
    engine.start();
    engine
}

fn media(media: &mut MediaLoop, engine: &mut RtpEngine, event: MediaEvent) -> LoopAction {
    let event = LoopEvent::Media(event);
    assert!(media.accepts(&event));
    media.step(engine, event)
}

#[test]
fn a_failed_set_up_ends_the_loop_with_its_fault() {
    for (fault, words) in [
        (AudioFault::MicrophoneMissing, "Microphone access denied or not found by OS"),
        (AudioFault::NoOutputConfig, "No supported output config found"),
        (AudioFault::InputPlay("busy".to_string()), "input_stream.play() failed: busy"),
        (AudioFault::Device("no backend".to_string()), "no backend"),
    ] {
        let mut engine = running_engine();
        let mut media = MediaLoop::new();
        match media.step(&mut engine, LoopEvent::SetUp(Err(fault))) {
            LoopAction::End(result) => assert_eq!(result, Err(words.to_string())),
            other => panic!("{:?}", other),
        }
        assert_eq!((engine.sent(), engine.received()), (0, 0));
        assert!(engine.is_running());
        assert_eq!(media.next_sequence(), None);
        assert!(!media.accepts(&LoopEvent::SetUp(Err(AudioFault::NoInputConfig))));
        assert!(!media.accepts(&LoopEvent::Media(MediaEvent::Begin)));
    }
}

#[test]
fn a_loop_that_was_set_up_runs_and_ends_well() {
    let mut engine = running_engine();
    let mut looped = MediaLoop::new();
    let mut action = looped.step(&mut engine, LoopEvent::SetUp(Ok(path(MediaSource::Tone, 160))));
    for k in 0..10u16 {
        assert_eq!(looped.next_sequence(), Some(7 + k));
        match action {
            LoopAction::Media(MediaAction::EncodeSilence(frame)) => assert_eq!(frame, vec![0; 160]),
            other => panic!("{:?}", other),
        }
        match media(&mut looped, &mut engine, MediaEvent::Payload(vec![1])) {
            LoopAction::Media(MediaAction::Punch(packet)) => assert_eq!(packet.sequence, 7 + k),
            other => panic!("{:?}", other),
        }
        action = media(&mut looped, &mut engine, MediaEvent::Punched);
    }
    assert!(matches!(action, LoopAction::Media(MediaAction::Pace)));
    media(&mut looped, &mut engine, MediaEvent::Paced);
    media(&mut looped, &mut engine, MediaEvent::Samples(vec![1; 160]));
    media(&mut looped, &mut engine, MediaEvent::Payload(vec![2]));
    media(&mut looped, &mut engine, MediaEvent::Sent(true));
    media(&mut looped, &mut engine, MediaEvent::Datagram(Some(vec![0; 13])));
    media(&mut looped, &mut engine, MediaEvent::Played);
    assert_eq!((engine.sent(), engine.received()), (1, 1));
    engine.stop();
    let action = media(&mut looped, &mut engine, MediaEvent::Datagram(None));
    assert!(matches!(action, LoopAction::End(Ok(()))));
    assert!(!looped.accepts(&LoopEvent::Media(MediaEvent::Datagram(None))));
}

#[test]
fn a_loop_of_a_stopped_engine_ends_at_once() {
    let mut engine = RtpEngine::new(true);
    let mut looped = MediaLoop::new();
    let action = looped.step(&mut engine, LoopEvent::SetUp(Ok(path(MediaSource::Tone, 160))));
    assert!(matches!(action, LoopAction::End(Ok(()))));
}

#[test]
fn a_loop_waits_for_a_usable_set_up() {
    let looped = MediaLoop::new();
    let microphone = MediaSource::Microphone { frame_size: 960 };
    assert!(looped.accepts(&LoopEvent::SetUp(Ok(path(microphone, 160)))));
    assert!(!looped.accepts(&LoopEvent::SetUp(Ok(path(microphone, 0)))));
    assert!(looped.accepts(&LoopEvent::SetUp(Ok(path(MediaSource::Tone, 0)))));
    assert!(looped.accepts(&LoopEvent::SetUp(Err(AudioFault::NoInputConfig))));
    assert!(!looped.accepts(&LoopEvent::Media(MediaEvent::Begin)));
}

#[test]
fn a_stopped_tone_sends_one_more_packet() {
    let mut engine = running_engine();
    let mut looped = MediaLoop::new();
    looped.step(&mut engine, LoopEvent::SetUp(Ok(path(MediaSource::Tone, 160))));
    for _ in 0..10 {
        media(&mut looped, &mut engine, MediaEvent::Payload(vec![1]));
        media(&mut looped, &mut engine, MediaEvent::Punched);
    }
    engine.stop();
    media(&mut looped, &mut engine, MediaEvent::Paced);
    media(&mut looped, &mut engine, MediaEvent::Samples(vec![1; 160]));
    let action = media(&mut looped, &mut engine, MediaEvent::Payload(vec![2]));
    assert!(matches!(action, LoopAction::Media(MediaAction::Transmit(_))));
    let action = media(&mut looped, &mut engine, MediaEvent::Sent(true));
    assert!(matches!(action, LoopAction::Media(MediaAction::Receive)));
    let action = media(&mut looped, &mut engine, MediaEvent::Datagram(None));
    assert!(matches!(action, LoopAction::End(Ok(()))));
}
