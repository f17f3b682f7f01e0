use sentiric_uac::call_audio::{AudioAction, AudioEvent, CallAudio};
use sentiric_uac::handset::{HandsetAction, HandsetEvent};

fn handset(audio: &mut CallAudio, event: HandsetEvent) -> HandsetAction {
    let event: AudioEvent<String> = AudioEvent::Handset(event);
    assert!(audio.accepts(&event));
    match audio.step(event) {
        AudioAction::Handset(action) => action,
        other => panic!("{:?}", other),
    }
}

#[test]
fn a_failed_set_up_fails_the_audio_with_its_error() {
    let mut audio = CallAudio::new();
    match audio.step(AudioEvent::SetUp(Err("no config".to_string()))) {
        AudioAction::Fail(cause) => assert_eq!(cause, "no config"),
        other => panic!("{:?}", other),
    }
    assert!(!audio.accepts(&AudioEvent::<String>::SetUp(Ok(()))));
    assert!(!audio.accepts(&AudioEvent::<String>::Handset(HandsetEvent::Paced(vec![]))));
}

#[test]
fn audio_that_was_set_up_goes_on() {
    let mut audio = CallAudio::new();
    let first = audio.step(AudioEvent::<String>::SetUp(Ok(())));
    assert!(matches!(first, AudioAction::Handset(HandsetAction::Pace)));
    for k in 0..100u32 {
        assert!(matches!(
            handset(&mut audio, HandsetEvent::Paced(vec![1])),
            HandsetAction::Encode(_)
        ));
        match handset(&mut audio, HandsetEvent::Payload(vec![2])) {
            HandsetAction::Send(packet) => {
                assert_eq!(u32::from(packet.sequence), k);
                assert_eq!(packet.timestamp, 160 * k);
            }
            other => panic!("{:?}", other),
        }
        assert!(matches!(handset(&mut audio, HandsetEvent::Sent), HandsetAction::Receive));
        assert!(matches!(handset(&mut audio, HandsetEvent::Incoming(None)), HandsetAction::Pace));
    }
}

#[test]
fn audio_waits_for_its_set_up() {
    let audio = CallAudio::new();
    assert!(audio.accepts(&AudioEvent::<String>::SetUp(Ok(()))));
    assert!(audio.accepts(&AudioEvent::SetUp(Err("busy".to_string()))));
    assert!(!audio.accepts(&AudioEvent::<String>::Handset(HandsetEvent::Paced(vec![]))));
}
