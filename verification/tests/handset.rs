use sentiric_uac::handset::{incoming, Handset, HandsetAction, HandsetEvent};

#[test]
fn microphone_audio_goes_out_numbered_from_zero() {
    let mut handset = Handset::new();
    for k in 0..3u32 {
        match handset.step(HandsetEvent::Paced(vec![1, 2, 3])) {
            HandsetAction::Encode(samples) => assert_eq!(samples, vec![1, 2, 3]),
            other => panic!("{:?}", other),
        }
        match handset.step(HandsetEvent::Payload(vec![9])) {
            HandsetAction::Send(packet) => {
                assert_eq!(packet.payload_type, 0);
                assert_eq!(u32::from(packet.sequence), k);
                assert_eq!(packet.timestamp, 160 * k);
                assert_eq!(packet.ssrc, handset.stream.ssrc);
                assert_eq!(packet.payload, vec![9]);
            }
            other => panic!("{:?}", other),
        }
        assert!(matches!(handset.step(HandsetEvent::Sent), HandsetAction::Receive));
        assert!(matches!(handset.step(HandsetEvent::Incoming(None)), HandsetAction::Pace));
    }
}

#[test]
fn a_silent_microphone_sends_nothing() {
    let mut handset = Handset::new();
    assert!(matches!(handset.step(HandsetEvent::Paced(vec![])), HandsetAction::Receive));
    assert_eq!(handset.stream.sequence, 0);
}

#[test]
fn an_empty_payload_sends_nothing() {
    let mut handset = Handset::new();
    handset.step(HandsetEvent::Paced(vec![1]));
    assert!(matches!(handset.step(HandsetEvent::Payload(vec![])), HandsetAction::Receive));
    assert_eq!(handset.stream.sequence, 0);
    assert_eq!(handset.stream.timestamp, 0);
}

#[test]
fn one_incoming_packet_is_played_per_packet_time() {
    let mut handset = Handset::new();
    handset.step(HandsetEvent::Paced(vec![]));
    match handset.step(HandsetEvent::Incoming(Some(vec![4, 5]))) {
        HandsetAction::Play(payload) => assert_eq!(payload, vec![4, 5]),
        other => panic!("{:?}", other),
    }
    assert!(matches!(handset.step(HandsetEvent::Played), HandsetAction::Pace));
}

#[test]
fn an_incoming_packet_brings_what_follows_its_header() {
    let datagram: Vec<u8> = (0..15).collect();
    match incoming(Some(datagram)) {
        HandsetEvent::Incoming(payload) => assert_eq!(payload, Some(vec![12, 13, 14])),
        other => panic!("{:?}", other),
    }
    for nothing in [None, Some(vec![]), Some(vec![0; 12])] {
        assert!(matches!(incoming(nothing), HandsetEvent::Incoming(None)));
    }
    assert!(matches!(incoming(Some(vec![7; 13])), HandsetEvent::Incoming(Some(p)) if p == [7]));
}

#[test]
fn a_handset_waits_for_one_kind_of_report() {
    let mut handset = Handset::new();
    assert!(handset.accepts(&HandsetEvent::Paced(vec![])));
    assert!(!handset.accepts(&HandsetEvent::Payload(vec![])));
    assert!(!handset.accepts(&HandsetEvent::Sent));
    assert!(!handset.accepts(&HandsetEvent::Incoming(None)));
    assert!(!handset.accepts(&HandsetEvent::Played));
    handset.step(HandsetEvent::Paced(vec![1]));
    assert!(handset.accepts(&HandsetEvent::Payload(vec![])));
}

#[test]
fn calls_have_drawn_sources() {
    let sources: Vec<u32> = (0..64).map(|_| Handset::new().stream.ssrc).collect();
    assert!(sources.iter().any(|s| *s != sources[0]));
}
