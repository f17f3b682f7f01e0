use sentiric_uac::rtp::{RtpFrame, RtpStream};
use sentiric_uac::session::{MediaAction, MediaEvent, MediaSession, MediaSource};
use sentiric_uac::RtpEngine;

fn running_engine() -> RtpEngine {
    let mut engine = RtpEngine::new(true);
    engine.start();
    engine
}

fn stream(samples: usize) -> RtpStream {
    RtpStream::new(Some(0), 65534, 1000, 77, samples)
}

/// Runs the opening of a session; the next report is the end of a packet time.
fn open(session: &mut MediaSession, engine: &mut RtpEngine) -> Vec<RtpFrame> {
    let mut packets = Vec::new();
    let mut action = session.step(engine, MediaEvent::Begin);
    loop {
        action = match action {
            MediaAction::EncodeSilence(frame) => {
                assert!(frame.iter().all(|s| *s == 0));
                session.step(engine, MediaEvent::Payload(vec![0xff; frame.len()]))
            }
            MediaAction::Punch(packet) => {
                packets.push(packet);
                session.step(engine, MediaEvent::Punched)
            }
            MediaAction::Pace => return packets,
            other => panic!("{:?}", other),
        }
    }
}

#[test]
fn ten_frames_of_silence_open_the_path() {
    let mut engine = running_engine();
    let mut session = MediaSession::new(MediaSource::Tone, stream(160));
    let packets = open(&mut session, &mut engine);
    assert_eq!(packets.len(), 10);
    for (k, packet) in packets.iter().enumerate() {
        assert_eq!(packet.sequence, 65534u16.wrapping_add(k as u16));
        assert_eq!(packet.timestamp, 1000 + 160 * k as u32);
        assert_eq!(packet.ssrc, 77);
        assert_eq!(packet.payload, vec![0xff; 160]);
    }
    assert_eq!(engine.tx_count, 0);
    assert_eq!(session.next_sequence(), 8);
}

#[test]
fn silence_goes_out_even_where_the_codec_made_nothing() {
    let mut engine = running_engine();
    let mut session = MediaSession::new(MediaSource::Tone, stream(160));
    session.step(&mut engine, MediaEvent::Begin);
    match session.step(&mut engine, MediaEvent::Payload(vec![])) {
        MediaAction::Punch(packet) => assert!(packet.payload.is_empty()),
        other => panic!("{:?}", other),
    }
    assert_eq!(session.next_sequence(), 65535);
}

#[test]
fn a_stopped_engine_ends_the_opening() {
    let mut engine = running_engine();
    let mut session = MediaSession::new(MediaSource::Tone, stream(160));
    session.step(&mut engine, MediaEvent::Begin);
    engine.stop();
    let action = session.step(&mut engine, MediaEvent::Payload(vec![1]));
    assert!(matches!(action, MediaAction::Punch(_)));
    assert!(matches!(session.step(&mut engine, MediaEvent::Punched), MediaAction::Finish));
    assert!(!session.accepts(&MediaEvent::Begin));
    assert!(!session.accepts(&MediaEvent::Punched));
    assert!(!session.accepts(&MediaEvent::Datagram(None)));
}

#[test]
fn an_engine_that_never_ran_sends_nothing() {
    let mut engine = RtpEngine::new(true);
    let mut session = MediaSession::new(MediaSource::Tone, stream(160));
    assert!(matches!(session.step(&mut engine, MediaEvent::Begin), MediaAction::Finish));
}

#[test]
fn the_tone_is_one_frame_per_packet_time() {
    let mut engine = running_engine();
    let mut session = MediaSession::new(MediaSource::Tone, stream(160));
    open(&mut session, &mut engine);
    assert!(matches!(session.step(&mut engine, MediaEvent::Paced), MediaAction::Synthesize(160)));
    let tone: Vec<i16> = (0..160).collect();
    match session.step(&mut engine, MediaEvent::Samples(tone.clone())) {
        MediaAction::Encode(frame) => assert_eq!(frame, tone),
        other => panic!("{:?}", other),
    }
    match session.step(&mut engine, MediaEvent::Payload(vec![1, 2])) {
        MediaAction::Transmit(packet) => {
            assert_eq!(packet.sequence, 8);
            assert_eq!(packet.timestamp, 1000 + 1600);
            assert_eq!(packet.payload, vec![1, 2]);
        }
        other => panic!("{:?}", other),
    }
    assert!(matches!(session.step(&mut engine, MediaEvent::Sent(true)), MediaAction::Receive));
    assert_eq!(engine.tx_count, 1);
    assert!(matches!(session.step(&mut engine, MediaEvent::Datagram(None)), MediaAction::Pace));
}

#[test]
fn a_lost_packet_is_numbered_but_not_counted() {
    let mut engine = running_engine();
    let mut session = MediaSession::new(MediaSource::Tone, stream(160));
    open(&mut session, &mut engine);
    session.step(&mut engine, MediaEvent::Paced);
    session.step(&mut engine, MediaEvent::Samples(vec![1]));
    session.step(&mut engine, MediaEvent::Payload(vec![1]));
    assert!(matches!(session.step(&mut engine, MediaEvent::Sent(false)), MediaAction::Receive));
    assert_eq!(engine.tx_count, 0);
    assert_eq!(session.next_sequence(), 9);
}

#[test]
fn an_empty_payload_is_not_sent() {
    let mut engine = running_engine();
    let mut session = MediaSession::new(MediaSource::Tone, stream(160));
    open(&mut session, &mut engine);
    session.step(&mut engine, MediaEvent::Paced);
    session.step(&mut engine, MediaEvent::Samples(vec![1]));
    let action = session.step(&mut engine, MediaEvent::Payload(vec![]));
    assert!(matches!(action, MediaAction::Receive));
    assert_eq!(session.next_sequence(), 8);
}

#[test]
fn the_microphone_is_cut_into_whole_frames() {
    let mut engine = running_engine();
    let source = MediaSource::Microphone { frame_size: 960 };
    let mut session = MediaSession::new(source, stream(2));
    open(&mut session, &mut engine);
    assert!(matches!(session.step(&mut engine, MediaEvent::Paced), MediaAction::Collect(960)));
    match session.step(&mut engine, MediaEvent::Collected(Some(vec![7, 8]))) {
        MediaAction::Resample(samples) => assert_eq!(samples, vec![7, 8]),
        other => panic!("{:?}", other),
    }
    match session.step(&mut engine, MediaEvent::Samples(vec![1, 2, 3, 4, 5])) {
        MediaAction::Encode(frame) => assert_eq!(frame, vec![1, 2]),
        other => panic!("{:?}", other),
    }
    // The codec makes nothing of the first frame; the second goes out in its place.
    match session.step(&mut engine, MediaEvent::Payload(vec![])) {
        MediaAction::Encode(frame) => assert_eq!(frame, vec![3, 4]),
        other => panic!("{:?}", other),
    }
    match session.step(&mut engine, MediaEvent::Payload(vec![9])) {
        MediaAction::Transmit(packet) => {
            assert_eq!(packet.sequence, 8);
            assert_eq!(packet.timestamp, 1020);
        }
        other => panic!("{:?}", other),
    }
    assert!(matches!(session.step(&mut engine, MediaEvent::Sent(true)), MediaAction::Receive));
    assert_eq!(engine.tx_count, 1);
}

#[test]
fn an_incomplete_microphone_frame_waits() {
    let mut engine = running_engine();
    let source = MediaSource::Microphone { frame_size: 960 };
    let mut session = MediaSession::new(source, stream(160));
    open(&mut session, &mut engine);
    session.step(&mut engine, MediaEvent::Paced);
    let action = session.step(&mut engine, MediaEvent::Collected(None));
    assert!(matches!(action, MediaAction::Receive));
}

#[test]
fn received_media_is_counted_and_played() {
    let mut engine = running_engine();
    let source = MediaSource::Microphone { frame_size: 960 };
    let mut session = MediaSession::new(source, stream(160));
    open(&mut session, &mut engine);
    session.step(&mut engine, MediaEvent::Paced);
    session.step(&mut engine, MediaEvent::Collected(None));
    let datagram: Vec<u8> = (0..14).collect();
    match session.step(&mut engine, MediaEvent::Datagram(Some(datagram))) {
        MediaAction::Play(payload) => assert_eq!(payload, vec![12, 13]),
        other => panic!("{:?}", other),
    }
    assert_eq!(engine.rx_count, 1);
    assert!(matches!(session.step(&mut engine, MediaEvent::Played), MediaAction::Receive));
    // A bare header is neither counted nor played.
    let action = session.step(&mut engine, MediaEvent::Datagram(Some(vec![0; 12])));
    assert!(matches!(action, MediaAction::Receive));
    assert_eq!(engine.rx_count, 1);
    engine.stop();
    assert!(matches!(session.step(&mut engine, MediaEvent::Datagram(None)), MediaAction::Finish));
}

#[test]
fn a_session_waits_for_one_kind_of_report() {
    let mut engine = running_engine();
    let mut session = MediaSession::new(MediaSource::Tone, stream(160));
    assert!(session.accepts(&MediaEvent::Begin));
    assert!(!session.accepts(&MediaEvent::Paced));
    session.step(&mut engine, MediaEvent::Begin);
    assert!(session.accepts(&MediaEvent::Payload(vec![])));
    assert!(!session.accepts(&MediaEvent::Begin));
    assert!(!session.accepts(&MediaEvent::Sent(true)));
    assert!(!session.accepts(&MediaEvent::Samples(vec![])));
    assert!(!session.accepts(&MediaEvent::Collected(None)));
    assert!(!session.accepts(&MediaEvent::Played));
}

#[test]
fn a_long_run_keeps_its_numbers_and_its_counts() {
    let mut engine = running_engine();
    let mut session = MediaSession::new(MediaSource::Tone, stream(160));
    let mut packets = open(&mut session, &mut engine);
    let mut played = 0;
    for round in 0..50u32 {
        session.step(&mut engine, MediaEvent::Paced);
        session.step(&mut engine, MediaEvent::Samples(vec![0; 160]));
        match session.step(&mut engine, MediaEvent::Payload(vec![round as u8])) {
            MediaAction::Transmit(packet) => packets.push(packet),
            other => panic!("{:?}", other),
        }
        session.step(&mut engine, MediaEvent::Sent(round % 5 != 0));
        if round % 2 == 0 {
            let action = session.step(&mut engine, MediaEvent::Datagram(Some(vec![0; 172])));
            assert!(matches!(action, MediaAction::Play(_)));
            played += 1;
            session.step(&mut engine, MediaEvent::Played);
        }
        let action = session.step(&mut engine, MediaEvent::Datagram(None));
        assert!(matches!(action, MediaAction::Pace));
    }
    assert_eq!(packets.len(), 60);
    for (k, packet) in packets.iter().enumerate() {
        assert_eq!(packet.sequence, 65534u16.wrapping_add(k as u16));
        assert_eq!(packet.timestamp, 1000 + 160 * k as u32);
    }
    assert_eq!(engine.sent(), 40);
    assert_eq!(engine.received(), played);
}
