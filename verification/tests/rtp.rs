use sentiric_uac::rtp::{media_payload, RtpStream};

#[test]
fn a_packet_carries_the_numbers_of_its_stream() {
    let mut stream = RtpStream::new(Some(8), 7, 1000, 42, 160);
    let frame = stream.stamp(vec![1, 2, 3]);
    assert_eq!(frame.payload_type, 8);
    assert_eq!(frame.sequence, 7);
    assert_eq!(frame.timestamp, 1000);
    assert_eq!(frame.ssrc, 42);
    assert_eq!(frame.payload, vec![1, 2, 3]);
    assert_eq!(stream, RtpStream::new(Some(8), 8, 1160, 42, 160));
}

#[test]
fn a_codec_without_a_declared_type_is_pcmu() {
    assert_eq!(RtpStream::new(None, 1, 2, 3, 4).payload_type, 0);
    assert_eq!(RtpStream::virtual_device(None, 160).payload_type, 0);
    assert_eq!(RtpStream::sound_device(None, 160).payload_type, 0);
}

#[test]
fn sequence_and_timestamp_wrap_around() {
    let mut stream = RtpStream::new(None, u16::MAX, u32::MAX - 100, 1, 160);
    stream.stamp(vec![]);
    assert_eq!(stream.sequence, 0);
    assert_eq!(stream.timestamp, 59);
}

#[test]
fn consecutive_packets_are_one_frame_apart() {
    let mut stream = RtpStream::new(None, 65530, 5, 1, 80);
    for k in 0..20u32 {
        let frame = stream.stamp(vec![0]);
        assert_eq!(frame.sequence, 65530u16.wrapping_add(k as u16));
        assert_eq!(frame.timestamp, 5 + 80 * k);
    }
}

#[test]
fn the_virtual_device_has_a_fixed_source() {
    let stream = RtpStream::virtual_device(Some(9), 80);
    assert_eq!(stream.ssrc, 0xDEADBEEF);
    assert_eq!(stream.payload_type, 9);
    assert_eq!(stream.samples_per_frame, 80);
}

#[test]
fn streams_start_with_drawn_numbers() {
    let mut sequences = Vec::new();
    let mut timestamps = Vec::new();
    let mut sources = Vec::new();
    for _ in 0..64 {
        let stream = RtpStream::sound_device(Some(0), 160);
        assert_eq!(stream.samples_per_frame, 160);
        sequences.push(stream.sequence);
        timestamps.push(stream.timestamp);
        sources.push(stream.ssrc);
    }
    assert!(sequences.iter().any(|s| *s != sequences[0]));
    assert!(timestamps.iter().any(|t| *t != timestamps[0]));
    assert!(sources.iter().any(|s| *s != sources[0]));
}

#[test]
fn a_dialled_call_counts_from_zero() {
    let mut stream = RtpStream::handset();
    let first = stream.stamp(vec![1]);
    let second = stream.stamp(vec![2]);
    assert_eq!((first.payload_type, first.sequence, first.timestamp), (0, 0, 0));
    assert_eq!((second.payload_type, second.sequence, second.timestamp), (0, 1, 160));
    assert_eq!(first.ssrc, second.ssrc);
}

#[test]
fn the_payload_follows_the_header() {
    let datagram: Vec<u8> = (0..20).collect();
    assert_eq!(media_payload(&datagram), Some(vec![12, 13, 14, 15, 16, 17, 18, 19]));
    assert_eq!(media_payload(&datagram[..13]), Some(vec![12]));
}

#[test]
fn a_datagram_of_header_length_has_no_payload() {
    assert_eq!(media_payload(&[0; 12]), None);
    assert_eq!(media_payload(&[]), None);
}
