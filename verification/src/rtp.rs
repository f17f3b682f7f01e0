//! The numbering of outgoing RTP packets and the payload of incoming ones.

use vstd::prelude::*;

use crate::random::{random_u16, random_u32};

verus! {

/// The length of the fixed RTP header.
pub const HEADER_LEN: usize = 12;

/// The synchronisation source of the virtual sound device.
pub const VIRTUAL_SSRC: u32 = 0xDEAD_BEEF;

/// The payload type of PCMU, and the one used where a codec declares none.
pub const PCMU: u8 = 0;

/// The samples in a PCMU frame of 20 ms.
pub const PCMU_FRAME: usize = 160;

/// An outgoing RTP packet: its header fields and its payload.
#[derive(Debug)]
pub struct RtpFrame {
    pub payload_type: u8,
    pub sequence: u16,
    pub timestamp: u32,
    pub ssrc: u32,
    pub payload: Vec<u8>,
}

/// The content of an [`RtpFrame`].
#[verifier::ext_equal]
pub ghost struct Packet {
    pub payload_type: u8,
    pub sequence: u16,
    pub timestamp: u32,
    pub ssrc: u32,
    pub payload: Seq<u8>,
}

impl View for RtpFrame {
    type V = Packet;

    open spec fn view(&self) -> Packet {
        Packet {
            payload_type: self.payload_type,
            sequence: self.sequence,
            timestamp: self.timestamp,
            ssrc: self.ssrc,
            payload: self.payload@,
        }
    }
}

/// The header fields of the next packet of an outgoing stream.
#[derive(Debug, Clone, Copy, PartialEq, Eq, Structural)]
pub struct RtpStream {
    pub payload_type: u8,
    pub sequence: u16,
    pub timestamp: u32,
    pub ssrc: u32,
    pub samples_per_frame: usize,
}

/// `start + steps` as a 16-bit counter shows it.
pub open spec fn counted16(start: u16, steps: nat) -> u16 {
    ((start + steps) % 0x1_0000) as u16
}

/// `start + steps` as a 32-bit counter shows it.
pub open spec fn counted32(start: u32, steps: nat) -> u32 {
    ((start + steps) % 0x1_0000_0000) as u32
}

impl RtpStream {
    /// The stream after `k` more packets: the sequence number grows by one and the
    /// timestamp by the samples of a frame with each, both wrapping around.
    pub open spec fn advanced(self, k: nat) -> RtpStream {
        RtpStream {
            sequence: counted16(self.sequence, k),
            timestamp: counted32(self.timestamp, k * self.samples_per_frame as nat),
            ..self
        }
    }

    /// The next packet, with the given payload.
    pub open spec fn packet(self, payload: Seq<u8>) -> Packet {
        Packet {
            payload_type: self.payload_type,
            sequence: self.sequence,
            timestamp: self.timestamp,
            ssrc: self.ssrc,
            payload,
        }
    }

    /// A stream that starts with the given numbers. A codec without a declared payload
    /// type goes out as PCMU.
    pub fn new(
        declared_type: Option<u8>,
        sequence: u16,
        timestamp: u32,
        ssrc: u32,
        samples_per_frame: usize,
    ) -> (stream: Self)
        ensures
            stream == (RtpStream {
                payload_type: match declared_type {
                    Some(payload_type) => payload_type,
                    None => 0,
                },
                sequence,
                timestamp,
                ssrc,
                samples_per_frame,
            }),
    {
        let payload_type = match declared_type {
            Some(payload_type) => payload_type,
            None => PCMU,
        };
        RtpStream { payload_type, sequence, timestamp, ssrc, samples_per_frame }
    }

    /// The stream of the virtual sound device: random first numbers, a fixed source.
    pub fn virtual_device(declared_type: Option<u8>, samples_per_frame: usize) -> (stream: Self)
        ensures
            stream.payload_type == (match declared_type {
                Some(payload_type) => payload_type,
                None => 0,
            }),
            stream.ssrc == 0xDEAD_BEEF,
            stream.samples_per_frame == samples_per_frame,
    {
        let sequence = random_u16();
        let timestamp = random_u32();
        Self::new(declared_type, sequence, timestamp, VIRTUAL_SSRC, samples_per_frame)
    }

    /// The stream of a real sound device: random first numbers and a random source.
    pub fn sound_device(declared_type: Option<u8>, samples_per_frame: usize) -> (stream: Self)
        ensures
            stream.payload_type == (match declared_type {
                Some(payload_type) => payload_type,
                None => 0,
            }),
            stream.samples_per_frame == samples_per_frame,
    {
        let sequence = random_u16();
        let timestamp = random_u32();
        let ssrc = random_u32();
        Self::new(declared_type, sequence, timestamp, ssrc, samples_per_frame)
    }

    /// The PCMU stream of a dialled call: it counts from zero, with a random source.
    pub fn handset() -> (stream: Self)
        ensures
            stream.payload_type == 0,
            stream.sequence == 0,
            stream.timestamp == 0,
            stream.samples_per_frame == 160,
    {
        let ssrc = random_u32();
        Self::new(Some(PCMU), 0, 0, ssrc, PCMU_FRAME)
    }

    /// Makes the next packet and moves the stream on.
    pub fn stamp(&mut self, payload: Vec<u8>) -> (frame: RtpFrame)
        ensures
            frame@ == old(self).packet(payload@),
            *final(self) == old(self).advanced(1),
    {
        let frame = RtpFrame {
            payload_type: self.payload_type,
            sequence: self.sequence,
            timestamp: self.timestamp,
            ssrc: self.ssrc,
            payload,
        };
        let samples: u64 = self.samples_per_frame as u64;
        let step: u32 = #[verifier::truncate]
        (samples as u32);
        assert(samples as u32 == samples % 0x1_0000_0000) by (bit_vector);
        self.sequence = self.sequence.wrapping_add(1);
        self.timestamp = self.timestamp.wrapping_add(step);
        proof {
            vstd::arithmetic::div_mod::lemma_add_mod_noop(
                old(self).timestamp as int,
                samples as int,
                0x1_0000_0000,
            );
        }
        frame
    }
}

/// The payload of a received datagram: what follows the fixed header. A datagram that
/// is no longer than the header carries none.
pub fn media_payload(datagram: &[u8]) -> (payload: Option<Vec<u8>>)
    ensures
        match payload {
            Some(bytes) => {
                &&& datagram@.len() > 12
                &&& bytes@ == datagram@.skip(12)
            },
            None => datagram@.len() <= 12,
        },
{
    let len: usize = datagram.len();
    if len > HEADER_LEN {
        let mut bytes: Vec<u8> = Vec::with_capacity(len - HEADER_LEN);
        let mut i: usize = HEADER_LEN;
        while i < len
            invariant
                len == datagram@.len(),
                HEADER_LEN <= i <= len,
                bytes@ =~= datagram@.subrange(12, i as int),
            decreases len - i,
        {
            bytes.push(datagram[i]);
            i = i + 1;
        }
        assert(bytes@ =~= datagram@.skip(12));
        Some(bytes)
    } else {
        None
    }
}

/// Packets are numbered one after the other: moving on by `j` and then by `k` packets
/// is moving on by `j + k`.
pub proof fn advances_add_up(stream: RtpStream, j: nat, k: nat)
    ensures
        stream.advanced(j).advanced(k) == stream.advanced(j + k),
{
    let n = stream.samples_per_frame as nat;
    assert((j + k) * n == j * n + k * n) by (nonlinear_arith);
    lemma_counted16_adds_up(stream.sequence, j, k);
    lemma_counted32_adds_up(stream.timestamp, j * n, k * n);
}

/// A 16-bit counter that moves on by `j` and then by `k` moves on by `j + k`.
proof fn lemma_counted16_adds_up(start: u16, j: nat, k: nat)
    ensures
        counted16(counted16(start, j), k) == counted16(start, j + k),
{
    vstd::arithmetic::div_mod::lemma_add_mod_noop_right(k as int, start + j, 0x1_0000);
}

/// A 32-bit counter that moves on by `j` and then by `k` moves on by `j + k`.
proof fn lemma_counted32_adds_up(start: u32, j: nat, k: nat)
    ensures
        counted32(counted32(start, j), k) == counted32(start, j + k),
{
    vstd::arithmetic::div_mod::lemma_add_mod_noop_right(k as int, start + j, 0x1_0000_0000);
}

/// No two of 65536 consecutive packets share a sequence number.
pub proof fn sequence_numbers_are_distinct(stream: RtpStream, j: nat, k: nat)
    requires
        j < k < j + 0x1_0000,
    ensures
        stream.advanced(j).sequence != stream.advanced(k).sequence,
{
}

/// A packet carries the numbers of its stream and the payload that it was made for, byte
/// for byte. The next packet has the next sequence number, which follows 65535 with 0,
/// and is later by the samples of a frame, on a clock of 32 bits. Nothing else changes.
pub proof fn packets_carry_their_payload(stream: RtpStream, payload: Seq<u8>)
    ensures
        stream.packet(payload).payload.len() == payload.len(),
        forall|i: int|
            0 <= i < payload.len() ==> #[trigger] stream.packet(payload).payload[i] == payload[i],
        stream.packet(payload).payload_type == stream.payload_type,
        stream.packet(payload).sequence == stream.sequence,
        stream.packet(payload).timestamp == stream.timestamp,
        stream.packet(payload).ssrc == stream.ssrc,
        stream.advanced(1).sequence == if stream.sequence == 65535 {
            0
        } else {
            stream.sequence + 1
        },
        (stream.advanced(1).timestamp - stream.timestamp - stream.samples_per_frame)
            % 0x1_0000_0000 == 0,
        stream.advanced(1).payload_type == stream.payload_type,
        stream.advanced(1).ssrc == stream.ssrc,
        stream.advanced(1).samples_per_frame == stream.samples_per_frame,
        stream.advanced(0) == stream,
{
    let total = stream.timestamp + stream.samples_per_frame;
    vstd::arithmetic::div_mod::lemma_fundamental_div_mod(total, 0x1_0000_0000);
    vstd::arithmetic::div_mod::lemma_mod_multiples_vanish(
        -(total / 0x1_0000_0000),
        0,
        0x1_0000_0000,
    );
    assert(stream.advanced(1).timestamp - total == 0x1_0000_0000 * (-(total / 0x1_0000_0000)) + 0);
}

} // verus!
