//! The session of a media loop, as a state machine.
//!
//! The session opens the path through a NAT with frames of silence. Then, once per packet
//! time, it sends the audio that its source has ready and plays the datagrams that have
//! come in. Whoever drives the session performs the [`MediaAction`] that it asks for
//! and reports the [`MediaEvent`] that came of it.

use vstd::prelude::*;

use crate::audio::{cut_frames, silence, silent, whole_frames};
use crate::engine::RtpEngine;
use crate::rtp::{media_payload, Packet, RtpFrame, RtpStream};

verus! {

/// The number of silent frames that open the path through a NAT.
pub const PUNCH_FRAMES: usize = 10;

/// How long the driver rests after a packet that opens the path, in milliseconds.
pub const PUNCH_REST_MS: u64 = 20;

/// Where the outgoing audio comes from.
#[derive(Debug, Clone, Copy, PartialEq, Eq, Structural)]
pub enum MediaSource {
    /// A synthetic tone: one frame per packet time.
    Tone,
    /// A microphone that delivers `frame_size` samples per packet time.
    Microphone { frame_size: usize },
}

/// Which report the session waits for.
#[derive(Debug, Clone, Copy, PartialEq, Eq, Structural)]
pub enum MediaPhase {
    Ready,
    SilenceEncoding,
    Punching,
    Pacing,
    Collecting,
    Sampling,
    Encoding,
    Sending,
    Receiving,
    Playing,
    Finished,
}

/// What the driver of a session is to do next.
#[derive(Debug)]
pub enum MediaAction {
    /// Encode this frame of silence.
    EncodeSilence(Vec<i16>),
    /// Send this packet, whatever comes of it, and rest for [`PUNCH_REST_MS`].
    Punch(RtpFrame),
    /// Wait for the next packet time.
    Pace,
    /// Synthesise this many samples of tone.
    Synthesize(usize),
    /// Take a frame of this many samples from the microphone queue.
    Collect(usize),
    /// Bring these microphone samples to the codec's rate.
    Resample(Vec<u32>),
    /// Encode this frame.
    Encode(Vec<i16>),
    /// Send this packet.
    Transmit(RtpFrame),
    /// Receive a datagram without waiting.
    Receive,
    /// Decode this payload and play it.
    Play(Vec<u8>),
    /// The session is over.
    Finish,
}

/// What came of a [`MediaAction`].
#[derive(Debug)]
pub enum MediaEvent {
    /// The driver is ready for the first action.
    Begin,
    /// The codec's output for a frame.
    Payload(Vec<u8>),
    /// A packet for the NAT has gone out, and the rest is over.
    Punched,
    /// The packet time is over.
    Paced,
    /// A frame from the microphone queue, where one was complete.
    Collected(Option<Vec<u32>>),
    /// Samples at the codec's rate.
    Samples(Vec<i16>),
    /// Whether the packet was sent.
    Sent(bool),
    /// A received datagram, or none where nothing could be received.
    Datagram(Option<Vec<u8>>),
    /// The payload was played.
    Played,
}

/// The content of a [`MediaAction`].
pub ghost enum Work {
    EncodeSilence(Seq<i16>),
    Punch(Packet),
    Pace,
    Synthesize(nat),
    Collect(nat),
    Resample(Seq<u32>),
    Encode(Seq<i16>),
    Transmit(Packet),
    Receive,
    Play(Seq<u8>),
    Finish,
}

/// The content of a [`MediaEvent`].
pub ghost enum Report {
    Begin,
    Payload(Seq<u8>),
    Punched,
    Paced,
    Collected(Option<Seq<u32>>),
    Samples(Seq<i16>),
    Sent(bool),
    Datagram(Option<Seq<u8>>),
    Played,
}

impl View for MediaAction {
    type V = Work;

    open spec fn view(&self) -> Work {
        match self {
            MediaAction::EncodeSilence(frame) => Work::EncodeSilence(frame@),
            MediaAction::Punch(packet) => Work::Punch(packet@),
            MediaAction::Pace => Work::Pace,
            MediaAction::Synthesize(n) => Work::Synthesize(*n as nat),
            MediaAction::Collect(n) => Work::Collect(*n as nat),
            MediaAction::Resample(samples) => Work::Resample(samples@),
            MediaAction::Encode(frame) => Work::Encode(frame@),
            MediaAction::Transmit(packet) => Work::Transmit(packet@),
            MediaAction::Receive => Work::Receive,
            MediaAction::Play(payload) => Work::Play(payload@),
            MediaAction::Finish => Work::Finish,
        }
    }
}

impl View for MediaEvent {
    type V = Report;

    open spec fn view(&self) -> Report {
        match self {
            MediaEvent::Begin => Report::Begin,
            MediaEvent::Payload(payload) => Report::Payload(payload@),
            MediaEvent::Punched => Report::Punched,
            MediaEvent::Paced => Report::Paced,
            MediaEvent::Collected(Some(samples)) => Report::Collected(Some(samples@)),
            MediaEvent::Collected(None) => Report::Collected(None),
            MediaEvent::Samples(samples) => Report::Samples(samples@),
            MediaEvent::Sent(done) => Report::Sent(*done),
            MediaEvent::Datagram(Some(bytes)) => Report::Datagram(Some(bytes@)),
            MediaEvent::Datagram(None) => Report::Datagram(None),
            MediaEvent::Played => Report::Played,
        }
    }
}

/// The state of a [`MediaSession`].
#[verifier::ext_equal]
pub ghost struct Session {
    pub source: MediaSource,
    pub stream: RtpStream,
    pub phase: MediaPhase,
    /// The silent frames that have gone out.
    pub punched: nat,
    /// The frames that wait to be encoded.
    pub frames: Seq<Seq<i16>>,
}

/// A session in this phase still opens the path through the NAT.
pub open spec fn opens_path(phase: MediaPhase) -> bool {
    ||| phase == MediaPhase::Ready
    ||| phase == MediaPhase::SilenceEncoding
    ||| phase == MediaPhase::Punching
}

/// A session together with what it asks for and what it counted.
pub ghost struct Turn {
    pub session: Session,
    pub work: Work,
    pub sent: nat,
    pub received: nat,
}

impl Session {
    /// A session that has not begun.
    pub open spec fn fresh(source: MediaSource, stream: RtpStream) -> Session {
        Session {
            source,
            stream,
            phase: MediaPhase::Ready,
            punched: 0,
            frames: Seq::empty(),
        }
    }

    /// No more silent frames go out than open the path, all of them have gone out before
    /// anything else is done, frames wait only while audio is being sent, a tone leaves none
    /// waiting, and microphone audio is cut into frames that are not empty.
    pub open spec fn wf(self) -> bool {
        &&& self.frames.len() > 0 ==> self.phase == MediaPhase::Encoding || self.phase
            == MediaPhase::Sending
        &&& self.source is Tone ==> self.frames.len() == 0
        &&& self.punched <= PUNCH_FRAMES
        &&& self.phase == MediaPhase::Ready ==> self.punched == 0
        &&& self.phase == MediaPhase::SilenceEncoding ==> self.punched < PUNCH_FRAMES
        &&& !opens_path(self.phase) && self.phase != MediaPhase::Finished ==> self.punched
            == PUNCH_FRAMES
        &&& self.source is Microphone ==> 0 < self.stream.samples_per_frame
    }

    /// The report is one that the session waits for.
    pub open spec fn awaits(self, report: Report) -> bool {
        match report {
            Report::Begin => self.phase == MediaPhase::Ready,
            Report::Payload(_) => self.phase == MediaPhase::SilenceEncoding || self.phase
                == MediaPhase::Encoding,
            Report::Punched => self.phase == MediaPhase::Punching,
            Report::Paced => self.phase == MediaPhase::Pacing,
            Report::Collected(_) => self.phase == MediaPhase::Collecting,
            Report::Samples(_) => self.phase == MediaPhase::Sampling,
            Report::Sent(_) => self.phase == MediaPhase::Sending,
            Report::Datagram(_) => self.phase == MediaPhase::Receiving,
            Report::Played => self.phase == MediaPhase::Playing,
        }
    }

    /// The session asks for `work` and waits in `phase`; nothing is counted.
    pub open spec fn asks(self, phase: MediaPhase, work: Work) -> Turn {
        Turn { session: Session { phase, ..self }, work, sent: 0, received: 0 }
    }

    /// A new packet time, unless the engine was stopped.
    pub open spec fn next_round(self, running: bool) -> Turn {
        if running {
            self.asks(MediaPhase::Pacing, Work::Pace)
        } else {
            self.asks(MediaPhase::Finished, Work::Finish)
        }
    }

    /// The next silent frame, as long as some are owed and the engine runs.
    pub open spec fn next_punch(self, running: bool) -> Turn {
        if running && self.punched < PUNCH_FRAMES {
            self.asks(
                MediaPhase::SilenceEncoding,
                Work::EncodeSilence(silent(self.stream.samples_per_frame as nat)),
            )
        } else {
            self.next_round(running)
        }
    }

    /// The next frame that waits to be encoded; without one the session turns to
    /// receiving.
    pub open spec fn next_frame(self) -> Turn {
        if self.frames.len() > 0 {
            (Session { frames: self.frames.drop_first(), ..self }).asks(
                MediaPhase::Encoding,
                Work::Encode(self.frames[0]),
            )
        } else {
            self.asks(MediaPhase::Receiving, Work::Receive)
        }
    }

    /// The frames that samples at the codec's rate make: the tone is one frame, the
    /// microphone is cut into whole frames.
    pub open spec fn frames_of(self, samples: Seq<i16>) -> Seq<Seq<i16>> {
        match self.source {
            MediaSource::Tone => seq![samples],
            MediaSource::Microphone { .. } => whole_frames(
                samples,
                self.stream.samples_per_frame as nat,
            ),
        }
    }

    /// What the session does on a report, where `running` says whether the engine still
    /// runs.
    pub open spec fn on(self, running: bool, report: Report) -> Turn {
        match report {
            Report::Begin => self.next_punch(running),
            Report::Payload(payload) => if self.phase == MediaPhase::SilenceEncoding {
                // Silence goes out even where the codec made nothing of it.
                (Session {
                    stream: self.stream.advanced(1),
                    punched: self.punched + 1,
                    ..self
                }).asks(MediaPhase::Punching, Work::Punch(self.stream.packet(payload)))
            } else if payload.len() == 0 {
                self.next_frame()
            } else {
                (Session { stream: self.stream.advanced(1), ..self }).asks(
                    MediaPhase::Sending,
                    Work::Transmit(self.stream.packet(payload)),
                )
            },
            Report::Punched => self.next_punch(running),
            Report::Paced => match self.source {
                MediaSource::Tone => self.asks(
                    MediaPhase::Sampling,
                    Work::Synthesize(self.stream.samples_per_frame as nat),
                ),
                MediaSource::Microphone { frame_size } => self.asks(
                    MediaPhase::Collecting,
                    Work::Collect(frame_size as nat),
                ),
            },
            Report::Collected(None) => self.asks(MediaPhase::Receiving, Work::Receive),
            Report::Collected(Some(samples)) => self.asks(
                MediaPhase::Sampling,
                Work::Resample(samples),
            ),
            Report::Samples(samples) => (Session {
                frames: self.frames_of(samples),
                ..self
            }).next_frame(),
            Report::Sent(done) => Turn {
                sent: if done {
                    1
                } else {
                    0
                },
                ..self.next_frame()
            },
            Report::Datagram(None) => self.next_round(running),
            Report::Datagram(Some(bytes)) => if bytes.len() > 12 {
                Turn {
                    received: 1,
                    ..self.asks(MediaPhase::Playing, Work::Play(bytes.skip(12)))
                }
            } else {
                self.asks(MediaPhase::Receiving, Work::Receive)
            },
            Report::Played => self.asks(MediaPhase::Receiving, Work::Receive),
        }
    }
}

/// The session of one run of a media loop.
#[derive(Debug)]
pub struct MediaSession {
    source: MediaSource,
    stream: RtpStream,
    phase: MediaPhase,
    punched: usize,
    frames: Vec<Vec<i16>>,
}

/// The frames in a list of frames.
pub open spec fn frame_views(frames: Seq<Vec<i16>>) -> Seq<Seq<i16>> {
    Seq::new(frames.len(), |i: int| frames[i]@)
}

impl View for MediaSession {
    type V = Session;

    closed spec fn view(&self) -> Session {
        Session {
            source: self.source,
            stream: self.stream,
            phase: self.phase,
            punched: self.punched as nat,
            frames: frame_views(self.frames@),
        }
    }
}

impl MediaSession {
    /// A session that has not begun.
    pub fn new(source: MediaSource, stream: RtpStream) -> (session: Self)
        requires
            source is Microphone ==> 0 < stream.samples_per_frame,
        ensures
            session@.wf(),
            session@ == Session::fresh(source, stream),
    {
        let session = MediaSession {
            source,
            stream,
            phase: MediaPhase::Ready,
            punched: 0,
            frames: Vec::new(),
        };
        assert(frame_views(session.frames@) =~= Seq::empty());
        session
    }

    /// The sequence number of the next packet.
    pub fn next_sequence(&self) -> (sequence: u16)
        ensures
            sequence == self@.stream.sequence,
    {
        self.stream.sequence
    }

    /// Whether the report is one that the session waits for.
    pub fn accepts(&self, event: &MediaEvent) -> (yes: bool)
        ensures
            yes == self@.awaits(event@),
    {
        match event {
            MediaEvent::Begin => self.phase == MediaPhase::Ready,
            MediaEvent::Payload(_) => self.phase == MediaPhase::SilenceEncoding || self.phase
                == MediaPhase::Encoding,
            MediaEvent::Punched => self.phase == MediaPhase::Punching,
            MediaEvent::Paced => self.phase == MediaPhase::Pacing,
            MediaEvent::Collected(_) => self.phase == MediaPhase::Collecting,
            MediaEvent::Samples(_) => self.phase == MediaPhase::Sampling,
            MediaEvent::Sent(_) => self.phase == MediaPhase::Sending,
            MediaEvent::Datagram(_) => self.phase == MediaPhase::Receiving,
            MediaEvent::Played => self.phase == MediaPhase::Playing,
        }
    }

    /// Takes the report and says what to do next. The engine says whether to go on, and
    /// counts the packets that were sent and received.
    pub fn step(&mut self, engine: &mut RtpEngine, event: MediaEvent) -> (action: MediaAction)
        requires
            old(self)@.wf(),
            old(self)@.awaits(event@),
        ensures
            final(self)@.wf(),
            ({
                let turn = old(self)@.on(old(engine)@.running, event@);
                &&& final(self)@ == turn.session
                &&& action@ == turn.work
                &&& final(engine)@ == old(engine)@.counted(turn.sent, turn.received)
            }),
    {
        let running = engine.is_running();
        match event {
            MediaEvent::Begin => self.punch_or_go_on(running),
            MediaEvent::Payload(payload) => if self.phase == MediaPhase::SilenceEncoding {
                self.punched = self.punched + 1;
                self.phase = MediaPhase::Punching;
                MediaAction::Punch(self.stream.stamp(payload))
            } else if payload.len() == 0 {
                self.encode_or_receive()
            } else {
                self.phase = MediaPhase::Sending;
                MediaAction::Transmit(self.stream.stamp(payload))
            },
            MediaEvent::Punched => self.punch_or_go_on(running),
            MediaEvent::Paced => match self.source {
                MediaSource::Tone => {
                    self.phase = MediaPhase::Sampling;
                    MediaAction::Synthesize(self.stream.samples_per_frame)
                },
                MediaSource::Microphone { frame_size } => {
                    self.phase = MediaPhase::Collecting;
                    MediaAction::Collect(frame_size)
                },
            },
            MediaEvent::Collected(None) => self.receive(),
            MediaEvent::Collected(Some(samples)) => {
                self.phase = MediaPhase::Sampling;
                MediaAction::Resample(samples)
            },
            MediaEvent::Samples(samples) => {
                match self.source {
                    MediaSource::Tone => {
                        let mut frames: Vec<Vec<i16>> = Vec::new();
                        frames.push(samples);
                        self.frames = frames;
                    },
                    MediaSource::Microphone { .. } => {
                        self.frames = cut_frames(&samples, self.stream.samples_per_frame);
                    },
                }
                assert(self@.frames =~= old(self)@.frames_of(event@->Samples_0));
                self.encode_or_receive()
            },
            MediaEvent::Sent(done) => {
                if done {
                    engine.count_sent();
                }
                self.encode_or_receive()
            },
            MediaEvent::Datagram(None) => self.go_on(running),
            MediaEvent::Datagram(Some(bytes)) => match media_payload(bytes.as_slice()) {
                Some(payload) => {
                    engine.count_received();
                    self.phase = MediaPhase::Playing;
                    MediaAction::Play(payload)
                },
                None => self.receive(),
            },
            MediaEvent::Played => self.receive(),
        }
    }

    /// Asks for the next silent frame or turns to the packet times.
    fn punch_or_go_on(&mut self, running: bool) -> (action: MediaAction)
        ensures
            final(self)@ == old(self)@.next_punch(running).session,
            action@ == old(self)@.next_punch(running).work,
    {
        if running && self.punched < PUNCH_FRAMES {
            self.phase = MediaPhase::SilenceEncoding;
            MediaAction::EncodeSilence(silence(self.stream.samples_per_frame))
        } else {
            self.go_on(running)
        }
    }

    /// Asks for the next packet time or ends.
    fn go_on(&mut self, running: bool) -> (action: MediaAction)
        ensures
            final(self)@ == old(self)@.next_round(running).session,
            action@ == old(self)@.next_round(running).work,
    {
        if running {
            self.phase = MediaPhase::Pacing;
            MediaAction::Pace
        } else {
            self.phase = MediaPhase::Finished;
            MediaAction::Finish
        }
    }

    /// Asks for the next frame to be encoded or turns to receiving.
    fn encode_or_receive(&mut self) -> (action: MediaAction)
        ensures
            final(self)@ == old(self)@.next_frame().session,
            action@ == old(self)@.next_frame().work,
    {
        if self.frames.len() > 0 {
            let frame = self.frames.remove(0);
            self.phase = MediaPhase::Encoding;
            assert(self@.frames =~= old(self)@.frames.drop_first());
            MediaAction::Encode(frame)
        } else {
            self.receive()
        }
    }

    /// Turns to receiving.
    fn receive(&mut self) -> (action: MediaAction)
        ensures
            final(self)@ == (Session { phase: MediaPhase::Receiving, ..old(self)@ }),
            action@ == Work::Receive,
    {
        self.phase = MediaPhase::Receiving;
        MediaAction::Receive
    }
}

} // verus!
