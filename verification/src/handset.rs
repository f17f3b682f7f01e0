//! The audio of a dialled call, as a state machine.
//!
//! Once per packet time everything that the microphone has delivered goes out as one
//! PCMU packet, and one incoming packet is played. Whoever drives it performs the
//! [`HandsetAction`] that it asks for and reports the [`HandsetEvent`] that came of it.

use vstd::prelude::*;

use crate::rtp::{advances_add_up, media_payload, Packet, RtpFrame, RtpStream};

verus! {

/// The packet time of a dialled call, in milliseconds.
pub const HANDSET_PTIME_MS: u64 = 20;

/// Which report the handset waits for.
#[derive(Debug, Clone, Copy, PartialEq, Eq, Structural)]
pub enum HandsetPhase {
    Pacing,
    Encoding,
    Sending,
    Receiving,
    Playing,
}

/// What the driver of a handset is to do next.
#[derive(Debug)]
pub enum HandsetAction {
    /// Wait for the next packet time and take everything from the microphone queue.
    Pace,
    /// Bring these microphone samples to the codec's rate and encode them.
    Encode(Vec<u32>),
    /// Send this packet, whatever comes of it.
    Send(RtpFrame),
    /// Look for an incoming packet without waiting.
    Receive,
    /// Decode the payload of a packet and play it.
    Play(Vec<u8>),
}

/// What came of a [`HandsetAction`].
#[derive(Debug)]
pub enum HandsetEvent {
    /// The packet time is over; these samples waited in the microphone queue.
    Paced(Vec<u32>),
    /// The codec's output.
    Payload(Vec<u8>),
    /// The packet has gone out, or was lost.
    Sent,
    /// The payload of an incoming packet, or none where no packet with one had come.
    /// See [`incoming`].
    Incoming(Option<Vec<u8>>),
    /// The payload was played.
    Played,
}

/// The content of a [`HandsetAction`].
pub ghost enum Task {
    Pace,
    Encode(Seq<u32>),
    Send(Packet),
    Receive,
    Play(Seq<u8>),
}

/// The content of a [`HandsetEvent`].
pub ghost enum News {
    Paced(Seq<u32>),
    Payload(Seq<u8>),
    Sent,
    Incoming(Option<Seq<u8>>),
    Played,
}

impl View for HandsetAction {
    type V = Task;

    open spec fn view(&self) -> Task {
        match self {
            HandsetAction::Pace => Task::Pace,
            HandsetAction::Encode(samples) => Task::Encode(samples@),
            HandsetAction::Send(packet) => Task::Send(packet@),
            HandsetAction::Receive => Task::Receive,
            HandsetAction::Play(payload) => Task::Play(payload@),
        }
    }
}

impl View for HandsetEvent {
    type V = News;

    open spec fn view(&self) -> News {
        match self {
            HandsetEvent::Paced(samples) => News::Paced(samples@),
            HandsetEvent::Payload(payload) => News::Payload(payload@),
            HandsetEvent::Sent => News::Sent,
            HandsetEvent::Incoming(Some(payload)) => News::Incoming(Some(payload@)),
            HandsetEvent::Incoming(None) => News::Incoming(None),
            HandsetEvent::Played => News::Played,
        }
    }
}

/// What an incoming datagram brings: what follows the header of an RTP packet, or
/// nothing where no datagram came or the datagram holds no more than a header.
pub fn incoming(datagram: Option<Vec<u8>>) -> (event: HandsetEvent)
    ensures
        event@ == News::Incoming(
            match datagram {
                Some(bytes) => if bytes@.len() > 12 {
                    Some(bytes@.skip(12))
                } else {
                    None
                },
                None => None,
            },
        ),
{
    match datagram {
        Some(bytes) => HandsetEvent::Incoming(media_payload(bytes.as_slice())),
        None => HandsetEvent::Incoming(None),
    }
}

/// The audio path of a dialled call.
#[derive(Debug)]
pub struct Handset {
    pub stream: RtpStream,
    pub phase: HandsetPhase,
}

impl Handset {
    /// The report is one that the handset waits for.
    pub open spec fn awaits(self, news: News) -> bool {
        match news {
            News::Paced(_) => self.phase == HandsetPhase::Pacing,
            News::Payload(_) => self.phase == HandsetPhase::Encoding,
            News::Sent => self.phase == HandsetPhase::Sending,
            News::Incoming(_) => self.phase == HandsetPhase::Receiving,
            News::Played => self.phase == HandsetPhase::Playing,
        }
    }

    /// The handset in another phase.
    pub open spec fn turned(self, phase: HandsetPhase) -> Handset {
        Handset { phase, ..self }
    }

    /// What the handset does on a report. Nothing is encoded where the microphone was
    /// silent, and nothing is sent where the codec made nothing; either way the handset
    /// then looks for an incoming packet.
    pub open spec fn on(self, news: News) -> (Handset, Task) {
        match news {
            News::Paced(samples) => if samples.len() > 0 {
                (self.turned(HandsetPhase::Encoding), Task::Encode(samples))
            } else {
                (self.turned(HandsetPhase::Receiving), Task::Receive)
            },
            News::Payload(payload) => if payload.len() > 0 {
                (
                    Handset { stream: self.stream.advanced(1), phase: HandsetPhase::Sending },
                    Task::Send(self.stream.packet(payload)),
                )
            } else {
                (self.turned(HandsetPhase::Receiving), Task::Receive)
            },
            News::Sent => (self.turned(HandsetPhase::Receiving), Task::Receive),
            News::Incoming(Some(payload)) => (
                self.turned(HandsetPhase::Playing),
                Task::Play(payload),
            ),
            News::Incoming(None) => (self.turned(HandsetPhase::Pacing), Task::Pace),
            News::Played => (self.turned(HandsetPhase::Pacing), Task::Pace),
        }
    }

    /// A handset that has sent nothing; its first action is [`HandsetAction::Pace`].
    pub fn new() -> (handset: Self)
        ensures
            handset.phase == HandsetPhase::Pacing,
            handset.stream.payload_type == 0,
            handset.stream.sequence == 0,
            handset.stream.timestamp == 0,
            handset.stream.samples_per_frame == 160,
    {
        Handset { stream: RtpStream::handset(), phase: HandsetPhase::Pacing }
    }

    /// Whether the report is one that the handset waits for.
    pub fn accepts(&self, event: &HandsetEvent) -> (yes: bool)
        ensures
            yes == self.awaits(event@),
    {
        match event {
            HandsetEvent::Paced(_) => self.phase == HandsetPhase::Pacing,
            HandsetEvent::Payload(_) => self.phase == HandsetPhase::Encoding,
            HandsetEvent::Sent => self.phase == HandsetPhase::Sending,
            HandsetEvent::Incoming(_) => self.phase == HandsetPhase::Receiving,
            HandsetEvent::Played => self.phase == HandsetPhase::Playing,
        }
    }

    /// Takes the report and says what to do next.
    pub fn step(&mut self, event: HandsetEvent) -> (action: HandsetAction)
        requires
            old(self).awaits(event@),
        ensures
            (*final(self), action@) == old(self).on(event@),
    {
        match event {
            HandsetEvent::Paced(samples) => if samples.len() > 0 {
                self.phase = HandsetPhase::Encoding;
                HandsetAction::Encode(samples)
            } else {
                self.phase = HandsetPhase::Receiving;
                HandsetAction::Receive
            },
            HandsetEvent::Payload(payload) => if payload.len() > 0 {
                self.phase = HandsetPhase::Sending;
                HandsetAction::Send(self.stream.stamp(payload))
            } else {
                self.phase = HandsetPhase::Receiving;
                HandsetAction::Receive
            },
            HandsetEvent::Sent => {
                self.phase = HandsetPhase::Receiving;
                HandsetAction::Receive
            },
            HandsetEvent::Incoming(Some(payload)) => {
                self.phase = HandsetPhase::Playing;
                HandsetAction::Play(payload)
            },
            HandsetEvent::Incoming(None) => {
                self.phase = HandsetPhase::Pacing;
                HandsetAction::Pace
            },
            HandsetEvent::Played => {
                self.phase = HandsetPhase::Pacing;
                HandsetAction::Pace
            },
        }
    }
}

/// The handset after a run of reports.
pub open spec fn after(start: Handset, news: Seq<News>) -> Handset
    decreases news.len(),
{
    if news.len() == 0 {
        start
    } else {
        after(start, news.drop_last()).on(news.last()).0
    }
}

/// The packets that a run sent, in order.
pub open spec fn packets(start: Handset, news: Seq<News>) -> Seq<Packet>
    decreases news.len(),
{
    if news.len() == 0 {
        Seq::empty()
    } else {
        match after(start, news.drop_last()).on(news.last()).1 {
            Task::Send(packet) => packets(start, news.drop_last()).push(packet),
            _ => packets(start, news.drop_last()),
        }
    }
}

/// The packets of a call carry consecutive sequence numbers and timestamps, one frame
/// apart, under one payload type and one source.
pub proof fn packets_are_numbered_in_order(start: Handset, news: Seq<News>)
    ensures
        after(start, news).stream == start.stream.advanced(packets(start, news).len()),
        forall|k: int|
            0 <= k < packets(start, news).len() ==> (#[trigger] packets(start, news)[k])
                == start.stream.advanced(k as nat).packet(packets(start, news)[k].payload),
    decreases news.len(),
{
    if news.len() > 0 {
        let before = news.drop_last();
        packets_are_numbered_in_order(start, before);
        advances_add_up(start.stream, packets(start, before).len(), 1);
    } else {
        assert(start.stream.advanced(0) == start.stream);
    }
}

/// A call counts from zero: its packet `k` has sequence number `k` and timestamp
/// `160 * k`, as far as the fields can show them.
pub proof fn calls_count_from_zero(start: Handset, news: Seq<News>, k: int)
    requires
        start.stream.sequence == 0,
        start.stream.timestamp == 0,
        start.stream.samples_per_frame == 160,
        0 <= k < packets(start, news).len(),
    ensures
        packets(start, news)[k].sequence == k % 0x1_0000,
        packets(start, news)[k].timestamp == (160 * k) % 0x1_0000_0000,
        packets(start, news)[k].payload_type == start.stream.payload_type,
        packets(start, news)[k].ssrc == start.stream.ssrc,
{
    packets_are_numbered_in_order(start, news);
}

/// A handset never sends an empty packet, and after every report it asks for the work
/// whose report it then waits for.
pub proof fn handsets_ask_for_what_they_await(handset: Handset, news: News)
    requires
        handset.awaits(news),
    ensures
        match handset.on(news).1 {
            Task::Pace => handset.on(news).0.phase == HandsetPhase::Pacing,
            Task::Encode(samples) => {
                &&& handset.on(news).0.phase == HandsetPhase::Encoding
                &&& samples.len() > 0
            },
            Task::Send(packet) => {
                &&& handset.on(news).0.phase == HandsetPhase::Sending
                &&& packet.payload.len() > 0
            },
            Task::Receive => handset.on(news).0.phase == HandsetPhase::Receiving,
            Task::Play(_) => handset.on(news).0.phase == HandsetPhase::Playing,
        },
{
}

/// What the microphone delivered at the packet times of a run, in order, where it
/// delivered anything.
pub open spec fn spoken(news: Seq<News>) -> Seq<Seq<u32>>
    decreases news.len(),
{
    if news.len() == 0 {
        Seq::empty()
    } else {
        match news.last() {
            News::Paced(samples) if samples.len() > 0 => spoken(news.drop_last()).push(samples),
            _ => spoken(news.drop_last()),
        }
    }
}

/// What a run had encoded, in order.
pub open spec fn encoded(start: Handset, news: Seq<News>) -> Seq<Seq<u32>>
    decreases news.len(),
{
    if news.len() == 0 {
        Seq::empty()
    } else {
        match after(start, news.drop_last()).on(news.last()).1 {
            Task::Encode(samples) => encoded(start, news.drop_last()).push(samples),
            _ => encoded(start, news.drop_last()),
        }
    }
}

/// What the codec made in a run, in order, where it made anything.
pub open spec fn codec_output(news: Seq<News>) -> Seq<Seq<u8>>
    decreases news.len(),
{
    if news.len() == 0 {
        Seq::empty()
    } else {
        match news.last() {
            News::Payload(payload) if payload.len() > 0 => codec_output(news.drop_last()).push(
                payload,
            ),
            _ => codec_output(news.drop_last()),
        }
    }
}

/// The payloads of packets, in order.
pub open spec fn payloads(list: Seq<Packet>) -> Seq<Seq<u8>> {
    Seq::new(list.len(), |i: int| list[i].payload)
}

/// The payloads that came in during a run, in order.
pub open spec fn heard(news: Seq<News>) -> Seq<Seq<u8>>
    decreases news.len(),
{
    if news.len() == 0 {
        Seq::empty()
    } else {
        match news.last() {
            News::Incoming(Some(payload)) => heard(news.drop_last()).push(payload),
            _ => heard(news.drop_last()),
        }
    }
}

/// What a run had played, in order.
pub open spec fn played(start: Handset, news: Seq<News>) -> Seq<Seq<u8>>
    decreases news.len(),
{
    if news.len() == 0 {
        Seq::empty()
    } else {
        match after(start, news.drop_last()).on(news.last()).1 {
            Task::Play(payload) => played(start, news.drop_last()).push(payload),
            _ => played(start, news.drop_last()),
        }
    }
}

/// Nothing of the audio of a call is lost or added, in either direction: everything that
/// the microphone delivers at a packet time is encoded, with every sample, everything
/// that the codec makes goes out in a packet of its own, byte for byte, and every payload
/// that comes in is played whole. All of it keeps its order.
pub proof fn audio_passes_whole(start: Handset, news: Seq<News>)
    ensures
        encoded(start, news) == spoken(news),
        payloads(packets(start, news)) == codec_output(news),
        played(start, news) == heard(news),
    decreases news.len(),
{
    if news.len() > 0 {
        let before = news.drop_last();
        audio_passes_whole(start, before);
        let list = packets(start, before);
        if let Task::Send(packet) = after(start, before).on(news.last()).1 {
            assert(payloads(list.push(packet)) =~= payloads(list).push(packet.payload));
        }
    } else {
        assert(payloads(packets(start, news)) =~= Seq::empty());
    }
}

/// What each report leads to: in every packet time a handset looks for an incoming packet
/// once, after it has sent what there was to send, and then begins the next.
pub proof fn reports_lead_on(handset: Handset, news: News)
    requires
        handset.awaits(news),
    ensures
        ({
            let task = handset.on(news).1;
            &&& task is Encode <==> (news matches News::Paced(samples) && samples.len() > 0)
            &&& task is Send <==> (news matches News::Payload(payload) && payload.len() > 0)
            &&& task is Receive <==> {
                ||| (news matches News::Paced(samples) && samples.len() == 0)
                ||| (news matches News::Payload(payload) && payload.len() == 0)
                ||| news is Sent
            }
            &&& task is Play <==> (news matches News::Incoming(Some(_)))
            &&& task is Pace <==> news == News::Incoming(None) || news is Played
        }),
{
}

/// The contents of actions and reports leave nothing out.
pub proof fn handset_contents_are_complete(bits: Vec<u32>, payload: Vec<u8>, packet: RtpFrame)
    ensures
        HandsetAction::Encode(bits)@ == Task::Encode(bits@),
        HandsetAction::Send(packet)@ == Task::Send(packet@),
        HandsetAction::Play(payload)@ == Task::Play(payload@),
        HandsetEvent::Paced(bits)@ == News::Paced(bits@),
        HandsetEvent::Payload(payload)@ == News::Payload(payload@),
        HandsetEvent::Incoming(Some(payload))@ == News::Incoming(Some(payload@)),
        HandsetEvent::Incoming(None)@ == News::Incoming(None),
{
}

/// Which kind of report a handset waits for does not depend on what is reported.
pub proof fn handsets_take_any_content(
    handset: Handset,
    samples: Seq<u32>,
    payload: Seq<u8>,
    incoming: Option<Seq<u8>>,
)
    ensures
        handset.awaits(News::Paced(samples)) <==> handset.phase == HandsetPhase::Pacing,
        handset.awaits(News::Payload(payload)) <==> handset.phase == HandsetPhase::Encoding,
        handset.awaits(News::Incoming(incoming)) <==> handset.phase == HandsetPhase::Receiving,
{
}

} // verus!
