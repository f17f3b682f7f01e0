//! What holds of every run of a media session.

use vstd::prelude::*;

use crate::audio::{whole_frames, whole_frames_keep_the_signal};
use crate::rtp::{advances_add_up, Packet, RtpFrame, RtpStream};
use crate::session::{
    opens_path, MediaAction, MediaEvent, MediaPhase, MediaSource, Report, Session, Turn, Work,
};

verus! {

/// A report, and whether the engine ran when it came.
pub ghost struct Input {
    pub running: bool,
    pub report: Report,
}

/// The session after a run.
pub open spec fn after(start: Session, inputs: Seq<Input>) -> Session
    decreases inputs.len(),
{
    if inputs.len() == 0 {
        start
    } else {
        last_turn(start, inputs).session
    }
}

/// The last turn of a run that has one.
pub open spec fn last_turn(start: Session, inputs: Seq<Input>) -> Turn
    decreases inputs.len(), 0nat,
    when inputs.len() > 0
{
    after(start, inputs.drop_last()).on(inputs.last().running, inputs.last().report)
}

/// Every report of the run came when the session waited for it.
pub open spec fn legal(start: Session, inputs: Seq<Input>) -> bool
    decreases inputs.len(),
{
    inputs.len() == 0 || {
        &&& legal(start, inputs.drop_last())
        &&& after(start, inputs.drop_last()).awaits(inputs.last().report)
    }
}

/// The packet that a piece of work sends.
pub open spec fn packet_in(work: Work) -> Option<Packet> {
    match work {
        Work::Punch(packet) => Some(packet),
        Work::Transmit(packet) => Some(packet),
        _ => None,
    }
}

/// The packets of a run, in order.
pub open spec fn packets(start: Session, inputs: Seq<Input>) -> Seq<Packet>
    decreases inputs.len(),
{
    if inputs.len() == 0 {
        Seq::empty()
    } else {
        match packet_in(last_turn(start, inputs).work) {
            Some(packet) => packets(start, inputs.drop_last()).push(packet),
            None => packets(start, inputs.drop_last()),
        }
    }
}

/// How often a run asked for work of one kind.
pub open spec fn asked(start: Session, inputs: Seq<Input>, kind: spec_fn(Work) -> bool) -> nat
    decreases inputs.len(),
{
    if inputs.len() == 0 {
        0
    } else {
        asked(start, inputs.drop_last(), kind) + if kind(last_turn(start, inputs).work) {
            1nat
        } else {
            0nat
        }
    }
}

/// Work that sends a packet of silence.
pub open spec fn punches() -> spec_fn(Work) -> bool {
    |work: Work| work is Punch
}

/// Work that sends a packet of audio.
pub open spec fn transmits() -> spec_fn(Work) -> bool {
    |work: Work| work is Transmit
}

/// Work that plays a received payload.
pub open spec fn plays() -> spec_fn(Work) -> bool {
    |work: Work| work is Play
}

/// Work on audio or on incoming datagrams: all but silence and the end.
pub open spec fn media() -> spec_fn(Work) -> bool {
    |work: Work| !(work is EncodeSilence || work is Punch || work is Finish)
}

/// How many reports of a run are of one kind.
pub open spec fn reported(inputs: Seq<Input>, kind: spec_fn(Report) -> bool) -> nat
    decreases inputs.len(),
{
    if inputs.len() == 0 {
        0
    } else {
        reported(inputs.drop_last(), kind) + if kind(inputs.last().report) {
            1nat
        } else {
            0nat
        }
    }
}

/// Reports of a packet that was sent or lost.
pub open spec fn sendings() -> spec_fn(Report) -> bool {
    |report: Report| report is Sent
}

/// Reports of a packet that was sent.
pub open spec fn sendings_done() -> spec_fn(Report) -> bool {
    |report: Report| report == Report::Sent(true)
}

/// The packets that a run counted as sent.
pub open spec fn sent(start: Session, inputs: Seq<Input>) -> nat
    decreases inputs.len(),
{
    if inputs.len() == 0 {
        0
    } else {
        sent(start, inputs.drop_last()) + last_turn(start, inputs).sent
    }
}

/// The datagrams that a run counted as received.
pub open spec fn received(start: Session, inputs: Seq<Input>) -> nat
    decreases inputs.len(),
{
    if inputs.len() == 0 {
        0
    } else {
        received(start, inputs.drop_last()) + last_turn(start, inputs).received
    }
}

/// The packets of a run carry consecutive sequence numbers and timestamps, one frame
/// apart, under one payload type and one source, whatever happened in between.
pub proof fn packets_are_numbered_in_order(start: Session, inputs: Seq<Input>)
    ensures
        after(start, inputs).stream == start.stream.advanced(packets(start, inputs).len()),
        forall|k: int|
            0 <= k < packets(start, inputs).len() ==> (#[trigger] packets(start, inputs)[k])
                == start.stream.advanced(k as nat).packet(packets(start, inputs)[k].payload),
    decreases inputs.len(),
{
    if inputs.len() > 0 {
        let before = inputs.drop_last();
        packets_are_numbered_in_order(start, before);
        advances_add_up(start.stream, packets(start, before).len(), 1);
    } else {
        assert(start.stream.advanced(0) == start.stream);
    }
}

/// A well-formed session stays well-formed.
pub proof fn sessions_stay_well_formed(start: Session, inputs: Seq<Input>)
    requires
        start.wf(),
        legal(start, inputs),
    ensures
        after(start, inputs).wf(),
    decreases inputs.len(),
{
    if inputs.len() > 0 {
        sessions_stay_well_formed(start, inputs.drop_last());
    }
}

/// Exactly ten packets of silence go out before any audio is handled or anything is
/// received, and none after that. Those that went out before the run count in; a session
/// that has not begun has sent none.
pub proof fn silence_is_exact(start: Session, inputs: Seq<Input>)
    requires
        start.wf(),
        legal(start, inputs),
    ensures
        after(start, inputs).punched == start.punched + asked(start, inputs, punches()),
        start.punched + asked(start, inputs, punches()) <= 10,
        start.phase == MediaPhase::Ready ==> start.punched == 0,
        asked(start, inputs, media()) > 0 ==> start.punched + asked(start, inputs, punches())
            == 10,
        inputs.len() > 0 && media()(last_turn(start, inputs).work) ==> start.punched + asked(
            start,
            inputs.drop_last(),
            punches(),
        ) == 10,
    decreases inputs.len(),
{
    if inputs.len() > 0 {
        silence_is_exact(start, inputs.drop_last());
        sessions_stay_well_formed(start, inputs.drop_last());
    }
    sessions_stay_well_formed(start, inputs);
}

/// Silence comes first: once a session has turned to its packet times it never sends
/// silence to open the path again.
pub proof fn silence_comes_first(start: Session, inputs: Seq<Input>)
    requires
        !opens_path(start.phase),
        legal(start, inputs),
    ensures
        !opens_path(after(start, inputs).phase),
        asked(start, inputs, punches()) == 0,
    decreases inputs.len(),
{
    if inputs.len() > 0 {
        silence_comes_first(start, inputs.drop_last());
    }
}

/// The packets that are counted as sent are those whose sending was reported as done.
/// Every packet of audio is reported on once, as soon as the run goes on, so each counts
/// at most once; the packets that open the path are not counted.
pub proof fn sent_packets_were_transmitted(start: Session, inputs: Seq<Input>)
    requires
        start.phase == MediaPhase::Ready,
        legal(start, inputs),
    ensures
        sent(start, inputs) == reported(inputs, sendings_done()),
        sent(start, inputs) <= reported(inputs, sendings()),
        asked(start, inputs, transmits()) == reported(inputs, sendings()) + (if after(
            start,
            inputs,
        ).phase == MediaPhase::Sending {
            1nat
        } else {
            0nat
        }),
    decreases inputs.len(),
{
    if inputs.len() > 0 {
        sent_packets_were_transmitted(start, inputs.drop_last());
    }
}

/// Every datagram that is counted as received is played, and nothing else is.
pub proof fn received_datagrams_are_played(start: Session, inputs: Seq<Input>)
    ensures
        received(start, inputs) == asked(start, inputs, plays()),
    decreases inputs.len(),
{
    if inputs.len() > 0 {
        received_datagrams_are_played(start, inputs.drop_last());
    }
}

/// A stopped engine starts no silent frame and no packet time, and the session ends at
/// the first point where it would have gone on.
pub proof fn stopped_engine_ends_the_session(session: Session, report: Report)
    requires
        session.awaits(report),
    ensures
        !(session.on(false, report).work is EncodeSilence),
        !(session.on(false, report).work is Pace),
        report is Begin || report is Punched || report == Report::Datagram(None) ==> {
            &&& session.on(false, report).work is Finish
            &&& session.on(false, report).session.phase == MediaPhase::Finished
        },
{
}

/// How many packets a tone session in this phase still sends once the engine was
/// stopped, at most.
pub open spec fn packets_due(phase: MediaPhase) -> nat {
    match phase {
        MediaPhase::SilenceEncoding => 1,
        MediaPhase::Pacing => 1,
        MediaPhase::Collecting => 1,
        MediaPhase::Sampling => 1,
        MediaPhase::Encoding => 1,
        _ => 0,
    }
}

/// Once the engine was stopped a tone session sends at most one more packet: the one
/// that it was about to make.
pub proof fn stopped_tone_sends_at_most_one_packet(start: Session, inputs: Seq<Input>)
    requires
        start.wf(),
        start.source is Tone,
        legal(start, inputs),
        forall|i: int| 0 <= i < inputs.len() ==> !(#[trigger] inputs[i]).running,
    ensures
        packets(start, inputs).len() <= 1,
        packets(start, inputs).len() + packets_due(after(start, inputs).phase) <= packets_due(
            start.phase,
        ),
        after(start, inputs).source is Tone,
    decreases inputs.len(),
{
    if inputs.len() > 0 {
        let before = inputs.drop_last();
        assert forall|i: int| 0 <= i < before.len() implies !(#[trigger] before[i]).running by {
            assert(before[i] == inputs[i]);
        }
        stopped_tone_sends_at_most_one_packet(start, before);
        sessions_stay_well_formed(start, before);
        assert(inputs.last() == inputs[inputs.len() - 1]);
    }
}

/// A running engine never ends the session, and only a session that has ended waits for
/// nothing.
pub proof fn running_engine_keeps_the_session(session: Session, report: Report)
    requires
        session.awaits(report),
    ensures
        !(session.on(true, report).work is Finish),
        session.phase != MediaPhase::Finished,
        session.on(true, report).session.phase != MediaPhase::Finished,
{
}

/// After every report a session asks for the work whose report it then waits for, and
/// it never transmits an empty payload.
pub proof fn sessions_ask_for_what_they_await(session: Session, running: bool, report: Report)
    requires
        session.awaits(report),
    ensures
        ({
            let turn = session.on(running, report);
            match turn.work {
                Work::EncodeSilence(_) => turn.session.phase == MediaPhase::SilenceEncoding,
                Work::Punch(_) => turn.session.phase == MediaPhase::Punching,
                Work::Pace => turn.session.phase == MediaPhase::Pacing,
                Work::Synthesize(_) => turn.session.phase == MediaPhase::Sampling,
                Work::Collect(_) => turn.session.phase == MediaPhase::Collecting,
                Work::Resample(_) => turn.session.phase == MediaPhase::Sampling,
                Work::Encode(_) => turn.session.phase == MediaPhase::Encoding,
                Work::Transmit(packet) => {
                    &&& turn.session.phase == MediaPhase::Sending
                    &&& packet.payload.len() > 0
                },
                Work::Receive => turn.session.phase == MediaPhase::Receiving,
                Work::Play(payload) => {
                    &&& turn.session.phase == MediaPhase::Playing
                    &&& payload.len() > 0
                },
                Work::Finish => turn.session.phase == MediaPhase::Finished,
            }
        }),
{
}

/// The frames of audio that a run had encoded, in order.
pub open spec fn encoded(start: Session, inputs: Seq<Input>) -> Seq<Seq<i16>>
    decreases inputs.len(),
{
    if inputs.len() == 0 {
        Seq::empty()
    } else {
        match last_turn(start, inputs).work {
            Work::Encode(frame) => encoded(start, inputs.drop_last()).push(frame),
            _ => encoded(start, inputs.drop_last()),
        }
    }
}

/// The run begins with samples, and no more samples come in it.
pub open spec fn one_batch(inputs: Seq<Input>, samples: Seq<i16>) -> bool {
    &&& inputs.len() > 0
    &&& inputs[0].report == Report::Samples(samples)
    &&& forall|i: int| 0 < i < inputs.len() ==> !((#[trigger] inputs[i]).report is Samples)
}

/// Every frame of a batch of samples is encoded exactly once and in order: what was
/// encoded, followed by what still waits, is the batch, and once the session has turned
/// to receiving nothing waits.
pub proof fn every_frame_is_encoded_once(start: Session, inputs: Seq<Input>, samples: Seq<i16>)
    requires
        start.wf(),
        legal(start, inputs),
        one_batch(inputs, samples),
    ensures
        encoded(start, inputs) + after(start, inputs).frames == start.frames_of(samples),
        after(start, inputs).phase != MediaPhase::Encoding && after(start, inputs).phase
            != MediaPhase::Sending ==> encoded(start, inputs) == start.frames_of(samples),
    decreases inputs.len(),
{
    let before = inputs.drop_last();
    let batch = start.frames_of(samples);
    sessions_stay_well_formed(start, inputs);
    if inputs.len() == 1 {
        assert(before =~= Seq::empty());
        assert(inputs.last() == inputs[0]);
        assert(encoded(start, inputs) + after(start, inputs).frames =~= batch);
    } else {
        assert(before[0] == inputs[0]);
        assert forall|i: int| 0 < i < before.len() implies !(
        (#[trigger] before[i]).report is Samples) by {
            assert(before[i] == inputs[i]);
        }
        every_frame_is_encoded_once(start, before, samples);
        assert(inputs.last() == inputs[inputs.len() - 1]);
        let waiting = after(start, before).frames;
        if last_turn(start, inputs).work is Encode {
            assert(encoded(start, inputs) + after(start, inputs).frames =~= encoded(start, before)
                + waiting);
        } else {
            assert(after(start, inputs).frames =~= waiting);
        }
    }
    assert(encoded(start, inputs) + Seq::<Seq<i16>>::empty() =~= encoded(start, inputs));
    if after(start, inputs).frames.len() == 0 {
        assert(after(start, inputs).frames =~= Seq::empty());
    }
}

/// The frames that the microphone queue delivered in a run, in order.
pub open spec fn collected(inputs: Seq<Input>) -> Seq<Seq<u32>>
    decreases inputs.len(),
{
    if inputs.len() == 0 {
        Seq::empty()
    } else {
        match inputs.last().report {
            Report::Collected(Some(frame)) => collected(inputs.drop_last()).push(frame),
            _ => collected(inputs.drop_last()),
        }
    }
}

/// What a run had brought to the codec's rate, in order.
pub open spec fn resampled(start: Session, inputs: Seq<Input>) -> Seq<Seq<u32>>
    decreases inputs.len(),
{
    if inputs.len() == 0 {
        Seq::empty()
    } else {
        match last_turn(start, inputs).work {
            Work::Resample(samples) => resampled(start, inputs.drop_last()).push(samples),
            _ => resampled(start, inputs.drop_last()),
        }
    }
}

/// What the microphone queue delivers is brought to the codec's rate as it is: every
/// frame, with every sample, in order, and nothing else.
pub proof fn microphone_frames_are_resampled_whole(start: Session, inputs: Seq<Input>)
    ensures
        resampled(start, inputs) == collected(inputs),
    decreases inputs.len(),
{
    if inputs.len() > 0 {
        microphone_frames_are_resampled_whole(start, inputs.drop_last());
    }
}

/// The audio in the datagrams of a run, in order: of every datagram that is longer than
/// the twelve bytes of a header, the bytes from the thirteenth on.
pub open spec fn audio_in(inputs: Seq<Input>) -> Seq<Seq<u8>>
    decreases inputs.len(),
{
    if inputs.len() == 0 {
        Seq::empty()
    } else {
        let before = audio_in(inputs.drop_last());
        match inputs.last().report {
            Report::Datagram(Some(bytes)) if bytes.len() > 12 => before.push(
                Seq::new((bytes.len() - 12) as nat, |i: int| bytes[12 + i]),
            ),
            _ => before,
        }
    }
}

/// What a run had played, in order.
pub open spec fn played(start: Session, inputs: Seq<Input>) -> Seq<Seq<u8>>
    decreases inputs.len(),
{
    if inputs.len() == 0 {
        Seq::empty()
    } else {
        match last_turn(start, inputs).work {
            Work::Play(payload) => played(start, inputs.drop_last()).push(payload),
            _ => played(start, inputs.drop_last()),
        }
    }
}

/// The audio of every datagram is played, whole and in order, nothing else is played,
/// and as many datagrams are counted as received.
pub proof fn datagrams_are_played_whole(start: Session, inputs: Seq<Input>)
    ensures
        played(start, inputs) == audio_in(inputs),
        received(start, inputs) == audio_in(inputs).len(),
    decreases inputs.len(),
{
    if inputs.len() > 0 {
        datagrams_are_played_whole(start, inputs.drop_last());
        if let Report::Datagram(Some(bytes)) = inputs.last().report {
            if bytes.len() > 12 {
                assert(bytes.skip(12) =~= Seq::new(
                    (bytes.len() - 12) as nat,
                    |i: int| bytes[12 + i],
                ));
            }
        }
    }
}

/// What the codec made in a run of the frames that it was asked for by work of one kind,
/// in order.
pub open spec fn codec_output(
    start: Session,
    inputs: Seq<Input>,
    kind: spec_fn(Work) -> bool,
) -> Seq<Seq<u8>>
    decreases inputs.len(),
{
    if inputs.len() < 2 {
        Seq::empty()
    } else {
        let before = codec_output(start, inputs.drop_last(), kind);
        match inputs.last().report {
            Report::Payload(payload) if kind(last_turn(start, inputs.drop_last()).work) => {
                before.push(payload)
            },
            _ => before,
        }
    }
}

/// Work that encodes a frame of audio.
pub open spec fn encodes_audio() -> spec_fn(Work) -> bool {
    |work: Work| work is Encode
}

/// Work that encodes a frame of silence.
pub open spec fn encodes_silence() -> spec_fn(Work) -> bool {
    |work: Work| work is EncodeSilence
}

/// Those of the payloads that hold something, in order.
pub open spec fn filled(payloads: Seq<Seq<u8>>) -> Seq<Seq<u8>>
    decreases payloads.len(),
{
    if payloads.len() == 0 {
        Seq::empty()
    } else if payloads.last().len() > 0 {
        filled(payloads.drop_last()).push(payloads.last())
    } else {
        filled(payloads.drop_last())
    }
}

/// The payloads of the packets of audio that a run sent, in order.
pub open spec fn audio_payloads(start: Session, inputs: Seq<Input>) -> Seq<Seq<u8>>
    decreases inputs.len(),
{
    if inputs.len() == 0 {
        Seq::empty()
    } else {
        match last_turn(start, inputs).work {
            Work::Transmit(packet) => audio_payloads(start, inputs.drop_last()).push(packet.payload),
            _ => audio_payloads(start, inputs.drop_last()),
        }
    }
}

/// The payloads of the packets of silence that a run sent, in order.
pub open spec fn silent_payloads(start: Session, inputs: Seq<Input>) -> Seq<Seq<u8>>
    decreases inputs.len(),
{
    if inputs.len() == 0 {
        Seq::empty()
    } else {
        match last_turn(start, inputs).work {
            Work::Punch(packet) => silent_payloads(start, inputs.drop_last()).push(packet.payload),
            _ => silent_payloads(start, inputs.drop_last()),
        }
    }
}

/// What the codec makes of a frame goes out as it is: the packets of audio carry, in
/// order, whatever it made of audio that is not empty, byte for byte, and the packets of
/// silence whatever it made of silence.
pub proof fn codec_output_goes_out_whole(start: Session, inputs: Seq<Input>)
    requires
        start.phase == MediaPhase::Ready,
        legal(start, inputs),
    ensures
        audio_payloads(start, inputs) == filled(codec_output(start, inputs, encodes_audio())),
        silent_payloads(start, inputs) == codec_output(start, inputs, encodes_silence()),
    decreases inputs.len(),
{
    if inputs.len() > 0 {
        let before = inputs.drop_last();
        codec_output_goes_out_whole(start, before);
        if before.len() == 0 {
            assert(audio_payloads(start, before) =~= Seq::empty());
            assert(silent_payloads(start, before) =~= Seq::empty());
            assert(filled(Seq::empty()) =~= Seq::empty());
        } else if let Report::Payload(payload) = inputs.last().report {
            assert(after(start, before) == last_turn(start, before).session);
            let audio = codec_output(start, before, encodes_audio());
            assert(audio.push(payload).drop_last() =~= audio);
        }
    }
}

/// Every frame of silence that a session has encoded is as long as a frame of its codec,
/// and every sample of it is zero.
pub proof fn silence_is_silent(session: Session, running: bool, report: Report)
    ensures
        session.on(running, report).work matches Work::EncodeSilence(frame) ==> {
            &&& frame.len() == session.stream.samples_per_frame
            &&& forall|i: int| 0 <= i < frame.len() ==> #[trigger] frame[i] == 0
        },
{
}

/// The batches of samples at the codec's rate that came in a run, in order.
pub open spec fn batches(inputs: Seq<Input>) -> Seq<Seq<i16>>
    decreases inputs.len(),
{
    if inputs.len() == 0 {
        Seq::empty()
    } else {
        match inputs.last().report {
            Report::Samples(samples) => batches(inputs.drop_last()).push(samples),
            _ => batches(inputs.drop_last()),
        }
    }
}

/// The frames of `n` samples in a list of batches, batch by batch: frame `f` of a batch
/// has the samples from `f * n` on, and a rest that is shorter than a frame is left out.
pub open spec fn frames_in(list: Seq<Seq<i16>>, n: nat) -> Seq<Seq<i16>>
    decreases list.len(),
{
    if list.len() == 0 {
        Seq::empty()
    } else {
        let batch = list.last();
        frames_in(list.drop_last(), n) + Seq::new(
            batch.len() / n,
            |f: int| Seq::new(n, |k: int| batch[f * n + k]),
        )
    }
}

/// All the audio of a run is encoded, in order. A tone is encoded batch by batch, with
/// every sample. The audio of a microphone is encoded frame by frame; what has not been
/// encoded yet waits.
pub proof fn audio_is_encoded_in_order(start: Session, inputs: Seq<Input>)
    requires
        start.wf(),
        start.phase == MediaPhase::Ready,
        legal(start, inputs),
    ensures
        after(start, inputs).source == start.source,
        after(start, inputs).stream.samples_per_frame == start.stream.samples_per_frame,
        start.source is Tone ==> encoded(start, inputs) == batches(inputs),
        start.source is Microphone ==> encoded(start, inputs) + after(start, inputs).frames
            == frames_in(batches(inputs), start.stream.samples_per_frame as nat),
    decreases inputs.len(),
{
    let n = start.stream.samples_per_frame as nat;
    if inputs.len() == 0 {
        assert(start.frames =~= Seq::empty());
        assert(encoded(start, inputs) + start.frames =~= frames_in(batches(inputs), n));
    } else {
        let before = inputs.drop_last();
        let session = after(start, before);
        audio_is_encoded_in_order(start, before);
        sessions_stay_well_formed(start, before);
        let turn = last_turn(start, inputs);
        if let Report::Samples(samples) = inputs.last().report {
            let list = batches(before);
            assert(list.push(samples).drop_last() =~= list);
            assert(session.frames =~= Seq::empty());
            if start.source is Microphone {
                let cut = session.frames_of(samples);
                assert forall|f: int| 0 <= f < cut.len() implies #[trigger] cut[f] == Seq::new(
                    n,
                    |k: int| samples[f * n + k],
                ) by {
                    lemma_frame_starts(samples, n, f);
                    assert(cut[f] =~= Seq::new(n, |k: int| samples[f * n + k]));
                }
                assert(cut =~= Seq::new(
                    samples.len() / n,
                    |f: int| Seq::new(n, |k: int| samples[f * n + k]),
                ));
                assert(encoded(start, before) + Seq::empty() =~= encoded(start, before));
                assert(encoded(start, inputs) + turn.session.frames =~= encoded(start, before)
                    + cut);
            }
        } else if turn.work is Encode {
            assert(encoded(start, inputs) + turn.session.frames =~= encoded(start, before)
                + session.frames);
        } else {
            assert(turn.session.frames =~= session.frames);
        }
    }
}

/// Frame `f` that is cut from samples begins at sample `f * n` and is `n` samples long.
proof fn lemma_frame_starts(samples: Seq<i16>, n: nat, f: int)
    requires
        0 < n,
        0 <= f < whole_frames(samples, n).len(),
    ensures
        whole_frames(samples, n)[f].len() == n,
        forall|k: int| 0 <= k < n ==> #[trigger] whole_frames(samples, n)[f][k] == samples[f * n + k],
{
    assert forall|k: int| 0 <= k < n implies #[trigger] whole_frames(samples, n)[f][k] == samples[f
        * n + k] by {
        whole_frames_keep_the_signal(samples, n, f, k);
    }
    whole_frames_keep_the_signal(samples, n, f, 0);
}

/// What each report leads to. Silence is encoded while fewer than ten packets of it went
/// out. A packet time begins only where nothing more can be received, or when the path is
/// open. In it one frame is asked of the source, and then, once all frames are encoded
/// and sent, datagrams are received until none comes.
pub proof fn reports_lead_on(session: Session, running: bool, report: Report)
    requires
        session.wf(),
        session.awaits(report),
    ensures
        ({
            let turn = session.on(running, report);
            let opening = report is Begin || report is Punched;
            let idle = report == Report::Datagram(None);
            let encoded = session.phase == MediaPhase::Encoding && report == Report::Payload(
                Seq::empty(),
            );
            let waiting: int = match report {
                Report::Samples(samples) => match session.source {
                    MediaSource::Tone => 1,
                    MediaSource::Microphone { .. } => (samples.len()
                        / session.stream.samples_per_frame as nat) as int,
                },
                _ => session.frames.len() as int,
            };
            let sending = report is Samples || report is Sent || encoded;
            &&& turn.work is EncodeSilence <==> running && opening && session.punched < 10
            &&& turn.work is Pace <==> running && (idle || opening && session.punched == 10)
            &&& turn.work is Finish <==> !running && (idle || opening)
            &&& turn.work is Punch <==> report is Payload && session.phase
                == MediaPhase::SilenceEncoding
            &&& turn.work is Transmit <==> report is Payload && session.phase
                == MediaPhase::Encoding && !encoded
            &&& turn.work is Synthesize <==> report is Paced && session.source is Tone
            &&& turn.work is Collect <==> report is Paced && session.source is Microphone
            &&& (turn.work matches Work::Synthesize(n) ==> n == session.stream.samples_per_frame)
            &&& (turn.work matches Work::Collect(n) ==> session.source matches
                MediaSource::Microphone { frame_size } && frame_size == n)
            &&& turn.work is Resample <==> (report matches Report::Collected(Some(_)))
            &&& turn.work is Encode <==> sending && waiting > 0
            &&& turn.work is Play <==> (report matches Report::Datagram(Some(bytes)) && bytes.len()
                > 12)
            &&& turn.work is Receive <==> {
                ||| sending && waiting == 0
                ||| report == Report::Collected(None)
                ||| report is Played
                ||| (report matches Report::Datagram(Some(bytes)) && bytes.len() <= 12)
            }
        }),
{
    if let Report::Payload(payload) = report {
        if payload.len() == 0 {
            assert(payload =~= Seq::empty());
        }
    }
}

/// A session that has not begun has the source and the stream that it was made with, has
/// sent no silence and holds no frame.
pub proof fn fresh_sessions_have_done_nothing(source: MediaSource, stream: RtpStream)
    ensures
        Session::fresh(source, stream).source == source,
        Session::fresh(source, stream).stream == stream,
        Session::fresh(source, stream).phase == MediaPhase::Ready,
        Session::fresh(source, stream).punched == 0,
        Session::fresh(source, stream).frames.len() == 0,
{
}

/// The contents of actions and reports leave nothing out: two of one kind have the same
/// content only where they hold the same.
pub proof fn media_contents_are_complete(
    frame: Vec<i16>,
    bits: Vec<u32>,
    payload: Vec<u8>,
    packet: RtpFrame,
    n: usize,
    done: bool,
)
    ensures
        MediaAction::EncodeSilence(frame)@ == Work::EncodeSilence(frame@),
        MediaAction::Punch(packet)@ == Work::Punch(packet@),
        MediaAction::Synthesize(n)@ == Work::Synthesize(n as nat),
        MediaAction::Collect(n)@ == Work::Collect(n as nat),
        MediaAction::Resample(bits)@ == Work::Resample(bits@),
        MediaAction::Encode(frame)@ == Work::Encode(frame@),
        MediaAction::Transmit(packet)@ == Work::Transmit(packet@),
        MediaAction::Play(payload)@ == Work::Play(payload@),
        MediaEvent::Payload(payload)@ == Report::Payload(payload@),
        MediaEvent::Collected(Some(bits))@ == Report::Collected(Some(bits@)),
        MediaEvent::Samples(frame)@ == Report::Samples(frame@),
        MediaEvent::Sent(done)@ == Report::Sent(done),
        MediaEvent::Datagram(Some(payload))@ == Report::Datagram(Some(payload@)),
        packet@.payload == packet.payload@,
        packet@.payload_type == packet.payload_type,
        packet@.sequence == packet.sequence,
        packet@.timestamp == packet.timestamp,
        packet@.ssrc == packet.ssrc,
{
}

/// Which kind of report a session waits for does not depend on what is reported.
pub proof fn sessions_take_any_content(
    session: Session,
    payload: Seq<u8>,
    frame: Option<Seq<u32>>,
    samples: Seq<i16>,
    done: bool,
    datagram: Option<Seq<u8>>,
)
    ensures
        session.awaits(Report::Payload(payload)) <==> session.phase == MediaPhase::SilenceEncoding
            || session.phase == MediaPhase::Encoding,
        session.awaits(Report::Collected(frame)) <==> session.phase == MediaPhase::Collecting,
        session.awaits(Report::Samples(samples)) <==> session.phase == MediaPhase::Sampling,
        session.awaits(Report::Sent(done)) <==> session.phase == MediaPhase::Sending,
        session.awaits(Report::Datagram(datagram)) <==> session.phase == MediaPhase::Receiving,
{
}

} // verus!
