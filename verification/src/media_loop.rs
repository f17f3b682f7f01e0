//! A media loop from the set-up of its sound devices to its end, as a state machine.
//!
//! The driver sets the sound devices up and reports how that went. From then on it
//! performs the [`MediaAction`]s of the loop's session and reports what came of them,
//! until the loop ends.

use vstd::prelude::*;

use crate::audio::AudioFault;
use crate::engine::{counts_add_up, Engine, RtpEngine};
use crate::rtp::RtpStream;
use crate::session::{
    MediaAction, MediaEvent, MediaPhase, MediaSession, MediaSource, Report, Session, Turn, Work,
};
use crate::session_laws;
use crate::session_laws::Input;

verus! {

/// What a set-up provides: where the outgoing audio comes from, and how its packets are
/// numbered.
#[derive(Debug, Clone, Copy, PartialEq, Eq, Structural)]
pub struct SoundPath {
    pub source: MediaSource,
    pub stream: RtpStream,
}

/// What a loop is told.
#[derive(Debug)]
pub enum LoopEvent {
    /// The sound devices were set up, or cannot be used.
    SetUp(Result<SoundPath, AudioFault>),
    /// What came of a [`LoopAction::Media`].
    Media(MediaEvent),
}

/// What the driver of a loop is to do next.
#[derive(Debug)]
pub enum LoopAction {
    Media(MediaAction),
    /// The loop has ended, well or with a fault in words.
    End(Result<(), String>),
}

/// The content of a [`LoopEvent`].
pub ghost enum LoopReport {
    SetUp(Result<SoundPath, Seq<char>>),
    Media(Report),
}

/// The content of a [`LoopAction`].
pub ghost enum LoopWork {
    Media(Work),
    End(Result<(), Seq<char>>),
}

impl View for LoopEvent {
    type V = LoopReport;

    open spec fn view(&self) -> LoopReport {
        match self {
            LoopEvent::SetUp(Ok(path)) => LoopReport::SetUp(Ok(*path)),
            LoopEvent::SetUp(Err(fault)) => LoopReport::SetUp(Err(fault.words())),
            LoopEvent::Media(event) => LoopReport::Media(event@),
        }
    }
}

impl View for LoopAction {
    type V = LoopWork;

    open spec fn view(&self) -> LoopWork {
        match self {
            LoopAction::Media(action) => LoopWork::Media(action@),
            LoopAction::End(Ok(_)) => LoopWork::End(Ok(())),
            LoopAction::End(Err(cause)) => LoopWork::End(Err(cause@)),
        }
    }
}

/// The state of a [`MediaLoop`].
pub ghost enum Loop {
    /// The sound devices are being set up.
    SettingUp,
    /// The session runs.
    Running(Session),
    /// The loop has ended.
    Over,
}

/// A loop together with what it asks for and what it counted.
pub ghost struct LoopTurn {
    pub state: Loop,
    pub work: LoopWork,
    pub sent: nat,
    pub received: nat,
}

impl SoundPath {
    /// Microphone audio can be cut into frames.
    pub open spec fn usable(self) -> bool {
        self.source is Microphone ==> 0 < self.stream.samples_per_frame
    }
}

/// A turn of the session as one of the loop: with the session the loop ends, and well.
pub open spec fn of_session(turn: Turn) -> LoopTurn {
    if turn.work is Finish {
        LoopTurn {
            state: Loop::Over,
            work: LoopWork::End(Ok(())),
            sent: turn.sent,
            received: turn.received,
        }
    } else {
        LoopTurn {
            state: Loop::Running(turn.session),
            work: LoopWork::Media(turn.work),
            sent: turn.sent,
            received: turn.received,
        }
    }
}

impl Loop {
    /// A session that runs is well-formed and goes on.
    pub open spec fn wf(self) -> bool {
        self matches Loop::Running(session) ==> session.wf() && session.phase
            != MediaPhase::Finished
    }

    /// The report is one that the loop waits for.
    pub open spec fn awaits(self, report: LoopReport) -> bool {
        match report {
            LoopReport::SetUp(Ok(path)) => self is SettingUp && path.usable(),
            LoopReport::SetUp(Err(_)) => self is SettingUp,
            LoopReport::Media(report) => self matches Loop::Running(session) && session.awaits(
                report,
            ),
        }
    }

    /// What the loop does on a report, where `running` says whether the engine runs. A
    /// set-up that failed ends the loop, and one that succeeded begins the session.
    pub open spec fn on(self, running: bool, report: LoopReport) -> LoopTurn {
        match (self, report) {
            (_, LoopReport::SetUp(Ok(path))) => of_session(
                Session::fresh(path.source, path.stream).on(running, Report::Begin),
            ),
            (_, LoopReport::SetUp(Err(cause))) => LoopTurn {
                state: Loop::Over,
                work: LoopWork::End(Err(cause)),
                sent: 0,
                received: 0,
            },
            (Loop::Running(session), LoopReport::Media(report)) => of_session(
                session.on(running, report),
            ),
            // No loop waits for this.
            (_, LoopReport::Media(_)) => LoopTurn {
                state: Loop::Over,
                work: LoopWork::End(Ok(())),
                sent: 0,
                received: 0,
            },
        }
    }
}

/// How far a loop has come.
#[derive(Debug)]
enum LoopState {
    SettingUp,
    Running(MediaSession),
    Over,
}

/// A media loop.
#[derive(Debug)]
pub struct MediaLoop {
    state: LoopState,
}

impl View for MediaLoop {
    type V = Loop;

    closed spec fn view(&self) -> Loop {
        match self.state {
            LoopState::SettingUp => Loop::SettingUp,
            LoopState::Running(session) => Loop::Running(session@),
            LoopState::Over => Loop::Over,
        }
    }
}

impl MediaLoop {
    /// A loop whose sound devices are yet to be set up.
    pub fn new() -> (media: Self)
        ensures
            media@ is SettingUp,
            media@.wf(),
    {
        MediaLoop { state: LoopState::SettingUp }
    }

    /// The sequence number of the next packet, as long as the session runs.
    pub fn next_sequence(&self) -> (sequence: Option<u16>)
        ensures
            sequence == match self@ {
                Loop::Running(session) => Some(session.stream.sequence),
                _ => None,
            },
    {
        match &self.state {
            LoopState::Running(session) => Some(session.next_sequence()),
            _ => None,
        }
    }

    /// Whether the report is one that the loop waits for.
    pub fn accepts(&self, event: &LoopEvent) -> (yes: bool)
        ensures
            yes == self@.awaits(event@),
    {
        match (&self.state, event) {
            (LoopState::SettingUp, LoopEvent::SetUp(Ok(path))) => match path.source {
                MediaSource::Tone => true,
                MediaSource::Microphone { .. } => 0 < path.stream.samples_per_frame,
            },
            (LoopState::SettingUp, LoopEvent::SetUp(Err(_))) => true,
            (LoopState::Running(session), LoopEvent::Media(event)) => session.accepts(event),
            _ => false,
        }
    }

    /// Takes the report and says what to do next. The engine says whether to go on, and
    /// counts the packets that were sent and received.
    pub fn step(&mut self, engine: &mut RtpEngine, event: LoopEvent) -> (action: LoopAction)
        requires
            old(self)@.wf(),
            old(self)@.awaits(event@),
        ensures
            final(self)@.wf(),
            ({
                let turn = old(self)@.on(old(engine)@.running, event@);
                &&& final(self)@ == turn.state
                &&& action@ == turn.work
                &&& final(engine)@ == old(engine)@.counted(turn.sent, turn.received)
            }),
    {
        proof {
            counts_add_up(engine@, 0, 0, 0, 0);
        }
        let mut state = LoopState::Over;
        std::mem::swap(&mut state, &mut self.state);
        let (mut session, event) = match (state, event) {
            (_, LoopEvent::SetUp(Err(fault))) => {
                return LoopAction::End(Err(fault.message()));
            },
            (_, LoopEvent::SetUp(Ok(path))) => (
                MediaSession::new(path.source, path.stream),
                MediaEvent::Begin,
            ),
            (LoopState::Running(session), LoopEvent::Media(event)) => (session, event),
            (_, LoopEvent::Media(_)) => {
                return LoopAction::End(Ok(()));
            },
        };
        match session.step(engine, event) {
            MediaAction::Finish => LoopAction::End(Ok(())),
            action => {
                self.state = LoopState::Running(session);
                LoopAction::Media(action)
            },
        }
    }
}

/// A report to a loop, and whether the engine ran when it came.
pub ghost struct LoopInput {
    pub running: bool,
    pub report: LoopReport,
}

/// The loop after a run.
pub open spec fn after(start: Loop, inputs: Seq<LoopInput>) -> Loop
    decreases inputs.len(),
{
    if inputs.len() == 0 {
        start
    } else {
        last_turn(start, inputs).state
    }
}

/// The last turn of a run that has one.
pub open spec fn last_turn(start: Loop, inputs: Seq<LoopInput>) -> LoopTurn
    decreases inputs.len(), 0nat,
    when inputs.len() > 0
{
    after(start, inputs.drop_last()).on(inputs.last().running, inputs.last().report)
}

/// Every report of the run came when the loop waited for it.
pub open spec fn legal(start: Loop, inputs: Seq<LoopInput>) -> bool
    decreases inputs.len(),
{
    inputs.len() == 0 || {
        &&& legal(start, inputs.drop_last())
        &&& after(start, inputs.drop_last()).awaits(inputs.last().report)
    }
}

/// Work on the socket: sending a packet or receiving a datagram.
pub open spec fn uses_socket(work: LoopWork) -> bool {
    match work {
        LoopWork::Media(Work::Punch(_)) => true,
        LoopWork::Media(Work::Transmit(_)) => true,
        LoopWork::Media(Work::Receive) => true,
        _ => false,
    }
}

/// How often a run asked for work on the socket.
pub open spec fn socket_uses(start: Loop, inputs: Seq<LoopInput>) -> nat
    decreases inputs.len(),
{
    if inputs.len() == 0 {
        0
    } else {
        socket_uses(start, inputs.drop_last()) + if uses_socket(last_turn(start, inputs).work) {
            1nat
        } else {
            0nat
        }
    }
}

/// An engine after it has counted what a run counts.
pub open spec fn engine_after(engine: Engine, start: Loop, inputs: Seq<LoopInput>) -> Engine
    decreases inputs.len(),
{
    if inputs.len() == 0 {
        engine
    } else {
        engine_after(engine, start, inputs.drop_last()).counted(
            last_turn(start, inputs).sent,
            last_turn(start, inputs).received,
        )
    }
}

/// The loop has ended with this result.
pub open spec fn ended(inputs: Seq<LoopInput>, result: Result<(), Seq<char>>) -> bool {
    &&& inputs.len() > 0
    &&& last_turn(Loop::SettingUp, inputs).work == LoopWork::End(result)
}

/// A well-formed loop stays well-formed.
pub proof fn loops_stay_well_formed(start: Loop, inputs: Seq<LoopInput>)
    requires
        start.wf(),
        legal(start, inputs),
    ensures
        after(start, inputs).wf(),
    decreases inputs.len(),
{
    if inputs.len() > 0 {
        loops_stay_well_formed(start, inputs.drop_last());
    }
}

/// A loop begins with its set-up, which is reported once, and is set up no longer
/// afterwards.
pub proof fn loops_are_set_up_once(inputs: Seq<LoopInput>)
    requires
        legal(Loop::SettingUp, inputs),
    ensures
        inputs.len() > 0 ==> inputs[0].report is SetUp && !(after(
            Loop::SettingUp,
            inputs,
        ) is SettingUp),
        forall|i: int| 0 < i < inputs.len() ==> (#[trigger] inputs[i]).report is Media,
    decreases inputs.len(),
{
    if inputs.len() > 0 {
        let before = inputs.drop_last();
        loops_are_set_up_once(before);
        assert(inputs.last() == inputs[inputs.len() - 1]);
        if before.len() > 0 {
            assert(before[0] == inputs[0]);
        }
        assert forall|i: int| 0 < i < inputs.len() implies (#[trigger] inputs[i]).report is Media by {
            if i < before.len() {
                assert(before[i] == inputs[i]);
            }
        }
    }
}

/// A loop fails where its set-up failed, with the fault of the set-up in words, and
/// nowhere else.
pub proof fn loops_fail_only_in_set_up(inputs: Seq<LoopInput>, cause: Seq<char>)
    requires
        legal(Loop::SettingUp, inputs),
    ensures
        ended(inputs, Err(cause)) <==> inputs.len() == 1 && inputs[0].report == LoopReport::SetUp(
            Err(cause),
        ),
{
    if inputs.len() > 0 {
        loops_are_set_up_once(inputs);
        loops_are_set_up_once(inputs.drop_last());
        assert(inputs.last() == inputs[inputs.len() - 1]);
        if inputs.len() > 1 {
            assert(inputs.last().report is Media);
        }
    }
}

/// A loop that failed has sent and received nothing, and it leaves the engine as it was:
/// its counters, and whether it runs.
pub proof fn failed_loops_did_nothing(engine: Engine, inputs: Seq<LoopInput>, cause: Seq<char>)
    requires
        legal(Loop::SettingUp, inputs),
        ended(inputs, Err(cause)),
    ensures
        socket_uses(Loop::SettingUp, inputs) == 0,
        engine_after(engine, Loop::SettingUp, inputs) == engine,
{
    loops_fail_only_in_set_up(inputs, cause);
    let before = inputs.drop_last();
    assert(socket_uses(Loop::SettingUp, before) == 0);
    assert(engine_after(engine, Loop::SettingUp, before) == engine);
    counts_add_up(engine, 0, 0, 0, 0);
}

/// A loop that has used its socket, or whose set-up succeeded, can only end well.
pub proof fn loops_that_began_end_well(inputs: Seq<LoopInput>, result: Result<(), Seq<char>>)
    requires
        legal(Loop::SettingUp, inputs),
        ended(inputs, result),
        socket_uses(Loop::SettingUp, inputs) > 0 || inputs[0].report matches LoopReport::SetUp(
            Ok(_),
        ),
    ensures
        result is Ok,
{
    if let Err(cause) = result {
        loops_fail_only_in_set_up(inputs, cause);
        assert(socket_uses(Loop::SettingUp, inputs.drop_last()) == 0);
    }
}

/// A loop that has ended waits for nothing more, and every other loop waits for a report.
pub proof fn only_ended_loops_wait_for_nothing(state: Loop)
    requires
        state.wf(),
    ensures
        state is Over <==> forall|report: LoopReport| !state.awaits(report),
{
    match state {
        Loop::SettingUp => {
            assert(state.awaits(LoopReport::SetUp(Err(Seq::empty()))));
        },
        Loop::Running(session) => {
            let report = match session.phase {
                MediaPhase::Ready => Report::Begin,
                MediaPhase::SilenceEncoding => Report::Payload(Seq::empty()),
                MediaPhase::Punching => Report::Punched,
                MediaPhase::Pacing => Report::Paced,
                MediaPhase::Collecting => Report::Collected(None),
                MediaPhase::Sampling => Report::Samples(Seq::empty()),
                MediaPhase::Encoding => Report::Payload(Seq::empty()),
                MediaPhase::Sending => Report::Sent(true),
                MediaPhase::Receiving => Report::Datagram(None),
                MediaPhase::Playing => Report::Played,
                MediaPhase::Finished => Report::Begin,
            };
            assert(state.awaits(LoopReport::Media(report)));
        },
        Loop::Over => {},
    }
}

/// The reports of a run as its session sees them: the set-up is its beginning.
pub open spec fn session_inputs(inputs: Seq<LoopInput>) -> Seq<Input> {
    Seq::new(
        inputs.len(),
        |i: int|
            Input {
                running: inputs[i].running,
                report: match inputs[i].report {
                    LoopReport::Media(report) => report,
                    LoopReport::SetUp(_) => Report::Begin,
                },
            },
    )
}

/// A loop whose set-up succeeded runs as its session does, so that what holds of every
/// run of a session holds of it: it asks for what the session asks for and counts what
/// the session counts, and it is over, and well, when the session has ended.
pub proof fn loops_run_their_session(path: SoundPath, inputs: Seq<LoopInput>)
    requires
        legal(Loop::SettingUp, inputs),
        inputs.len() > 0,
        inputs[0].report == LoopReport::SetUp(Ok(path)),
    ensures
        ({
            let fresh = Session::fresh(path.source, path.stream);
            let seen = session_inputs(inputs);
            let turn = session_laws::last_turn(fresh, seen);
            let own = last_turn(Loop::SettingUp, inputs);
            &&& fresh.wf()
            &&& session_laws::legal(fresh, seen)
            &&& own.work == if turn.work is Finish {
                LoopWork::End(Ok(()))
            } else {
                LoopWork::Media(turn.work)
            }
            &&& own.state == if turn.work is Finish {
                Loop::Over
            } else {
                Loop::Running(turn.session)
            }
            &&& own.sent == turn.sent
            &&& own.received == turn.received
        }),
    decreases inputs.len(),
{
    let fresh = Session::fresh(path.source, path.stream);
    let seen = session_inputs(inputs);
    let before = inputs.drop_last();
    assert(seen.drop_last() =~= session_inputs(before));
    assert(inputs.last() == inputs[inputs.len() - 1]);
    loops_are_set_up_once(inputs);
    if inputs.len() == 1 {
        assert(before.len() == 0);
        assert(session_laws::after(fresh, seen.drop_last()) == fresh);
        assert(session_laws::legal(fresh, seen.drop_last()));
    } else {
        assert(before[0] == inputs[0]);
        loops_run_their_session(path, before);
        assert(inputs.last().report is Media);
        let earlier = session_laws::last_turn(fresh, seen.drop_last());
        assert(session_laws::after(fresh, seen.drop_last()) == earlier.session);
    }
}

/// The contents of actions and reports leave nothing out.
pub proof fn loop_contents_are_complete(
    path: SoundPath,
    fault: AudioFault,
    event: MediaEvent,
    action: MediaAction,
    cause: String,
)
    ensures
        LoopEvent::SetUp(Ok(path))@ == LoopReport::SetUp(Ok(path)),
        LoopEvent::SetUp(Err(fault))@ == LoopReport::SetUp(Err(fault.words())),
        LoopEvent::Media(event)@ == LoopReport::Media(event@),
        LoopAction::Media(action)@ == LoopWork::Media(action@),
        LoopAction::End(Ok(()))@ == LoopWork::End(Ok(())),
        LoopAction::End(Err(cause))@ == LoopWork::End(Err(cause@)),
{
}

/// A loop that is being set up takes every fault, and every set-up whose microphone audio
/// can be cut into frames. A loop that runs takes what its session takes.
pub proof fn loops_take_any_content(path: SoundPath, cause: Seq<char>, session: Session, report: Report)
    ensures
        Loop::SettingUp.awaits(LoopReport::SetUp(Err(cause))),
        Loop::SettingUp.awaits(LoopReport::SetUp(Ok(path))) <==> path.source is Tone
            || path.stream.samples_per_frame > 0,
        Loop::Running(session).awaits(LoopReport::Media(report)) <==> session.awaits(report),
{
}

} // verus!
