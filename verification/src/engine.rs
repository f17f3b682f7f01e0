//! The life of the media engine: starting, falling back to virtual audio, stopping.

use vstd::prelude::*;
use vstd::string::*;

use crate::audio::told_after;
use crate::event::{Notice, UacEvent};
use crate::text::words;

verus! {

/// Which media loop a worker runs, and why.
#[derive(Debug, Clone, Copy, PartialEq, Eq, Structural)]
pub enum Stage {
    /// The virtual sound device, because the engine is headless.
    Headless,
    /// The sound hardware.
    Hardware,
    /// The virtual sound device, because the sound hardware failed.
    Fallback,
}

/// What a worker of the engine is to do next.
#[derive(Debug)]
pub enum WorkerAction {
    /// Tell the listener.
    Emit(UacEvent),
    /// Run a media loop and report its end.
    Run(Stage),
    /// Stop the engine: the worker is done.
    Rest,
}

/// The content of a [`WorkerAction`].
pub ghost enum Duty {
    Emit(Notice),
    Run(Stage),
    Rest,
}

impl View for WorkerAction {
    type V = Duty;

    open spec fn view(&self) -> Duty {
        match self {
            WorkerAction::Emit(event) => Duty::Emit(event@),
            WorkerAction::Run(stage) => Duty::Run(*stage),
            WorkerAction::Rest => Duty::Rest,
        }
    }
}

/// The content of a list of actions.
pub open spec fn duties(actions: Seq<WorkerAction>) -> Seq<Duty> {
    Seq::new(actions.len(), |i: int| actions[i]@)
}

/// The media engine: whether it runs, and how many packets it sent and received.
#[derive(Debug)]
pub struct RtpEngine {
    is_running: bool,
    pub rx_count: u64,
    pub tx_count: u64,
    headless_mode: bool,
}

/// The state of an [`RtpEngine`].
#[verifier::ext_equal]
pub ghost struct Engine {
    pub running: bool,
    /// The virtual sound device is used from the start.
    pub headless: bool,
    pub rx_count: u64,
    pub tx_count: u64,
}

impl Engine {
    /// The engine after `sent` more packets were sent and `received` more came in. The
    /// counters wrap around.
    pub open spec fn counted(self, sent: nat, received: nat) -> Engine {
        Engine {
            tx_count: ((self.tx_count + sent) % 0x1_0000_0000_0000_0000) as u64,
            rx_count: ((self.rx_count + received) % 0x1_0000_0000_0000_0000) as u64,
            ..self
        }
    }
}

impl View for RtpEngine {
    type V = Engine;

    closed spec fn view(&self) -> Engine {
        Engine {
            running: self.is_running,
            headless: self.headless_mode,
            rx_count: self.rx_count,
            tx_count: self.tx_count,
        }
    }
}

/// What a new worker does first.
pub open spec fn opening(headless: bool) -> Seq<Duty> {
    if headless {
        seq![
            Duty::Emit(Notice::Log("👻 Booting Virtual DSP (Headless)"@)),
            Duty::Run(Stage::Headless),
        ]
    } else {
        seq![
            Duty::Emit(Notice::Log("🎤 Connecting to Hardware Mic/Speaker..."@)),
            Duty::Run(Stage::Hardware),
        ]
    }
}

/// What follows the end of a loop: a failed hardware loop is followed by the virtual
/// device, anything else ends the worker, after the failure was told.
pub open spec fn sequel(stage: Stage, result: Result<(), Seq<char>>) -> Seq<Duty> {
    match (stage, result) {
        (_, Ok(_)) => seq![Duty::Rest],
        (Stage::Headless, Err(cause)) => seq![
            Duty::Emit(Notice::Error("Virtual DSP Error: "@ + cause)),
            Duty::Rest,
        ],
        (Stage::Hardware, Err(cause)) => seq![
            Duty::Emit(
                Notice::Log(
                    "⚠️ Hardware Audio Failed: "@ + cause + ". FALLING BACK TO VIRTUAL AUDIO!"@,
                ),
            ),
            Duty::Run(Stage::Fallback),
        ],
        (Stage::Fallback, Err(cause)) => seq![
            Duty::Emit(Notice::Error("Fallback also failed: "@ + cause)),
            Duty::Rest,
        ],
    }
}

/// What follows a panic of the worker.
pub open spec fn alarm(reason: Option<Seq<char>>) -> Seq<Duty> {
    seq![
        Duty::Emit(
            Notice::Error(
                "☠️ CRITICAL: RTP Thread Panicked! Reason: "@ + match reason {
                    Some(text) => text,
                    None => "Unknown panic reason"@,
                },
            ),
        ),
        Duty::Rest,
    ]
}

/// The cause in a failed result.
pub open spec fn cause_of(result: Result<(), String>) -> Result<(), Seq<char>> {
    match result {
        Ok(_) => Ok(()),
        Err(cause) => Err(cause@),
    }
}

impl RtpEngine {
    /// An engine that does not run and has counted nothing.
    pub fn new(headless: bool) -> (engine: Self)
        ensures
            engine@ == (Engine { running: false, headless, rx_count: 0, tx_count: 0 }),
    {
        RtpEngine { is_running: false, rx_count: 0, tx_count: 0, headless_mode: headless }
    }

    /// Whether the engine runs.
    pub fn is_running(&self) -> (running: bool)
        ensures
            running == self@.running,
    {
        self.is_running
    }

    /// Starts the engine. The result is what a new worker does first; an engine that
    /// already runs gets no second worker.
    pub fn start(&mut self) -> (actions: Option<Vec<WorkerAction>>)
        ensures
            final(self)@ == (Engine { running: true, ..old(self)@ }),
            match actions {
                Some(first) => {
                    &&& !old(self)@.running
                    &&& duties(first@) == opening(old(self)@.headless)
                },
                None => old(self)@.running,
            },
    {
        if self.is_running {
            return None;
        }
        self.is_running = true;
        let mut first: Vec<WorkerAction> = Vec::new();
        if self.headless_mode {
            first.push(
                WorkerAction::Emit(UacEvent::Log("👻 Booting Virtual DSP (Headless)".to_owned())),
            );
            first.push(WorkerAction::Run(Stage::Headless));
        } else {
            first.push(
                WorkerAction::Emit(
                    UacEvent::Log("🎤 Connecting to Hardware Mic/Speaker...".to_owned()),
                ),
            );
            first.push(WorkerAction::Run(Stage::Hardware));
        }
        assert(duties(first@) =~= opening(old(self)@.headless));
        Some(first)
    }

    /// Stops the engine. A worker that still runs ends before its next packet time.
    pub fn stop(&mut self)
        ensures
            final(self)@ == (Engine { running: false, ..old(self)@ }),
    {
        self.is_running = false;
    }

    /// The number of packets received so far, as far as the counter can show it.
    pub fn received(&self) -> (count: u64)
        ensures
            count == self@.rx_count,
    {
        self.rx_count
    }

    /// The number of packets sent so far, as far as the counter can show it.
    pub fn sent(&self) -> (count: u64)
        ensures
            count == self@.tx_count,
    {
        self.tx_count
    }

    /// Counts a packet that was sent.
    pub fn count_sent(&mut self)
        ensures
            final(self)@ == old(self)@.counted(1, 0),
    {
        self.tx_count = self.tx_count.wrapping_add(1);
    }

    /// Counts a packet that was received.
    pub fn count_received(&mut self)
        ensures
            final(self)@ == old(self)@.counted(0, 1),
    {
        self.rx_count = self.rx_count.wrapping_add(1);
    }
}

/// Packets counted one after the other add up.
pub proof fn counts_add_up(
    engine: Engine,
    sent: nat,
    received: nat,
    more_sent: nat,
    more_received: nat,
)
    ensures
        engine.counted(sent, received).counted(more_sent, more_received) == engine.counted(
            sent + more_sent,
            received + more_received,
        ),
        engine.counted(0, 0) == engine,
{
    vstd::arithmetic::div_mod::lemma_add_mod_noop_right(
        more_sent as int,
        engine.tx_count + sent,
        0x1_0000_0000_0000_0000,
    );
    vstd::arithmetic::div_mod::lemma_add_mod_noop_right(
        more_received as int,
        engine.rx_count + received,
        0x1_0000_0000_0000_0000,
    );
}

/// Decides what follows the end of a media loop.
pub fn after_loop(stage: Stage, result: Result<(), String>) -> (actions: Vec<WorkerAction>)
    ensures
        duties(actions@) == sequel(stage, cause_of(result)),
{
    let mut actions: Vec<WorkerAction> = Vec::new();
    match result {
        Ok(_) => {
            actions.push(WorkerAction::Rest);
        },
        Err(cause) => match stage {
            Stage::Headless => {
                let text = "Virtual DSP Error: ".to_owned().concat(cause.as_str());
                actions.push(WorkerAction::Emit(UacEvent::Error(text)));
                actions.push(WorkerAction::Rest);
            },
            Stage::Hardware => {
                let text = "⚠️ Hardware Audio Failed: ".to_owned().concat(
                    cause.as_str(),
                ).concat(". FALLING BACK TO VIRTUAL AUDIO!");
                actions.push(WorkerAction::Emit(UacEvent::Log(text)));
                actions.push(WorkerAction::Run(Stage::Fallback));
            },
            Stage::Fallback => {
                let text = "Fallback also failed: ".to_owned().concat(cause.as_str());
                actions.push(WorkerAction::Emit(UacEvent::Error(text)));
                actions.push(WorkerAction::Rest);
            },
        },
    }
    assert(duties(actions@) =~= sequel(stage, cause_of(result)));
    actions
}

/// Decides what follows a panic of the worker, whose reason may be unknown.
pub fn after_panic(reason: Option<String>) -> (actions: Vec<WorkerAction>)
    ensures
        duties(actions@) == alarm(words(reason)),
{
    let ghost known = words(reason);
    let reason = match reason {
        Some(text) => text,
        None => "Unknown panic reason".to_owned(),
    };
    let text = "☠️ CRITICAL: RTP Thread Panicked! Reason: ".to_owned().concat(reason.as_str());
    let mut actions: Vec<WorkerAction> = Vec::new();
    actions.push(WorkerAction::Emit(UacEvent::Error(text)));
    actions.push(WorkerAction::Rest);
    assert(duties(actions@) =~= alarm(known));
    actions
}

/// The loop that a list of duties ends with, if it ends with one.
pub open spec fn loop_in(list: Seq<Duty>) -> Option<Stage> {
    match list.last() {
        Duty::Run(stage) => Some(stage),
        _ => None,
    }
}

/// Everything that a worker does whose loops end with the given results, in order.
/// Results past the end of the worker are not used.
pub open spec fn course(list: Seq<Duty>, results: Seq<Result<(), Seq<char>>>) -> Seq<Duty>
    decreases results.len(),
{
    match loop_in(list) {
        Some(stage) => if results.len() > 0 {
            list + course(sequel(stage, results[0]), results.drop_first())
        } else {
            list
        },
        None => list,
    }
}

/// The last duty, and no other, is to stop the engine.
pub open spec fn rests_last(list: Seq<Duty>) -> bool {
    &&& list.len() > 0
    &&& list.last() is Rest
    &&& forall|i: int| 0 <= i < list.len() - 1 ==> !((#[trigger] list[i]) is Rest)
}

/// A worker runs one loop, or two where the first was the sound hardware and failed:
/// then the second is the virtual device. Either way it stops the engine exactly once,
/// as the last thing it does.
pub proof fn workers_fall_back_at_most_once(
    headless: bool,
    first: Result<(), Seq<char>>,
    second: Result<(), Seq<char>>,
)
    ensures
        ({
            let whole = course(opening(headless), seq![first, second]);
            if !headless && first is Err {
                whole == opening(false) + sequel(Stage::Hardware, first) + sequel(
                    Stage::Fallback,
                    second,
                )
            } else if headless {
                whole == opening(true) + sequel(Stage::Headless, first)
            } else {
                whole == opening(false) + sequel(Stage::Hardware, first)
            }
        }),
        rests_last(course(opening(headless), seq![first, second])),
{
    let results = seq![first, second];
    let begun = opening(headless);
    let rest = results.drop_first();
    assert(rest =~= seq![second]);
    assert(rest.drop_first() =~= Seq::empty());
    let stage = if headless {
        Stage::Headless
    } else {
        Stage::Hardware
    };
    let middle = sequel(stage, first);
    let end = sequel(Stage::Fallback, second);
    assert(loop_in(begun) == Some(stage));
    assert(loop_in(end) is None);
    assert(course(end, rest.drop_first()) == end);
    if !headless && first is Err {
        assert(loop_in(middle) == Some(Stage::Fallback));
        assert(course(middle, rest) == middle + end);
        assert(begun + (middle + end) =~= begun + middle + end);
    } else {
        assert(loop_in(middle) is None);
        assert(course(middle, rest) == middle);
    }
}

/// A packet that was sent moves the one counter on by one, a packet that was received
/// the other; behind the largest number a counter goes on with zero.
pub proof fn counters_move_by_one(engine: Engine)
    ensures
        engine.counted(1, 0).tx_count == if engine.tx_count == u64::MAX {
            0
        } else {
            engine.tx_count + 1
        },
        engine.counted(1, 0).rx_count == engine.rx_count,
        engine.counted(0, 1).rx_count == if engine.rx_count == u64::MAX {
            0
        } else {
            engine.rx_count + 1
        },
        engine.counted(0, 1).tx_count == engine.tx_count,
        engine.counted(1, 0).running == engine.running,
        engine.counted(0, 1).running == engine.running,
        engine.counted(1, 0).headless == engine.headless,
        engine.counted(0, 1).headless == engine.headless,
{
}

/// A loop that failed is told of with its whole cause. Failed hardware is followed by
/// the virtual device, and every other failure is the end of the worker.
pub proof fn failures_are_told_in_full(cause: String)
    ensures
        cause_of(Err(cause)) == Err::<(), Seq<char>>(cause@),
        sequel(Stage::Headless, Err(cause@)).len() == 2,
        sequel(Stage::Headless, Err(cause@))[0] matches Duty::Emit(Notice::Error(text))
            && told_after(text, "Virtual DSP Error: "@, cause@),
        sequel(Stage::Headless, Err(cause@))[1] is Rest,
        sequel(Stage::Hardware, Err(cause@)).len() == 2,
        sequel(Stage::Hardware, Err(cause@))[0] matches Duty::Emit(Notice::Log(text))
            && told_between(
            text,
            "⚠️ Hardware Audio Failed: "@,
            cause@,
            ". FALLING BACK TO VIRTUAL AUDIO!"@,
        ),
        sequel(Stage::Hardware, Err(cause@))[1] == Duty::Run(Stage::Fallback),
        sequel(Stage::Fallback, Err(cause@)).len() == 2,
        sequel(Stage::Fallback, Err(cause@))[0] matches Duty::Emit(Notice::Error(text))
            && told_after(text, "Fallback also failed: "@, cause@),
        sequel(Stage::Fallback, Err(cause@))[1] is Rest,
        alarm(Some(cause@)).len() == 2,
        alarm(Some(cause@))[0] matches Duty::Emit(Notice::Error(text)) && told_after(
            text,
            "☠️ CRITICAL: RTP Thread Panicked! Reason: "@,
            cause@,
        ),
        alarm(Some(cause@))[1] is Rest,
{
}

/// The text is the lead, every character of the cause, and the end.
pub open spec fn told_between(
    text: Seq<char>,
    lead: Seq<char>,
    cause: Seq<char>,
    end: Seq<char>,
) -> bool {
    &&& text.len() == lead.len() + cause.len() + end.len()
    &&& told_after(text.take((lead.len() + cause.len()) as int), lead, cause)
    &&& forall|i: int| 0 <= i < end.len() ==> text[lead.len() + cause.len() + i] == #[trigger] end[i]
}

/// The contents of a list of actions leave nothing out.
pub proof fn worker_contents_are_complete(
    event: UacEvent,
    stage: Stage,
    actions: Seq<WorkerAction>,
)
    ensures
        WorkerAction::Emit(event)@ == Duty::Emit(event@),
        WorkerAction::Run(stage)@ == Duty::Run(stage),
        duties(actions).len() == actions.len(),
        forall|i: int| 0 <= i < actions.len() ==> #[trigger] duties(actions)[i] == actions[i]@,
{
}

} // verus!
