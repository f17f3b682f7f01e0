//! The audio of a dialled call from the set-up of its sound devices on, as a state
//! machine.
//!
//! The driver sets the sound devices up and reports how that went. From then on it
//! performs the [`HandsetAction`]s of the call's handset and reports what came of them.
//! The type `E` is that of the errors with which a set-up can fail.

use vstd::prelude::*;

use crate::handset;
use crate::handset::{Handset, HandsetAction, HandsetEvent, HandsetPhase, News, Task};

verus! {

/// What the audio of a call is told.
#[derive(Debug)]
pub enum AudioEvent<E> {
    /// The sound devices were set up, or cannot be used.
    SetUp(Result<(), E>),
    /// What came of an [`AudioAction::Handset`].
    Handset(HandsetEvent),
}

/// What the driver of the audio is to do next.
#[derive(Debug)]
pub enum AudioAction<E> {
    Handset(HandsetAction),
    /// The audio has failed with this error.
    Fail(E),
}

/// The content of an [`AudioEvent`].
pub ghost enum AudioNews<E> {
    SetUp(Result<(), E>),
    Handset(News),
}

/// The content of an [`AudioAction`].
pub ghost enum AudioTask<E> {
    Handset(Task),
    Fail(E),
}

impl<E> View for AudioEvent<E> {
    type V = AudioNews<E>;

    open spec fn view(&self) -> AudioNews<E> {
        match self {
            AudioEvent::SetUp(outcome) => AudioNews::SetUp(*outcome),
            AudioEvent::Handset(event) => AudioNews::Handset(event@),
        }
    }
}

impl<E> View for AudioAction<E> {
    type V = AudioTask<E>;

    open spec fn view(&self) -> AudioTask<E> {
        match self {
            AudioAction::Handset(action) => AudioTask::Handset(action@),
            AudioAction::Fail(cause) => AudioTask::Fail(*cause),
        }
    }
}

/// The audio of a dialled call.
#[derive(Debug)]
pub enum CallAudio {
    /// The sound devices are being set up; the handset waits for them.
    SettingUp(Handset),
    /// The handset runs.
    Running(Handset),
    /// The set-up has failed.
    Failed,
}

impl CallAudio {
    /// A handset that waits for its devices is ready for its first packet time.
    pub open spec fn wf(self) -> bool {
        self matches CallAudio::SettingUp(handset) ==> handset.phase == HandsetPhase::Pacing
    }

    /// The report is one that the audio waits for.
    pub open spec fn awaits<E>(self, news: AudioNews<E>) -> bool {
        match news {
            AudioNews::SetUp(_) => self is SettingUp,
            AudioNews::Handset(news) => self matches CallAudio::Running(handset) && handset.awaits(
                news,
            ),
        }
    }

    /// What the audio does on a report. A set-up that failed ends the audio with its
    /// error, and one that succeeded begins the first packet time.
    pub open spec fn on<E>(self, news: AudioNews<E>) -> (CallAudio, AudioTask<E>) {
        match (self, news) {
            (_, AudioNews::SetUp(Err(cause))) => (CallAudio::Failed, AudioTask::Fail(cause)),
            (CallAudio::Running(handset), AudioNews::Handset(news)) => (
                CallAudio::Running(handset.on(news).0),
                AudioTask::Handset(handset.on(news).1),
            ),
            (CallAudio::SettingUp(handset), _) => (
                CallAudio::Running(handset),
                AudioTask::Handset(Task::Pace),
            ),
            // The audio never waits for anything else.
            _ => (CallAudio::Failed, AudioTask::Handset(Task::Pace)),
        }
    }

    /// The audio of a call that has sent nothing; its sound devices are yet to be set up.
    pub fn new() -> (audio: Self)
        ensures
            audio.wf(),
            match audio {
                CallAudio::SettingUp(handset) => {
                    &&& handset.stream.payload_type == 0
                    &&& handset.stream.sequence == 0
                    &&& handset.stream.timestamp == 0
                    &&& handset.stream.samples_per_frame == 160
                },
                _ => false,
            },
    {
        CallAudio::SettingUp(Handset::new())
    }

    /// Whether the report is one that the audio waits for.
    pub fn accepts<E>(&self, event: &AudioEvent<E>) -> (yes: bool)
        ensures
            yes == self.awaits(event@),
    {
        match (self, event) {
            (CallAudio::SettingUp(_), AudioEvent::SetUp(_)) => true,
            (CallAudio::Running(handset), AudioEvent::Handset(event)) => handset.accepts(event),
            _ => false,
        }
    }

    /// Takes the report and says what to do next.
    pub fn step<E>(&mut self, event: AudioEvent<E>) -> (action: AudioAction<E>)
        requires
            old(self).awaits(event@),
        ensures
            (*final(self), action@) == old(self).on(event@),
    {
        let mut state = CallAudio::Failed;
        std::mem::swap(&mut state, self);
        match (state, event) {
            (_, AudioEvent::SetUp(Err(cause))) => AudioAction::Fail(cause),
            (CallAudio::Running(handset), AudioEvent::Handset(event)) => {
                let mut handset = handset;
                let action = handset.step(event);
                *self = CallAudio::Running(handset);
                AudioAction::Handset(action)
            },
            (CallAudio::SettingUp(handset), _) => {
                *self = CallAudio::Running(handset);
                AudioAction::Handset(HandsetAction::Pace)
            },
            _ => AudioAction::Handset(HandsetAction::Pace),
        }
    }
}

/// The audio after a run of reports.
pub open spec fn after<E>(start: CallAudio, news: Seq<AudioNews<E>>) -> CallAudio
    decreases news.len(),
{
    if news.len() == 0 {
        start
    } else {
        after(start, news.drop_last()).on(news.last()).0
    }
}

/// What a run of reports asked for last.
pub open spec fn last_task<E>(start: CallAudio, news: Seq<AudioNews<E>>) -> AudioTask<E> {
    after(start, news.drop_last()).on(news.last()).1
}

/// Every report of the run came when the audio waited for it.
pub open spec fn legal<E>(start: CallAudio, news: Seq<AudioNews<E>>) -> bool
    decreases news.len(),
{
    news.len() == 0 || {
        &&& legal(start, news.drop_last())
        &&& after(start, news.drop_last()).awaits(news.last())
    }
}

/// How often a run asked for work on the socket: sending a packet or receiving one.
pub open spec fn socket_uses<E>(start: CallAudio, news: Seq<AudioNews<E>>) -> nat
    decreases news.len(),
{
    if news.len() == 0 {
        0
    } else {
        socket_uses(start, news.drop_last()) + match last_task(start, news) {
            AudioTask::Handset(Task::Send(_)) => 1nat,
            AudioTask::Handset(Task::Receive) => 1nat,
            _ => 0nat,
        }
    }
}

/// The reports of a run to its handset, which begin after the set-up.
pub open spec fn handset_news<E>(news: Seq<AudioNews<E>>) -> Seq<News> {
    Seq::new((news.len() - 1) as nat, |i: int| news[i + 1]->Handset_0)
}

/// Audio that was set up runs as its handset does and never ends: whatever is reported,
/// lost packets and missing ones among it, the handset goes on and waits for a report.
/// What holds of every run of a handset holds of it.
pub proof fn audio_that_was_set_up_never_ends<E>(first: Handset, news: Seq<AudioNews<E>>)
    requires
        CallAudio::SettingUp(first).wf(),
        legal(CallAudio::SettingUp(first), news),
        news.len() > 0,
        news[0] matches AudioNews::SetUp(Ok(_)),
    ensures
        ({
            let start = CallAudio::SettingUp(first);
            let handset = handset::after(first, handset_news(news));
            &&& after(start, news) == CallAudio::Running(handset)
            &&& last_task(start, news) == AudioTask::<E>::Handset(
                if news.len() == 1 {
                    Task::Pace
                } else {
                    let earlier = handset::after(first, handset_news(news.drop_last()));
                    earlier.on(handset_news(news).last()).1
                },
            )
            &&& exists|next: AudioNews<E>| after(start, news).awaits(next)
        }),
    decreases news.len(),
{
    let start = CallAudio::SettingUp(first);
    let before = news.drop_last();
    assert(news.last() == news[news.len() - 1]);
    if news.len() == 1 {
        assert(after(start, before) == start);
        assert(handset_news(news) =~= Seq::empty());
    } else {
        assert(before[0] == news[0]);
        audio_that_was_set_up_never_ends(first, before);
        assert(handset_news(news).drop_last() =~= handset_news(before));
    }
    let handset = handset::after(first, handset_news(news));
    let next = match handset.phase {
        HandsetPhase::Pacing => News::Paced(Seq::empty()),
        HandsetPhase::Encoding => News::Payload(Seq::empty()),
        HandsetPhase::Sending => News::Sent,
        HandsetPhase::Receiving => News::Incoming(None),
        HandsetPhase::Playing => News::Played,
    };
    assert(after(start, news).awaits(AudioNews::<E>::Handset(next)));
}

/// The audio of a call fails where its set-up failed, with the error of the set-up, and
/// nowhere else. It then has sent and received nothing, and waits for nothing more.
pub proof fn audio_fails_only_in_set_up<E>(first: Handset, news: Seq<AudioNews<E>>, cause: E)
    requires
        CallAudio::SettingUp(first).wf(),
        legal(CallAudio::SettingUp(first), news),
        news.len() > 0,
    ensures
        ({
            let start = CallAudio::SettingUp(first);
            let failed = last_task(start, news) == AudioTask::Fail(cause);
            &&& failed <==> news.len() == 1 && news[0] == AudioNews::<E>::SetUp(Err(cause))
            &&& failed ==> socket_uses(start, news) == 0
            &&& failed ==> forall|next: AudioNews<E>| !after(start, news).awaits(next)
        }),
{
    let start = CallAudio::SettingUp(first);
    let before = news.drop_last();
    assert(news.last() == news[news.len() - 1]);
    if news.len() == 1 {
        assert(after(start, before) == start);
        assert(socket_uses(start, before) == 0);
    } else {
        lemma_first_is_set_up(first, before);
        assert(before[0] == news[0]);
        audio_that_was_set_up_never_ends(first, news);
    }
}

/// A run that the audio outlives begins with a set-up that succeeded.
proof fn lemma_first_is_set_up<E>(first: Handset, news: Seq<AudioNews<E>>)
    requires
        legal(CallAudio::SettingUp(first), news),
        news.len() > 0,
        exists|next: AudioNews<E>| after(CallAudio::SettingUp(first), news).awaits(next),
    ensures
        news[0] matches AudioNews::SetUp(Ok(_)),
    decreases news.len(),
{
    let start = CallAudio::SettingUp(first);
    let before = news.drop_last();
    assert(news.last() == news[news.len() - 1]);
    if news.len() == 1 {
        assert(after(start, before) == start);
    } else {
        lemma_first_is_set_up(first, before);
        assert(before[0] == news[0]);
    }
}

/// Audio that is being set up takes every outcome, and audio that runs takes what its
/// handset takes.
pub proof fn audio_takes_any_content<E>(handset: Handset, outcome: Result<(), E>, news: News)
    ensures
        CallAudio::SettingUp(handset).awaits(AudioNews::SetUp(outcome)),
        CallAudio::Running(handset).awaits(AudioNews::<E>::Handset(news)) <==> handset.awaits(news),
{
}

/// The contents of actions and reports leave nothing out.
pub proof fn audio_contents_are_complete<E>(
    event: HandsetEvent,
    action: HandsetAction,
    outcome: Result<(), E>,
    cause: E,
)
    ensures
        AudioEvent::<E>::Handset(event)@ == AudioNews::<E>::Handset(event@),
        AudioEvent::SetUp(outcome)@ == AudioNews::SetUp(outcome),
        AudioAction::<E>::Handset(action)@ == AudioTask::<E>::Handset(action@),
        AudioAction::Fail(cause)@ == AudioTask::Fail(cause),
{
}

} // verus!
