//! Placing a call: the decisions of the calling party, as a state machine.
//!
//! Whoever drives the client binds a socket, performs the [`CallAction`]s of each step
//! in order, and reports what comes in. An action that fails ends the call there, with
//! its error; a failure of the audio is reported first, so that the call is closed.

use vstd::prelude::*;
use vstd::string::*;
use vstd::utf8::encode_utf8;

use crate::event::{Notice, UacEvent};
use crate::random::{random_u16, random_u32};
use crate::sip::{
    ack, build_ack, build_bye, build_invite, bye, carries, invite, lemma_in_call_carries,
    media_port, offer, offered, open_dialog, CallTarget, Dialog, Offered, Request, Response,
    SipHeaderName, SipMethod, SipRequest, SipResponse, Target,
};
use crate::text::{append_decimal, decimal, words};

verus! {

/// The port on which the far end listens for audio.
pub const RTP_PORT: u16 = 30000;

/// What a client keeps of an accepted call until it is closed.
#[derive(Debug)]
pub struct Conversation {
    pub dialog: Dialog,
    /// Where the answer came from.
    pub peer: String,
    /// The To value of the answer, where it had one.
    pub answered_to: Option<String>,
}

/// The content of a [`Conversation`].
pub ghost struct Accepted {
    pub dialog: Offered,
    pub peer: Seq<char>,
    pub answered_to: Option<Seq<char>>,
}

impl View for Conversation {
    type V = Accepted;

    open spec fn view(&self) -> Accepted {
        Accepted {
            dialog: self.dialog@,
            peer: self.peer@,
            answered_to: words(self.answered_to),
        }
    }
}

/// How far a call has come.
#[derive(Debug)]
pub enum CallState {
    /// No call was placed.
    Idle,
    /// The INVITE is out and not decided.
    Dialing(Dialog),
    /// The call was accepted and its audio runs.
    Talking(Conversation),
    /// The call is over.
    Over,
}

/// What the driver of a call is to do next.
#[derive(Debug)]
pub enum CallAction {
    /// Tell the listener.
    Emit(UacEvent),
    /// Send this request to the target's address.
    Send(SipRequest),
    /// Run the audio of the call from this local port against this port of the target,
    /// and report its end or its failure.
    OpenAudio { local_port: u16, far_port: u16 },
    /// The call has come to its regular end.
    Finish,
}

/// The content of a [`CallState`].
pub ghost enum State {
    Idle,
    Dialing(Offered),
    Talking(Accepted),
    Over,
}

/// The content of a [`CallAction`].
pub ghost enum Deed {
    Emit(Notice),
    Send(Request),
    OpenAudio { local_port: u16, far_port: u16 },
    Finish,
}

impl View for CallState {
    type V = State;

    open spec fn view(&self) -> State {
        match self {
            CallState::Idle => State::Idle,
            CallState::Dialing(dialog) => State::Dialing(dialog@),
            CallState::Talking(talk) => State::Talking(talk@),
            CallState::Over => State::Over,
        }
    }
}

impl View for CallAction {
    type V = Deed;

    open spec fn view(&self) -> Deed {
        match self {
            CallAction::Emit(event) => Deed::Emit(event@),
            CallAction::Send(request) => Deed::Send(request@),
            CallAction::OpenAudio { local_port, far_port } => Deed::OpenAudio {
                local_port: *local_port,
                far_port: *far_port,
            },
            CallAction::Finish => Deed::Finish,
        }
    }
}

/// The content of a list of actions.
pub open spec fn deeds(actions: Seq<CallAction>) -> Seq<Deed> {
    Seq::new(actions.len(), |i: int| actions[i]@)
}

/// What placing a call asks for.
pub open spec fn dialling(target: Target, port: u16, number: u32, branch: u16) -> Seq<Deed> {
    seq![
        Deed::Emit(Notice::Status("Dialing Hardware..."@)),
        Deed::Send(invite(target, port, number, branch)),
    ]
}

/// A call was placed with the given numbers: the client waits for its answer and asks
/// for what placing it takes.
pub open spec fn placed(
    state: State,
    asked: Seq<Deed>,
    target: Target,
    port: u16,
    number: u32,
    branch: u16,
) -> bool {
    &&& state == State::Dialing(offered(target, port, number))
    &&& asked == dialling(target, port, number, branch)
}

/// What an accepted call asks for. Its audio runs on the port that was offered.
pub open spec fn connecting(talk: Accepted) -> Seq<Deed> {
    seq![
        Deed::Emit(Notice::Status("CONNECTED (Hardware Active)"@)),
        Deed::Send(ack(talk.dialog, talk.peer, talk.answered_to)),
        Deed::OpenAudio { local_port: talk.dialog.media_port, far_port: RTP_PORT },
    ]
}

/// What a rejected call asks for.
pub open spec fn giving_up(status_code: u16) -> Seq<Deed> {
    seq![
        Deed::Emit(Notice::Error("Call Rejected: "@ + decimal(status_code as nat))),
        Deed::Emit(Notice::CallEnded),
        Deed::Finish,
    ]
}

/// What the end of the audio asks for.
pub open spec fn hanging_up(talk: Accepted) -> Seq<Deed> {
    seq![
        Deed::Send(bye(talk.dialog, talk.peer, talk.answered_to)),
        Deed::Emit(Notice::CallEnded),
        Deed::Finish,
    ]
}

/// What a failure of the audio asks for. The call then ends with the failure.
pub open spec fn breaking_off(talk: Accepted) -> Seq<Deed> {
    seq![Deed::Send(bye(talk.dialog, talk.peer, talk.answered_to))]
}

/// A client reacts to a message that came from `peer`, which is `None` where it could
/// not be read. Only a client that dials reacts: status 200 accepts the call, 300 and
/// above rejects it, anything else leaves it undecided.
pub open spec fn on_message(state: State, peer: Seq<char>, message: Option<Response>) -> (
    State,
    Seq<Deed>,
) {
    match (state, message) {
        (State::Dialing(dialog), Some(response)) => if response.status_code == 200 {
            let talk = Accepted { dialog, peer, answered_to: response.to };
            (State::Talking(talk), connecting(talk))
        } else if response.status_code >= 300 {
            (State::Over, giving_up(response.status_code))
        } else {
            (state, Seq::empty())
        },
        _ => (state, Seq::empty()),
    }
}

/// A client reacts to the end of its audio.
pub open spec fn on_audio_end(state: State) -> (State, Seq<Deed>) {
    match state {
        State::Talking(talk) => (State::Over, hanging_up(talk)),
        _ => (state, Seq::empty()),
    }
}

/// A client reacts to a failure of its audio.
pub open spec fn on_audio_failure(state: State) -> (State, Seq<Deed>) {
    match state {
        State::Talking(talk) => (State::Over, breaking_off(talk)),
        _ => (state, Seq::empty()),
    }
}

/// A message as its content.
pub open spec fn message_view(message: Option<SipResponse>) -> Option<Response> {
    match message {
        Some(response) => Some(response@),
        None => None,
    }
}

/// The calling party.
#[derive(Debug)]
pub struct UacClient {
    state: CallState,
}

impl View for UacClient {
    type V = State;

    closed spec fn view(&self) -> State {
        self.state@
    }
}

impl UacClient {
    /// A client that has placed no call.
    pub fn new() -> (client: Self)
        ensures
            client@ is Idle,
    {
        UacClient { state: CallState::Idle }
    }

    /// Places a call from a socket that is bound to `bound_port`, under a Call-ID and a
    /// branch with random numbers. A call that was in progress is forgotten.
    pub fn start_call(
        &mut self,
        bound_port: u16,
        target_ip: String,
        target_port: u16,
        to_user: String,
        from_user: String,
    ) -> (actions: Vec<CallAction>)
        requires
            media_port(bound_port) <= u16::MAX,
        ensures
            exists|number: u32, branch: u16|
                placed(
                    final(self)@,
                    deeds(actions@),
                    Target {
                        ip: target_ip@,
                        port: target_port,
                        to_user: to_user@,
                        from_user: from_user@,
                    },
                    bound_port,
                    number,
                    branch,
                ),
    {
        let number = random_u32();
        let branch = random_u16();
        let target = CallTarget { ip: target_ip, port: target_port, to_user, from_user };
        let actions = self.start_numbered_call(bound_port, &target, number, branch);
        assert(placed(self@, deeds(actions@), target@, bound_port, number, branch));
        actions
    }

    /// Places a call from a socket that is bound to `bound_port`, with the given numbers
    /// in its Call-ID and its branch. A call that was in progress is forgotten.
    pub fn start_numbered_call(
        &mut self,
        bound_port: u16,
        target: &CallTarget,
        number: u32,
        branch: u16,
    ) -> (actions: Vec<CallAction>)
        requires
            media_port(bound_port) <= u16::MAX,
        ensures
            placed(final(self)@, deeds(actions@), target@, bound_port, number, branch),
    {
        self.state = CallState::Dialing(open_dialog(target, bound_port, number));
        let mut actions: Vec<CallAction> = Vec::new();
        actions.push(CallAction::Emit(UacEvent::Status("Dialing Hardware...".to_owned())));
        actions.push(CallAction::Send(build_invite(target, bound_port, number, branch)));
        assert(deeds(actions@) =~= dialling(target@, bound_port, number, branch));
        actions
    }

    /// Reacts to a message that came from `peer`; `None` is one that could not be read.
    pub fn receive(&mut self, peer: &str, message: Option<SipResponse>) -> (actions: Vec<
        CallAction,
    >)
        ensures
            (final(self)@, deeds(actions@)) == on_message(
                old(self)@,
                peer@,
                message_view(message),
            ),
    {
        let mut actions: Vec<CallAction> = Vec::new();
        assert(deeds(actions@) =~= Seq::empty());
        let response = match message {
            Some(response) => response,
            None => {
                return actions;
            },
        };
        let status_code: u16 = response.status_code;
        if let CallState::Dialing(dialog) = &self.state {
            if status_code == 200 {
                let talk = Conversation {
                    dialog: dialog.clone(),
                    peer: peer.to_owned(),
                    answered_to: response.to,
                };
                actions.push(
                    CallAction::Emit(UacEvent::Status("CONNECTED (Hardware Active)".to_owned())),
                );
                let ack = build_ack(dialog, peer, copy_of(&talk.answered_to));
                actions.push(CallAction::Send(ack));
                actions.push(
                    CallAction::OpenAudio {
                        local_port: dialog.media_port,
                        far_port: RTP_PORT,
                    },
                );
                assert(deeds(actions@) =~= connecting(talk@));
                self.state = CallState::Talking(talk);
            } else if status_code >= 300 {
                let mut text = "Call Rejected: ".to_owned();
                append_decimal(&mut text, status_code as u64);
                actions.push(CallAction::Emit(UacEvent::Error(text)));
                actions.push(CallAction::Emit(UacEvent::CallEnded));
                actions.push(CallAction::Finish);
                assert(deeds(actions@) =~= giving_up(status_code));
                self.state = CallState::Over;
            }
        }
        actions
    }

    /// Reacts to the regular end of the call's audio: the call is closed with a BYE.
    pub fn audio_ended(&mut self) -> (actions: Vec<CallAction>)
        ensures
            (final(self)@, deeds(actions@)) == on_audio_end(old(self)@),
    {
        let mut actions: Vec<CallAction> = Vec::new();
        assert(deeds(actions@) =~= Seq::empty());
        if let CallState::Talking(talk) = &self.state {
            actions.push(CallAction::Send(talk.closing_request()));
            actions.push(CallAction::Emit(UacEvent::CallEnded));
            actions.push(CallAction::Finish);
            assert(deeds(actions@) =~= hanging_up(talk@));
            self.state = CallState::Over;
        }
        actions
    }

    /// Reacts to a failure of the call's audio: the call is closed with a BYE, and ends
    /// with the failure.
    pub fn audio_failed(&mut self) -> (actions: Vec<CallAction>)
        ensures
            (final(self)@, deeds(actions@)) == on_audio_failure(old(self)@),
    {
        let mut actions: Vec<CallAction> = Vec::new();
        assert(deeds(actions@) =~= Seq::empty());
        if let CallState::Talking(talk) = &self.state {
            actions.push(CallAction::Send(talk.closing_request()));
            assert(deeds(actions@) =~= breaking_off(talk@));
            self.state = CallState::Over;
        }
        actions
    }
}

/// A header value once more.
fn copy_of(value: &Option<String>) -> (copy: Option<String>)
    ensures
        words(copy) == words(*value),
{
    match value {
        Some(text) => Some(text.clone()),
        None => None,
    }
}

impl Conversation {
    /// The BYE of the call.
    fn closing_request(&self) -> (request: SipRequest)
        ensures
            request@ == bye(self@.dialog, self@.peer, self@.answered_to),
    {
        build_bye(&self.dialog, self.peer.as_str(), copy_of(&self.answered_to))
    }
}

/// What can happen to a placed call.
pub ghost enum Happening {
    /// A message came from a peer; `None` is one that could not be read.
    Message(Seq<char>, Option<Response>),
    /// The audio ended.
    AudioEnd,
    /// The audio failed.
    AudioFailure,
}

/// The reaction to a happening.
pub open spec fn on(state: State, happening: Happening) -> (State, Seq<Deed>) {
    match happening {
        Happening::Message(peer, message) => on_message(state, peer, message),
        Happening::AudioEnd => on_audio_end(state),
        Happening::AudioFailure => on_audio_failure(state),
    }
}

/// The state after a course of happenings.
pub open spec fn after(start: State, course: Seq<Happening>) -> State
    decreases course.len(),
{
    if course.len() == 0 {
        start
    } else {
        on(after(start, course.drop_last()), course.last()).0
    }
}

/// Everything that a course of happenings asked for, in order.
pub open spec fn transcript(start: State, course: Seq<Happening>) -> Seq<Deed>
    decreases course.len(),
{
    if course.len() == 0 {
        Seq::empty()
    } else {
        transcript(start, course.drop_last()) + on(
            after(start, course.drop_last()),
            course.last(),
        ).1
    }
}

/// The message accepts or rejects a call.
pub open spec fn decisive(message: Option<Response>) -> bool {
    match message {
        Some(response) => response.status_code == 200 || response.status_code >= 300,
        None => false,
    }
}

/// The transcript is that of a call that was accepted and has come to its regular end.
pub open spec fn reads_completed(said: Seq<Deed>, talk: Accepted) -> bool {
    said == connecting(talk) + hanging_up(talk)
}

/// The transcript is that of a call that was accepted and whose audio failed.
pub open spec fn reads_broken_off(said: Seq<Deed>, talk: Accepted) -> bool {
    said == connecting(talk) + breaking_off(talk)
}

/// The transcript is that of a call that was rejected with a status.
pub open spec fn reads_rejected(said: Seq<Deed>, status_code: u16) -> bool {
    &&& status_code >= 300
    &&& said == giving_up(status_code)
}

/// Whatever happens to a placed call, its transcript is one of five: nothing yet; the
/// acknowledgement and the opening of the audio; these, the BYE and the end of the call;
/// these and the BYE alone, where the audio failed; or a rejection and the end of the
/// call. So a call ends at most once, a rejected call is neither acknowledged nor heard,
/// and audio opens only after the acknowledgement.
pub proof fn calls_read_one_of_five_ways(dialog: Offered, course: Seq<Happening>)
    ensures
        ({
            let said = transcript(State::Dialing(dialog), course);
            match after(State::Dialing(dialog), course) {
                State::Idle => false,
                State::Dialing(kept) => kept == dialog && said == Seq::<Deed>::empty(),
                State::Talking(talk) => talk.dialog == dialog && said == connecting(talk),
                State::Over => {
                    ||| exists|status_code: u16| reads_rejected(said, status_code)
                    ||| exists|talk: Accepted|
                        talk.dialog == dialog && #[trigger] reads_completed(said, talk)
                    ||| exists|talk: Accepted|
                        talk.dialog == dialog && #[trigger] reads_broken_off(said, talk)
                },
            }
        }),
    decreases course.len(),
{
    let start = State::Dialing(dialog);
    if course.len() > 0 {
        let before = course.drop_last();
        calls_read_one_of_five_ways(dialog, before);
        let state = after(start, before);
        let said = transcript(start, before);
        let new = on(state, course.last()).1;
        assert(transcript(start, course) == said + new);
        if new.len() == 0 {
            assert(said + new =~= said);
        }
        match state {
            State::Dialing(_) => {
                assert(said + new =~= new);
                if let Happening::Message(_, Some(response)) = course.last() {
                    if response.status_code != 200 && response.status_code >= 300 {
                        assert(reads_rejected(said + new, response.status_code));
                    }
                }
            },
            State::Talking(talk) => {
                if course.last() is AudioEnd {
                    assert(reads_completed(said + new, talk));
                } else if course.last() is AudioFailure {
                    assert(reads_broken_off(said + new, talk));
                }
            },
            _ => {},
        }
    }
}

/// The deed sends a request of this method.
pub open spec fn sends(deed: Deed, method: SipMethod) -> bool {
    deed matches Deed::Send(request) && request.method == method
}

/// The deed with index `i` sends the only request of this method.
pub open spec fn sends_once(said: Seq<Deed>, method: SipMethod, i: int) -> bool {
    &&& 0 <= i < said.len()
    &&& sends(said[i], method)
    &&& forall|j: int| 0 <= j < said.len() && sends(#[trigger] said[j], method) ==> j == i
}

/// A call that was acknowledged and is over has sent exactly one BYE, after its only
/// ACK and under its Call-ID, and a call that was not acknowledged has sent none.
pub proof fn acknowledged_calls_are_closed_with_a_bye(dialog: Offered, course: Seq<Happening>)
    requires
        after(State::Dialing(dialog), course) is Over,
    ensures
        ({
            let said = transcript(State::Dialing(dialog), course);
            if exists|i: int| 0 <= i < said.len() && sends(#[trigger] said[i], SipMethod::Ack) {
                exists|i: int, j: int|
                    {
                        &&& i < j
                        &&& #[trigger] sends_once(said, SipMethod::Ack, i)
                        &&& #[trigger] sends_once(said, SipMethod::Bye, j)
                        &&& carries(said[i]->Send_0, SipHeaderName::CallId, dialog.call_id)
                        &&& carries(said[j]->Send_0, SipHeaderName::CallId, dialog.call_id)
                    }
            } else {
                forall|j: int|
                    0 <= j < said.len() ==> !sends(#[trigger] said[j], SipMethod::Bye)
            }
        }),
{
    calls_read_one_of_five_ways(dialog, course);
    let said = transcript(State::Dialing(dialog), course);
    if exists|talk: Accepted|
        talk.dialog == dialog && (reads_completed(said, talk) || reads_broken_off(said, talk)) {
        let talk = choose|talk: Accepted|
            talk.dialog == dialog && (reads_completed(said, talk) || reads_broken_off(said, talk));
        lemma_in_call_carries(
            SipMethod::Ack,
            dialog,
            talk.peer,
            talk.answered_to,
            "1 ACK"@,
            "ack"@,
        );
        lemma_in_call_carries(
            SipMethod::Bye,
            dialog,
            talk.peer,
            talk.answered_to,
            "2 BYE"@,
            "bye"@,
        );
        assert(said[1] == Deed::Send(ack(dialog, talk.peer, talk.answered_to)));
        assert(said[3] == Deed::Send(bye(dialog, talk.peer, talk.answered_to)));
        assert(sends_once(said, SipMethod::Ack, 1));
        assert(sends_once(said, SipMethod::Bye, 3));
    } else {
        let status_code = choose|status_code: u16| reads_rejected(said, status_code);
        assert(reads_rejected(said, status_code));
    }
}

/// What a list of deeds tells the listener, in order.
pub open spec fn notices(said: Seq<Deed>) -> Seq<Notice>
    decreases said.len(),
{
    if said.len() == 0 {
        Seq::empty()
    } else {
        match said.last() {
            Deed::Emit(notice) => notices(said.drop_last()).push(notice),
            _ => notices(said.drop_last()),
        }
    }
}

/// Everything that a call asks for, from placing it on.
pub open spec fn whole_call(
    target: Target,
    port: u16,
    number: u32,
    branch: u16,
    course: Seq<Happening>,
) -> Seq<Deed> {
    dialling(target, port, number, branch) + transcript(
        State::Dialing(offered(target, port, number)),
        course,
    )
}

/// The listener hears that the call is dialled, and that it was accepted.
pub open spec fn hears_connected() -> Seq<Notice> {
    seq![
        Notice::Status("Dialing Hardware..."@),
        Notice::Status("CONNECTED (Hardware Active)"@),
    ]
}

/// The listener hears that the call is dialled, that it was rejected with a status, and
/// that it has ended.
pub open spec fn hears_rejected(heard: Seq<Notice>, status_code: u16) -> bool {
    heard == seq![
        Notice::Status("Dialing Hardware..."@),
        Notice::Error("Call Rejected: "@ + decimal(status_code as nat)),
        Notice::CallEnded,
    ]
}

/// The end of the call is told at most once, as the last event, and exactly where the
/// call comes to its regular end, which is the last thing that it asks for.
pub open spec fn ends_once(said: Seq<Deed>) -> bool {
    &&& forall|i: int|
        0 <= i < said.len() && #[trigger] said[i] == Deed::Emit(Notice::CallEnded) ==> {
            &&& i == said.len() - 2
            &&& said.last() is Finish
        }
    &&& forall|i: int|
        0 <= i < said.len() && (#[trigger] said[i]) is Finish ==> {
            &&& i == said.len() - 1
            &&& 0 < i
            &&& said[i - 1] == Deed::Emit(Notice::CallEnded)
        }
}

/// The events of a whole call: it is dialled, then it is connected or rejected, and a
/// call that was rejected or whose audio ended tells its end. A call whose audio failed
/// tells nothing more: it ends with the failure.
pub proof fn calls_tell_their_course(
    target: Target,
    port: u16,
    number: u32,
    branch: u16,
    course: Seq<Happening>,
)
    ensures
        ({
            let said = whole_call(target, port, number, branch, course);
            let heard = notices(said);
            &&& ends_once(said)
            &&& match after(State::Dialing(offered(target, port, number)), course) {
                State::Idle => false,
                State::Dialing(_) => heard == seq![Notice::Status("Dialing Hardware..."@)],
                State::Talking(_) => heard == hears_connected(),
                State::Over => {
                    ||| exists|status_code: u16|
                        status_code >= 300 && #[trigger] hears_rejected(heard, status_code)
                    ||| heard == hears_connected().push(Notice::CallEnded)
                    ||| heard == hears_connected() && !(said.last() is Finish)
                },
            }
        }),
{
    let dialog = offered(target, port, number);
    let first = dialling(target, port, number, branch);
    let said = transcript(State::Dialing(dialog), course);
    let whole = whole_call(target, port, number, branch, course);
    calls_read_one_of_five_ways(dialog, course);
    lemma_notices_add_up(first, said);
    assert(notices(first) =~= seq![Notice::Status("Dialing Hardware..."@)]) by {
        lemma_notices_of(first);
    }
    match after(State::Dialing(dialog), course) {
        State::Dialing(_) => {
            assert(whole =~= first);
        },
        State::Talking(talk) => {
            lemma_notices_of(connecting(talk));
            assert(notices(whole) =~= hears_connected());
        },
        State::Over => {
            if exists|status_code: u16| reads_rejected(said, status_code) {
                let status_code = choose|status_code: u16| reads_rejected(said, status_code);
                lemma_notices_of(giving_up(status_code));
                assert(notices(whole) =~= seq![
                    Notice::Status("Dialing Hardware..."@),
                    Notice::Error("Call Rejected: "@ + decimal(status_code as nat)),
                    Notice::CallEnded,
                ]);
                assert(hears_rejected(notices(whole), status_code));
            } else if exists|talk: Accepted| reads_completed(said, talk) {
                let talk = choose|talk: Accepted| reads_completed(said, talk);
                lemma_notices_of(connecting(talk));
                lemma_notices_of(hanging_up(talk));
                lemma_notices_add_up(connecting(talk), hanging_up(talk));
                assert(notices(whole) =~= hears_connected().push(Notice::CallEnded));
            } else {
                let talk = choose|talk: Accepted| reads_broken_off(said, talk);
                assert(reads_broken_off(said, talk));
                lemma_notices_of(connecting(talk));
                lemma_notices_of(breaking_off(talk));
                lemma_notices_add_up(connecting(talk), breaking_off(talk));
                assert(notices(whole) =~= hears_connected());
                assert(whole.last() == breaking_off(talk)[0]);
            }
        },
        State::Idle => {},
    }
}

/// What two lists of deeds tell is what the one tells, then the other.
proof fn lemma_notices_add_up(first: Seq<Deed>, second: Seq<Deed>)
    ensures
        notices(first + second) == notices(first) + notices(second),
    decreases second.len(),
{
    if second.len() == 0 {
        assert(first + second =~= first);
        assert(notices(first) + notices(second) =~= notices(first));
    } else {
        lemma_notices_add_up(first, second.drop_last());
        assert((first + second).drop_last() =~= first + second.drop_last());
        assert((first + second).last() == second.last());
        assert(notices(first + second) =~= notices(first) + notices(second));
    }
}

/// What a list of up to three deeds tells, deed by deed.
proof fn lemma_notices_of(said: Seq<Deed>)
    requires
        said.len() <= 3,
    ensures
        said.len() == 1 ==> notices(said) == told(said[0]),
        said.len() == 2 ==> notices(said) == told(said[0]) + told(said[1]),
        said.len() == 3 ==> notices(said) == told(said[0]) + told(said[1]) + told(said[2]),
    decreases said.len(),
{
    if said.len() > 0 {
        lemma_notices_of(said.drop_last());
        if said.len() == 1 {
            assert(notices(said.drop_last()) == Seq::<Notice>::empty());
            assert(notices(said) =~= told(said[0]));
        } else if said.len() == 2 {
            assert(notices(said) =~= told(said[0]) + told(said[1]));
        } else {
            assert(notices(said) =~= told(said[0]) + told(said[1]) + told(said[2]));
        }
    }
}

/// What one deed tells.
spec fn told(deed: Deed) -> Seq<Notice> {
    match deed {
        Deed::Emit(notice) => seq![notice],
        _ => Seq::empty(),
    }
}

/// The audio of an accepted call runs on the port that its INVITE offered, which is not
/// the port of its signalling.
pub proof fn audio_runs_on_the_offered_port(
    target: Target,
    port: u16,
    number: u32,
    peer: Seq<char>,
    answered_to: Option<Seq<char>>,
)
    requires
        media_port(port) <= u16::MAX,
    ensures
        ({
            let dialog = offered(target, port, number);
            let said = connecting(Accepted { dialog, peer, answered_to });
            &&& said.last() == Deed::OpenAudio {
                local_port: media_port(port) as u16,
                far_port: RTP_PORT,
            }
            &&& said.last()->local_port != port
            &&& forall|branch: u16|
                #[trigger] invite(target, port, number, branch).body == encode_utf8(
                    offer(said.last()->local_port as nat),
                )
        }),
{
}

/// Provisional answers and messages that cannot be read leave a call undecided: as long
/// as nothing decisive has come the client keeps waiting and asks for nothing.
pub proof fn undecided_calls_keep_waiting(dialog: Offered, course: Seq<Happening>)
    requires
        forall|i: int|
            0 <= i < course.len() ==> ((#[trigger] course[i]) matches Happening::Message(_, message)
                ==> !decisive(message)),
    ensures
        after(State::Dialing(dialog), course) == State::Dialing(dialog),
        transcript(State::Dialing(dialog), course) == Seq::<Deed>::empty(),
    decreases course.len(),
{
    if course.len() > 0 {
        let before = course.drop_last();
        assert forall|i: int| 0 <= i < before.len() implies ((#[trigger] before[i]) matches
            Happening::Message(_, message) ==> !decisive(message)) by {
            assert(before[i] == course[i]);
        }
        undecided_calls_keep_waiting(dialog, before);
        assert(course.last() == course[course.len() - 1]);
        assert(Seq::<Deed>::empty() + Seq::<Deed>::empty() =~= Seq::<Deed>::empty());
    }
}

/// The first decisive message decides: with status 200 the call is accepted, otherwise
/// it is rejected with that status.
pub proof fn first_decisive_message_decides(
    dialog: Offered,
    course: Seq<Happening>,
    peer: Seq<char>,
    response: Response,
)
    requires
        forall|i: int|
            0 <= i < course.len() ==> ((#[trigger] course[i]) matches Happening::Message(_, message)
                ==> !decisive(message)),
        decisive(Some(response)),
    ensures
        ({
            let whole = course.push(Happening::Message(peer, Some(response)));
            let said = transcript(State::Dialing(dialog), whole);
            if response.status_code == 200 {
                let talk = Accepted { dialog, peer, answered_to: response.to };
                &&& after(State::Dialing(dialog), whole) == State::Talking(talk)
                &&& said == connecting(talk)
            } else {
                &&& after(State::Dialing(dialog), whole) is Over
                &&& said == giving_up(response.status_code)
            }
        }),
{
    undecided_calls_keep_waiting(dialog, course);
    let whole = course.push(Happening::Message(peer, Some(response)));
    assert(whole.drop_last() =~= course);
    assert(transcript(State::Dialing(dialog), whole) =~= on(
        State::Dialing(dialog),
        whole.last(),
    ).1);
}

/// A call that is over stays over and asks for nothing more.
pub proof fn ended_calls_stay_ended(course: Seq<Happening>)
    ensures
        after(State::Over, course) is Over,
        transcript(State::Over, course) == Seq::<Deed>::empty(),
    decreases course.len(),
{
    if course.len() > 0 {
        ended_calls_stay_ended(course.drop_last());
        assert(Seq::<Deed>::empty() + Seq::<Deed>::empty() =~= Seq::<Deed>::empty());
    }
}

} // verus!
