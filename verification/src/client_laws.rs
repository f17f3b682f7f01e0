//! What a client does on each happening, and what it tells and sends.

use vstd::prelude::*;
use vstd::string::*;

use crate::client::{
    decisive, deeds, message_view, on_audio_end, on_audio_failure, on_message, placed, Accepted,
    CallAction, CallState, Conversation, Deed, State,
};
use crate::event::{Notice, UacEvent};
use crate::sip::{
    ack, bye, carries, invite, lemma_in_call_carries, offered, Dialog, Offered, Response,
    SipHeaderName, SipMethod, SipRequest, SipResponse, Target,
};
use crate::text::{decimal, numbers_are_written, words, writes, writings_are_unique};

verus! {

/// A placed call says that it dials, sends its INVITE, and waits with what it keeps of it.
pub proof fn placing_a_call_sends_its_invite(
    state: State,
    asked: Seq<Deed>,
    target: Target,
    port: u16,
    number: u32,
    branch: u16,
)
    requires
        placed(state, asked, target, port, number, branch),
    ensures
        state == State::Dialing(offered(target, port, number)),
        asked.len() == 2,
        asked[0] == Deed::Emit(Notice::Status("Dialing Hardware..."@)),
        asked[1] == Deed::Send(invite(target, port, number, branch)),
{
}

/// The status of an answer decides a call that waits. 200 accepts it: the listener is
/// told, whoever answered is acknowledged, and audio opens between the offered port and
/// port 30000. 300 and above rejects it: the listener is told the status, then that the
/// call has ended. Anything else, and what cannot be read, changes nothing.
pub proof fn answers_decide_by_their_status(
    dialog: Offered,
    peer: Seq<char>,
    response: Response,
    digits: Seq<char>,
)
    requires
        writes(digits, response.status_code as nat),
    ensures
        ({
            let waiting = State::Dialing(dialog);
            let (next, said) = on_message(waiting, peer, Some(response));
            if response.status_code == 200 {
                &&& next matches State::Talking(talk)
                &&& talk.dialog == dialog
                &&& talk.peer == peer
                &&& talk.answered_to == response.to
                &&& said.len() == 3
                &&& said[0] == Deed::Emit(Notice::Status("CONNECTED (Hardware Active)"@))
                &&& said[1] == Deed::Send(ack(dialog, peer, response.to))
                &&& said[2] == Deed::OpenAudio { local_port: dialog.media_port, far_port: 30000 }
            } else if response.status_code >= 300 {
                &&& next is Over
                &&& said.len() == 3
                &&& said[0] == Deed::Emit(Notice::Error("Call Rejected: "@ + digits))
                &&& said[1] == Deed::Emit(Notice::CallEnded)
                &&& said[2] is Finish
            } else {
                &&& next == waiting
                &&& said.len() == 0
            }
        }),
        on_message(State::Dialing(dialog), peer, None).0 == State::Dialing(dialog),
        on_message(State::Dialing(dialog), peer, None).1.len() == 0,
        decisive(Some(response)) <==> response.status_code == 200 || response.status_code >= 300,
        !decisive(None),
{
    numbers_are_written(response.status_code as nat);
    writings_are_unique(
        digits,
        decimal(response.status_code as nat),
        response.status_code as nat,
    );
}

/// Rejections with different statuses are told differently.
pub proof fn rejections_tell_their_status(
    dialog: Offered,
    peer: Seq<char>,
    first: Response,
    second: Response,
)
    requires
        first.status_code >= 300,
        second.status_code >= 300,
        first.status_code != second.status_code,
    ensures
        on_message(State::Dialing(dialog), peer, Some(first)).1[0] != on_message(
            State::Dialing(dialog),
            peer,
            Some(second),
        ).1[0],
{
    let a = decimal(first.status_code as nat);
    let b = decimal(second.status_code as nat);
    numbers_are_written(first.status_code as nat);
    numbers_are_written(second.status_code as nat);
    answers_decide_by_their_status(dialog, peer, first, a);
    answers_decide_by_their_status(dialog, peer, second, b);
    let lead = "Call Rejected: "@;
    if lead + a == lead + b {
        assert(a =~= (lead + a).skip(lead.len() as int));
        assert(b =~= (lead + b).skip(lead.len() as int));
    }
}

/// A call that talks is closed with a BYE when its audio ends or fails. After a regular
/// end the listener is told that the call has ended; a failure is left to the caller.
pub proof fn audio_decides_when_a_call_closes(talk: Accepted)
    ensures
        ({
            let closing = Deed::Send(bye(talk.dialog, talk.peer, talk.answered_to));
            let (ended, said) = on_audio_end(State::Talking(talk));
            let (failed, last) = on_audio_failure(State::Talking(talk));
            &&& ended is Over
            &&& said.len() == 3
            &&& said[0] == closing
            &&& said[1] == Deed::Emit(Notice::CallEnded)
            &&& said[2] is Finish
            &&& failed is Over
            &&& last.len() == 1
            &&& last[0] == closing
        }),
{
}

/// A client that does not wait for an answer ignores messages, and one that does not talk
/// ignores what is reported of audio.
pub proof fn other_happenings_are_ignored(state: State, peer: Seq<char>, message: Option<Response>)
    ensures
        !(state is Dialing) ==> on_message(state, peer, message).0 == state && on_message(
            state,
            peer,
            message,
        ).1.len() == 0,
        !(state is Talking) ==> {
            &&& on_audio_end(state).0 == state
            &&& on_audio_end(state).1.len() == 0
            &&& on_audio_failure(state).0 == state
            &&& on_audio_failure(state).1.len() == 0
        },
{
}

/// The BYE of a call goes where its ACK went: to the same peer and the same party, under
/// the same Call-ID and from the same party.
pub proof fn byes_follow_their_ack(talk: Accepted)
    ensures
        ({
            let first = ack(talk.dialog, talk.peer, talk.answered_to);
            let last = bye(talk.dialog, talk.peer, talk.answered_to);
            let party = match talk.answered_to {
                Some(named) => named,
                None => talk.dialog.to,
            };
            &&& first.uri == last.uri
            &&& carries(first, SipHeaderName::CallId, talk.dialog.call_id)
            &&& carries(last, SipHeaderName::CallId, talk.dialog.call_id)
            &&& carries(first, SipHeaderName::From, talk.dialog.from)
            &&& carries(last, SipHeaderName::From, talk.dialog.from)
            &&& carries(first, SipHeaderName::To, party)
            &&& carries(last, SipHeaderName::To, party)
        }),
{
    lemma_in_call_carries(
        SipMethod::Ack,
        talk.dialog,
        talk.peer,
        talk.answered_to,
        "1 ACK"@,
        "ack"@,
    );
    lemma_in_call_carries(
        SipMethod::Bye,
        talk.dialog,
        talk.peer,
        talk.answered_to,
        "2 BYE"@,
        "bye"@,
    );
}

/// The contents of states, actions, events and messages leave nothing out.
pub proof fn call_contents_are_complete(
    dialog: Dialog,
    talk: Conversation,
    event: UacEvent,
    request: SipRequest,
    response: SipResponse,
    text: String,
    actions: Seq<CallAction>,
    local_port: u16,
    far_port: u16,
)
    ensures
        CallState::Dialing(dialog)@ == State::Dialing(dialog@),
        CallState::Talking(talk)@ == State::Talking(talk@),
        talk@.dialog == talk.dialog@,
        talk@.peer == talk.peer@,
        talk@.answered_to == words(talk.answered_to),
        CallAction::Emit(event)@ == Deed::Emit(event@),
        CallAction::Send(request)@ == Deed::Send(request@),
        (CallAction::OpenAudio { local_port, far_port })@ == (Deed::OpenAudio {
            local_port,
            far_port,
        }),
        deeds(actions).len() == actions.len(),
        forall|i: int| 0 <= i < actions.len() ==> #[trigger] deeds(actions)[i] == actions[i]@,
        message_view(Some(response)) == Some(response@),
        message_view(None) is None,
        UacEvent::Log(text)@ == Notice::Log(text@),
        UacEvent::Status(text)@ == Notice::Status(text@),
        UacEvent::Error(text)@ == Notice::Error(text@),
{
}

} // verus!
