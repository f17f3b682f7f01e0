//! What the requests of a call say, word by word and number by number.

use vstd::prelude::*;
use vstd::string::*;
use vstd::utf8::encode_utf8;

use crate::audio::{CODEC_RATE, MIC_CHUNK};
use crate::handset::HANDSET_PTIME_MS;
use crate::rtp::PCMU_FRAME;
use crate::session::PUNCH_REST_MS;
use crate::sip::{
    ack, authority, bye, carries, invite, offer, offered, CallTarget, Dialog, Offered, Request,
    SipHeaderName, SipMethod, SipRequest, SipResponse, Target,
};
use crate::text::{decimal, numbers_are_written, writes, writings_are_unique};

verus! {

/// A text that writes a number is the decimal text of it.
proof fn lemma_is_decimal(text: Seq<char>, n: nat)
    requires
        writes(text, n),
    ensures
        text == decimal(n),
{
    numbers_are_written(n);
    writings_are_unique(text, decimal(n), n);
}

/// The request URI of an INVITE names the called user at the target's address and port,
/// and so does its To header, without the port.
pub proof fn invites_go_to_the_called_user(
    target: Target,
    port: u16,
    number: u32,
    branch: u16,
    target_port: Seq<char>,
)
    requires
        writes(target_port, target.port as nat),
    ensures
        invite(target, port, number, branch).uri == "sip:"@ + target.to_user + "@"@ + target.ip
            + ":"@ + target_port,
        carries(
            invite(target, port, number, branch),
            SipHeaderName::To,
            "<sip:"@ + target.to_user + "@"@ + target.ip + ">"@,
        ),
{
    lemma_is_decimal(target_port, target.port as nat);
    let request = invite(target, port, number, branch);
    assert(request.uri =~= "sip:"@ + target.to_user + "@"@ + target.ip + ":"@ + target_port);
    assert(request.headers[2].name == SipHeaderName::To);
}

/// INVITEs to two users of different names at one address have different request URIs and
/// different To headers.
pub proof fn invites_to_different_users_differ(
    target: Target,
    other: Target,
    port: u16,
    number: u32,
    branch: u16,
)
    requires
        target.to_user != other.to_user,
        target.ip == other.ip,
        target.port == other.port,
    ensures
        invite(target, port, number, branch).uri != invite(other, port, number, branch).uri,
        offered(target, port, number).to != offered(other, port, number).to,
{
    let digits = decimal(target.port as nat);
    numbers_are_written(target.port as nat);
    invites_go_to_the_called_user(target, port, number, branch, digits);
    invites_go_to_the_called_user(other, port, number, branch, digits);
    let rest = "@"@ + target.ip + ":"@ + digits;
    let first = invite(target, port, number, branch).uri;
    let second = invite(other, port, number, branch).uri;
    assert(first =~= "sip:"@ + target.to_user + rest);
    assert(second =~= "sip:"@ + other.to_user + rest);
    lemma_middle_is_kept("sip:"@, target.to_user, other.to_user, rest);
    let end = "@"@ + target.ip + ">"@;
    assert(offered(target, port, number).to =~= "<sip:"@ + target.to_user + end);
    assert(offered(other, port, number).to =~= "<sip:"@ + other.to_user + end);
    lemma_middle_is_kept("<sip:"@, target.to_user, other.to_user, end);
}

/// Texts that differ in the middle differ.
proof fn lemma_middle_is_kept(lead: Seq<char>, a: Seq<char>, b: Seq<char>, end: Seq<char>)
    ensures
        lead + a + end == lead + b + end ==> a == b,
{
    let first = lead + a + end;
    let second = lead + b + end;
    if first == second {
        assert(first.len() == lead.len() + a.len() + end.len());
        assert(second.len() == lead.len() + b.len() + end.len());
        assert(a =~= first.subrange(lead.len() as int, (lead.len() + a.len()) as int));
        assert(b =~= second.subrange(lead.len() as int, (lead.len() + b.len()) as int));
    }
}

/// An INVITE says who calls whom from where. Every text here that writes a number stands
/// for the one text that does: `bound_port` for the port of signalling, `id` for the
/// number of the call, `tag` for that of the branch, `media_port` for the second port
/// above that of signalling, which is where the audio is offered.
pub proof fn invites_spell_out_the_call(
    target: Target,
    port: u16,
    number: u32,
    branch: u16,
    bound_port: Seq<char>,
    id: Seq<char>,
    tag: Seq<char>,
    media_port: Seq<char>,
)
    requires
        writes(bound_port, port as nat),
        writes(id, number as nat),
        writes(tag, branch as nat),
        writes(media_port, (port + 2) as nat),
    ensures
        ({
            let request = invite(target, port, number, branch);
            &&& request.method == SipMethod::Invite
            &&& request.headers.len() == 8
            &&& carries(
                request,
                SipHeaderName::Via,
                "SIP/2.0/UDP 0.0.0.0:"@ + bound_port + ";branch=z9hG4bK-"@ + tag,
            )
            &&& carries(
                request,
                SipHeaderName::From,
                "<sip:"@ + target.from_user + "@sentiric.mobile>;tag=uac-hw-tag"@,
            )
            &&& carries(request, SipHeaderName::CallId, "uac-hw-"@ + id)
            &&& carries(request, SipHeaderName::CSeq, "1 INVITE"@)
            &&& carries(
                request,
                SipHeaderName::Contact,
                "<sip:"@ + target.from_user + "@0.0.0.0:"@ + bound_port + ">"@,
            )
            &&& carries(request, SipHeaderName::ContentType, "application/sdp"@)
            &&& carries(request, SipHeaderName::UserAgent, "Sentiric-UAC-Hardware/1.0"@)
            &&& request.body == encode_utf8(
                "v=0\r\no=- 123 123 IN IP4 0.0.0.0\r\ns=SentiricHW\r\nc=IN IP4 0.0.0.0\r\nt=0 0\r\nm=audio "@
                    + media_port
                    + " RTP/AVP 0 101\r\na=rtpmap:0 PCMU/8000\r\na=rtpmap:101 telephone-event/8000\r\na=sendrecv\r\na=ptime:20\r\n"@,
            )
        }),
{
    lemma_is_decimal(bound_port, port as nat);
    lemma_is_decimal(id, number as nat);
    lemma_is_decimal(tag, branch as nat);
    lemma_is_decimal(media_port, (port + 2) as nat);
    let request = invite(target, port, number, branch);
    reveal_strlit("@0.0.0.0:");
    reveal_strlit("@");
    reveal_strlit("0.0.0.0");
    reveal_strlit(":");
    assert("@0.0.0.0:"@ =~= "@"@ + "0.0.0.0"@ + ":"@);
    assert(request.headers[5].value =~= "<sip:"@ + target.from_user + "@0.0.0.0:"@ + bound_port
        + ">"@);
    assert(request.headers[0].name == SipHeaderName::Via);
    assert(request.headers[1].name == SipHeaderName::From);
    assert(request.headers[3].name == SipHeaderName::CallId);
    assert(request.headers[4].name == SipHeaderName::CSeq);
    assert(request.headers[5].name == SipHeaderName::Contact);
    assert(request.headers[6].name == SipHeaderName::ContentType);
    assert(request.headers[7].name == SipHeaderName::UserAgent);
}

/// What a client keeps of an INVITE is what the INVITE says: its Call-ID, its parties,
/// the port of its signalling and the port on which it offers audio.
pub proof fn dialogs_keep_their_invite(target: Target, port: u16, number: u32, branch: u16)
    requires
        port + 2 <= u16::MAX,
    ensures
        ({
            let request = invite(target, port, number, branch);
            let dialog = offered(target, port, number);
            &&& carries(request, SipHeaderName::CallId, dialog.call_id)
            &&& carries(request, SipHeaderName::From, dialog.from)
            &&& carries(request, SipHeaderName::To, dialog.to)
            &&& dialog.bound_port == port
            &&& dialog.media_port == port + 2
        }),
{
    let request = invite(target, port, number, branch);
    assert(request.headers[1].name == SipHeaderName::From);
    assert(request.headers[2].name == SipHeaderName::To);
    assert(request.headers[3].name == SipHeaderName::CallId);
}

/// The request is one within the dialog: it goes to the peer, has the dialog's Call-ID
/// and From, is to the given party, comes from the dialog's port, which `bound_port`
/// writes, and says nothing more.
pub open spec fn belongs(
    request: Request,
    dialog: Offered,
    peer: Seq<char>,
    party: Seq<char>,
    bound_port: Seq<char>,
    branch: Seq<char>,
) -> bool {
    &&& request.uri == "sip:"@ + peer
    &&& request.headers.len() == 5
    &&& carries(request, SipHeaderName::CallId, dialog.call_id)
    &&& carries(request, SipHeaderName::From, dialog.from)
    &&& carries(request, SipHeaderName::To, party)
    &&& carries(
        request,
        SipHeaderName::Via,
        "SIP/2.0/UDP 0.0.0.0:"@ + bound_port + ";branch=z9hG4bK-"@ + branch,
    )
    &&& request.body.len() == 0
}

/// The ACK and the BYE of a call go to the peer that answered and to the party that it
/// named, or to the party that was called where it named none. Each has its own method,
/// sequence number and branch; in all else they are alike.
pub proof fn requests_in_a_call_spell_out_the_dialog(
    dialog: Offered,
    peer: Seq<char>,
    named: Seq<char>,
    bound_port: Seq<char>,
)
    requires
        writes(bound_port, dialog.bound_port as nat),
    ensures
        belongs(ack(dialog, peer, Some(named)), dialog, peer, named, bound_port, "ack"@),
        belongs(ack(dialog, peer, None), dialog, peer, dialog.to, bound_port, "ack"@),
        belongs(bye(dialog, peer, Some(named)), dialog, peer, named, bound_port, "bye"@),
        belongs(bye(dialog, peer, None), dialog, peer, dialog.to, bound_port, "bye"@),
        forall|to: Option<Seq<char>>|
            {
                &&& (#[trigger] ack(dialog, peer, to)).method == SipMethod::Ack
                &&& carries(ack(dialog, peer, to), SipHeaderName::CSeq, "1 ACK"@)
            },
        forall|to: Option<Seq<char>>|
            {
                &&& (#[trigger] bye(dialog, peer, to)).method == SipMethod::Bye
                &&& carries(bye(dialog, peer, to), SipHeaderName::CSeq, "2 BYE"@)
            },
{
    lemma_is_decimal(bound_port, dialog.bound_port as nat);
    lemma_in_call_headers(ack(dialog, peer, Some(named)));
    lemma_in_call_headers(ack(dialog, peer, None));
    lemma_in_call_headers(bye(dialog, peer, Some(named)));
    lemma_in_call_headers(bye(dialog, peer, None));
    assert forall|to: Option<Seq<char>>|
        {
            &&& (#[trigger] ack(dialog, peer, to)).method == SipMethod::Ack
            &&& carries(ack(dialog, peer, to), SipHeaderName::CSeq, "1 ACK"@)
        } by {
        lemma_in_call_headers(ack(dialog, peer, to));
    }
    assert forall|to: Option<Seq<char>>|
        {
            &&& (#[trigger] bye(dialog, peer, to)).method == SipMethod::Bye
            &&& carries(bye(dialog, peer, to), SipHeaderName::CSeq, "2 BYE"@)
        } by {
        lemma_in_call_headers(bye(dialog, peer, to));
    }
}

/// A request whose five headers are these carries each of them.
proof fn lemma_in_call_headers(request: Request)
    requires
        request.headers.len() == 5,
        request.headers[0].name == SipHeaderName::CallId,
        request.headers[1].name == SipHeaderName::From,
        request.headers[2].name == SipHeaderName::To,
        request.headers[3].name == SipHeaderName::CSeq,
        request.headers[4].name == SipHeaderName::Via,
    ensures
        carries(request, SipHeaderName::CallId, request.headers[0].value),
        carries(request, SipHeaderName::From, request.headers[1].value),
        carries(request, SipHeaderName::To, request.headers[2].value),
        carries(request, SipHeaderName::CSeq, request.headers[3].value),
        carries(request, SipHeaderName::Via, request.headers[4].value),
{
}

/// The audio is as it was offered: a frame of PCMU lasts one packet time at the rate of
/// the codec, and the path is opened at that pace too. A microphone is resampled three
/// frames at a time. The offer names the rate and the packet time.
pub proof fn audio_keeps_to_the_offer(port: nat, rate: Seq<char>, ptime: Seq<char>)
    requires
        writes(rate, CODEC_RATE as nat),
        writes(ptime, HANDSET_PTIME_MS as nat),
    ensures
        PCMU_FRAME * 1000 == CODEC_RATE * HANDSET_PTIME_MS,
        PUNCH_REST_MS == HANDSET_PTIME_MS,
        MIC_CHUNK == 3 * PCMU_FRAME,
        exists|lead: Seq<char>|
            offer(port) == #[trigger] (lead + " RTP/AVP 0 101\r\na=rtpmap:0 PCMU/"@) + rate
                + "\r\na=rtpmap:101 telephone-event/"@ + rate + "\r\na=sendrecv\r\na=ptime:"@
                + ptime + "\r\n"@,
{
    reveal_strlit("8000");
    reveal_strlit("20");
    lemma_is_decimal(rate, 8000);
    lemma_is_decimal(ptime, 20);
    reveal_with_fuel(decimal, 5);
    assert(rate =~= "8000"@);
    assert(ptime =~= "20"@);
    reveal_strlit(
        " RTP/AVP 0 101\r\na=rtpmap:0 PCMU/8000\r\na=rtpmap:101 telephone-event/8000\r\na=sendrecv\r\na=ptime:20\r\n",
    );
    reveal_strlit(" RTP/AVP 0 101\r\na=rtpmap:0 PCMU/");
    reveal_strlit("\r\na=rtpmap:101 telephone-event/");
    reveal_strlit("\r\na=sendrecv\r\na=ptime:");
    reveal_strlit("\r\n");
    let lead =
        "v=0\r\no=- 123 123 IN IP4 0.0.0.0\r\ns=SentiricHW\r\nc=IN IP4 0.0.0.0\r\nt=0 0\r\nm=audio "@
        + decimal(port);
    assert(offer(port) =~= (lead + " RTP/AVP 0 101\r\na=rtpmap:0 PCMU/"@) + rate
        + "\r\na=rtpmap:101 telephone-event/"@ + rate + "\r\na=sendrecv\r\na=ptime:"@ + ptime
        + "\r\n"@);
}

/// An address is the IP, a colon and the port, and a session description offers audio on
/// the port that it was made for.
pub proof fn addresses_and_offers_name_their_port(ip: Seq<char>, port: u16, digits: Seq<char>)
    requires
        writes(digits, port as nat),
    ensures
        authority(ip, port) == ip + ":"@ + digits,
        offer(port as nat)
            == "v=0\r\no=- 123 123 IN IP4 0.0.0.0\r\ns=SentiricHW\r\nc=IN IP4 0.0.0.0\r\nt=0 0\r\nm=audio "@
            + digits
            + " RTP/AVP 0 101\r\na=rtpmap:0 PCMU/8000\r\na=rtpmap:101 telephone-event/8000\r\na=sendrecv\r\na=ptime:20\r\n"@,
{
    lemma_is_decimal(digits, port as nat);
}

/// The contents of targets, dialogs, requests and responses leave nothing out.
pub proof fn sip_contents_are_complete(
    target: CallTarget,
    dialog: Dialog,
    request: SipRequest,
    response: SipResponse,
    text: String,
)
    ensures
        target@.ip == target.ip@,
        target@.port == target.port,
        target@.to_user == target.to_user@,
        target@.from_user == target.from_user@,
        dialog@.call_id == dialog.call_id@,
        dialog@.from == dialog.from@,
        dialog@.to == dialog.to@,
        dialog@.bound_port == dialog.bound_port,
        dialog@.media_port == dialog.media_port,
        request@.method == request.method,
        request@.uri == request.uri@,
        request@.headers.len() == request.headers@.len(),
        forall|i: int|
            0 <= i < request.headers@.len() ==> (#[trigger] request@.headers[i]).name
                == request.headers@[i].name && request@.headers[i].value
                == request.headers@[i].value@,
        request@.body == request.body@,
        response@.status_code == response.status_code,
        response.to == Some(text) ==> response@.to == Some(text@),
        response.to is None ==> response@.to is None,
{
}

} // verus!
