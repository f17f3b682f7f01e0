//! The SIP requests of a call and the part of a response that decides it.

use vstd::prelude::*;
use vstd::string::*;
use vstd::utf8::encode_utf8;

use crate::text::{append_decimal, decimal, decimal_reads_back, words};

verus! {

/// The method of a request.
#[derive(Debug, Clone, Copy, PartialEq, Eq, Structural)]
pub enum SipMethod {
    Invite,
    Ack,
    Bye,
}

/// The name of a header.
#[derive(Debug, Clone, Copy, PartialEq, Eq, Structural)]
pub enum SipHeaderName {
    Via,
    From,
    To,
    CallId,
    CSeq,
    Contact,
    ContentType,
    UserAgent,
}

/// A header line.
#[derive(Debug)]
pub struct SipHeader {
    pub name: SipHeaderName,
    pub value: String,
}

/// A request, with its headers in the order in which they are written.
#[derive(Debug)]
pub struct SipRequest {
    pub method: SipMethod,
    pub uri: String,
    pub headers: Vec<SipHeader>,
    pub body: Vec<u8>,
}

/// What the client reads of a received message.
#[derive(Debug)]
pub struct SipResponse {
    pub status_code: u16,
    /// The value of the To header, where there is one.
    pub to: Option<String>,
}

/// The content of a [`SipHeader`].
#[verifier::ext_equal]
pub ghost struct HeaderLine {
    pub name: SipHeaderName,
    pub value: Seq<char>,
}

/// The content of a [`SipRequest`].
#[verifier::ext_equal]
pub ghost struct Request {
    pub method: SipMethod,
    pub uri: Seq<char>,
    pub headers: Seq<HeaderLine>,
    pub body: Seq<u8>,
}

/// The content of a [`SipResponse`].
pub ghost struct Response {
    pub status_code: u16,
    pub to: Option<Seq<char>>,
}

/// A header line of the given content.
pub open spec fn line(name: SipHeaderName, value: Seq<char>) -> HeaderLine {
    HeaderLine { name, value }
}

impl View for SipHeader {
    type V = HeaderLine;

    open spec fn view(&self) -> HeaderLine {
        line(self.name, self.value@)
    }
}

/// The header lines of a list of headers.
pub open spec fn header_lines(headers: Seq<SipHeader>) -> Seq<HeaderLine> {
    Seq::new(headers.len(), |i: int| headers[i]@)
}

impl View for SipRequest {
    type V = Request;

    open spec fn view(&self) -> Request {
        Request {
            method: self.method,
            uri: self.uri@,
            headers: header_lines(self.headers@),
            body: self.body@,
        }
    }
}

impl View for SipResponse {
    type V = Response;

    open spec fn view(&self) -> Response {
        Response {
            status_code: self.status_code,
            to: words(self.to),
        }
    }
}

/// The calling party, with its tag.
pub open spec fn caller(from_user: Seq<char>) -> Seq<char> {
    "<sip:"@ + from_user + "@sentiric.mobile>;tag=uac-hw-tag"@
}

/// The called party, without a tag.
pub open spec fn callee(to_user: Seq<char>, target_ip: Seq<char>) -> Seq<char> {
    "<sip:"@ + to_user + "@"@ + target_ip + ">"@
}

/// The Call-ID made of a number.
pub open spec fn call_id(number: u32) -> Seq<char> {
    "uac-hw-"@ + decimal(number as nat)
}

/// An address with its port.
pub open spec fn authority(ip: Seq<char>, port: u16) -> Seq<char> {
    ip + ":"@ + decimal(port as nat)
}

/// The Via value of a request sent from `port` under the given branch.
pub open spec fn via(port: u16, branch: Seq<char>) -> Seq<char> {
    "SIP/2.0/UDP 0.0.0.0:"@ + decimal(port as nat) + ";branch=z9hG4bK-"@ + branch
}

/// The session description: PCMU audio and telephone events on `port`.
pub open spec fn offer(port: nat) -> Seq<char> {
    "v=0\r\no=- 123 123 IN IP4 0.0.0.0\r\ns=SentiricHW\r\nc=IN IP4 0.0.0.0\r\nt=0 0\r\nm=audio "@
        + decimal(port)
        + " RTP/AVP 0 101\r\na=rtpmap:0 PCMU/8000\r\na=rtpmap:101 telephone-event/8000\r\na=sendrecv\r\na=ptime:20\r\n"@
}

/// The port on which audio is offered by a client that signals on `port`.
pub open spec fn media_port(port: u16) -> int {
    port + 2
}

/// Whom to call, from whom, and where.
#[derive(Debug)]
pub struct CallTarget {
    pub ip: String,
    pub port: u16,
    pub to_user: String,
    pub from_user: String,
}

/// The content of a [`CallTarget`].
#[verifier::ext_equal]
pub ghost struct Target {
    pub ip: Seq<char>,
    pub port: u16,
    pub to_user: Seq<char>,
    pub from_user: Seq<char>,
}

impl View for CallTarget {
    type V = Target;

    open spec fn view(&self) -> Target {
        Target {
            ip: self.ip@,
            port: self.port,
            to_user: self.to_user@,
            from_user: self.from_user@,
        }
    }
}

/// The INVITE that opens a call: from a client that is bound to `port`, with the given
/// numbers in its Call-ID and its branch.
pub open spec fn invite(target: Target, port: u16, number: u32, branch: u16) -> Request {
    Request {
        method: SipMethod::Invite,
        uri: "sip:"@ + target.to_user + "@"@ + authority(target.ip, target.port),
        headers: seq![
            line(SipHeaderName::Via, via(port, decimal(branch as nat))),
            line(SipHeaderName::From, caller(target.from_user)),
            line(SipHeaderName::To, callee(target.to_user, target.ip)),
            line(SipHeaderName::CallId, call_id(number)),
            line(SipHeaderName::CSeq, "1 INVITE"@),
            line(
                SipHeaderName::Contact,
                "<sip:"@ + target.from_user + "@"@ + authority("0.0.0.0"@, port) + ">"@,
            ),
            line(SipHeaderName::ContentType, "application/sdp"@),
            line(SipHeaderName::UserAgent, "Sentiric-UAC-Hardware/1.0"@),
        ],
        body: encode_utf8(offer(media_port(port) as nat)),
    }
}

/// What a client keeps of its INVITE until the call is over.
#[derive(Debug)]
pub struct Dialog {
    pub call_id: String,
    pub from: String,
    pub to: String,
    /// The port of signalling.
    pub bound_port: u16,
    /// The port on which audio was offered.
    pub media_port: u16,
}

/// The content of a [`Dialog`].
#[verifier::ext_equal]
pub ghost struct Offered {
    pub call_id: Seq<char>,
    pub from: Seq<char>,
    pub to: Seq<char>,
    pub bound_port: u16,
    pub media_port: u16,
}

impl View for Dialog {
    type V = Offered;

    open spec fn view(&self) -> Offered {
        Offered {
            call_id: self.call_id@,
            from: self.from@,
            to: self.to@,
            bound_port: self.bound_port,
            media_port: self.media_port,
        }
    }
}

/// What a client keeps of [`invite`].
pub open spec fn offered(target: Target, port: u16, number: u32) -> Offered {
    Offered {
        call_id: call_id(number),
        from: caller(target.from_user),
        to: callee(target.to_user, target.ip),
        bound_port: port,
        media_port: media_port(port) as u16,
    }
}

/// A request without a body within an accepted call: to the peer that answered, under
/// the answer's To where it has one.
pub open spec fn in_call(
    method: SipMethod,
    dialog: Offered,
    peer: Seq<char>,
    answered_to: Option<Seq<char>>,
    sequence: Seq<char>,
    branch: Seq<char>,
) -> Request {
    Request {
        method,
        uri: "sip:"@ + peer,
        headers: seq![
            line(SipHeaderName::CallId, dialog.call_id),
            line(SipHeaderName::From, dialog.from),
            line(
                SipHeaderName::To,
                match answered_to {
                    Some(to) => to,
                    None => dialog.to,
                },
            ),
            line(SipHeaderName::CSeq, sequence),
            line(SipHeaderName::Via, via(dialog.bound_port, branch)),
        ],
        body: Seq::empty(),
    }
}

/// The ACK that completes the opening of a call.
pub open spec fn ack(dialog: Offered, peer: Seq<char>, answered_to: Option<Seq<char>>) -> Request {
    in_call(SipMethod::Ack, dialog, peer, answered_to, "1 ACK"@, "ack"@)
}

/// The BYE that closes a call.
pub open spec fn bye(dialog: Offered, peer: Seq<char>, answered_to: Option<Seq<char>>) -> Request {
    in_call(SipMethod::Bye, dialog, peer, answered_to, "2 BYE"@, "bye"@)
}

/// The port on which a client that signals on `bound_port` offers and runs its audio.
pub fn local_media_port(bound_port: u16) -> (port: u16)
    requires
        media_port(bound_port) <= u16::MAX,
    ensures
        port == media_port(bound_port),
{
    bound_port + 2
}

impl Clone for Dialog {
    fn clone(&self) -> (copy: Self)
        ensures
            copy@ == self@,
    {
        Dialog {
            call_id: self.call_id.clone(),
            from: self.from.clone(),
            to: self.to.clone(),
            bound_port: self.bound_port,
            media_port: self.media_port,
        }
    }
}

/// The address of a port, as text.
pub fn address_text(ip: &str, port: u16) -> (address: String)
    ensures
        address@ == authority(ip@, port),
{
    let mut address = ip.to_owned();
    address.append(":");
    append_decimal(&mut address, port as u64);
    address
}

/// A Via value.
fn via_text(port: u16, branch: &str) -> (text: String)
    ensures
        text@ == via(port, branch@),
{
    let mut text = "SIP/2.0/UDP 0.0.0.0:".to_owned();
    append_decimal(&mut text, port as u64);
    text.append(";branch=z9hG4bK-");
    text.append(branch);
    text
}

/// The session description for a media port.
pub fn offer_text(port: u16) -> (text: String)
    ensures
        text@ == offer(port as nat),
{
    let mut text =
        "v=0\r\no=- 123 123 IN IP4 0.0.0.0\r\ns=SentiricHW\r\nc=IN IP4 0.0.0.0\r\nt=0 0\r\nm=audio ".to_owned();
    append_decimal(&mut text, port as u64);
    text.append(
        " RTP/AVP 0 101\r\na=rtpmap:0 PCMU/8000\r\na=rtpmap:101 telephone-event/8000\r\na=sendrecv\r\na=ptime:20\r\n",
    );
    text
}

/// What a client keeps of the INVITE that it is about to send.
pub fn open_dialog(target: &CallTarget, bound_port: u16, number: u32) -> (dialog: Dialog)
    requires
        media_port(bound_port) <= u16::MAX,
    ensures
        dialog@ == offered(target@, bound_port, number),
{
    let mut call_id = "uac-hw-".to_owned();
    append_decimal(&mut call_id, number as u64);
    let mut from = "<sip:".to_owned();
    from.append(target.from_user.as_str());
    from.append("@sentiric.mobile>;tag=uac-hw-tag");
    let mut to = "<sip:".to_owned();
    to.append(target.to_user.as_str());
    to.append("@");
    to.append(target.ip.as_str());
    to.append(">");
    Dialog { call_id, from, to, bound_port, media_port: local_media_port(bound_port) }
}

/// Builds the INVITE of a call. The media port must be a port.
pub fn build_invite(target: &CallTarget, bound_port: u16, number: u32, branch: u16) -> (request:
    SipRequest)
    requires
        media_port(bound_port) <= u16::MAX,
    ensures
        request@ == invite(target@, bound_port, number, branch),
{
    let dialog = open_dialog(target, bound_port, number);
    let mut uri = "sip:".to_owned();
    uri.append(target.to_user.as_str());
    uri.append("@");
    uri.append(address_text(target.ip.as_str(), target.port).as_str());
    assert(uri@ =~= "sip:"@ + target.to_user@ + "@"@ + authority(target.ip@, target.port));
    let mut branch_text = String::new();
    append_decimal(&mut branch_text, branch as u64);
    assert(branch_text@ =~= decimal(branch as nat));
    let mut contact = "<sip:".to_owned();
    contact.append(target.from_user.as_str());
    contact.append("@0.0.0.0:");
    append_decimal(&mut contact, bound_port as u64);
    contact.append(">");
    proof {
        reveal_strlit("@0.0.0.0:");
        reveal_strlit("@");
        reveal_strlit("0.0.0.0");
        reveal_strlit(":");
        assert("@0.0.0.0:"@ =~= "@"@ + "0.0.0.0"@ + ":"@);
        assert(contact@ =~= "<sip:"@ + target.from_user@ + "@"@ + authority("0.0.0.0"@, bound_port)
            + ">"@);
    }
    let mut headers: Vec<SipHeader> = Vec::new();
    headers.push(
        SipHeader {
            name: SipHeaderName::Via,
            value: via_text(bound_port, branch_text.as_str()),
        },
    );
    headers.push(SipHeader { name: SipHeaderName::From, value: dialog.from });
    headers.push(SipHeader { name: SipHeaderName::To, value: dialog.to });
    headers.push(SipHeader { name: SipHeaderName::CallId, value: dialog.call_id });
    headers.push(SipHeader { name: SipHeaderName::CSeq, value: "1 INVITE".to_owned() });
    headers.push(SipHeader { name: SipHeaderName::Contact, value: contact });
    headers.push(
        SipHeader { name: SipHeaderName::ContentType, value: "application/sdp".to_owned() },
    );
    headers.push(
        SipHeader { name: SipHeaderName::UserAgent, value: "Sentiric-UAC-Hardware/1.0".to_owned() },
    );
    let text = offer_text(local_media_port(bound_port));
    let request = SipRequest {
        method: SipMethod::Invite,
        uri,
        headers,
        body: text.as_str().as_bytes_vec(),
    };
    assert(request@.headers =~= invite(target@, bound_port, number, branch).headers);
    request
}

/// Builds a request without a body within an accepted call.
fn build_in_call(
    method: SipMethod,
    dialog: &Dialog,
    peer: &str,
    answered_to: Option<String>,
    sequence: &str,
    branch: &str,
) -> (request: SipRequest)
    ensures
        request@ == in_call(method, dialog@, peer@, words(answered_to), sequence@, branch@),
{
    let ghost answered = words(answered_to);
    let mut uri = "sip:".to_owned();
    uri.append(peer);
    let to = match answered_to {
        Some(to) => to,
        None => dialog.to.clone(),
    };
    let mut headers: Vec<SipHeader> = Vec::new();
    headers.push(SipHeader { name: SipHeaderName::CallId, value: dialog.call_id.clone() });
    headers.push(SipHeader { name: SipHeaderName::From, value: dialog.from.clone() });
    headers.push(SipHeader { name: SipHeaderName::To, value: to });
    headers.push(SipHeader { name: SipHeaderName::CSeq, value: sequence.to_owned() });
    headers.push(
        SipHeader { name: SipHeaderName::Via, value: via_text(dialog.bound_port, branch) },
    );
    let request = SipRequest { method, uri, headers, body: Vec::new() };
    assert(request@.headers =~= in_call(
        method,
        dialog@,
        peer@,
        answered,
        sequence@,
        branch@,
    ).headers);
    assert(request@.body =~= Seq::empty());
    request
}

/// Builds the ACK for an accepted call.
pub fn build_ack(dialog: &Dialog, peer: &str, answered_to: Option<String>) -> (request: SipRequest)
    ensures
        request@ == ack(dialog@, peer@, words(answered_to)),
{
    build_in_call(SipMethod::Ack, dialog, peer, answered_to, "1 ACK", "ack")
}

/// Builds the BYE that closes an accepted call.
pub fn build_bye(dialog: &Dialog, peer: &str, answered_to: Option<String>) -> (request: SipRequest)
    ensures
        request@ == bye(dialog@, peer@, words(answered_to)),
{
    build_in_call(SipMethod::Bye, dialog, peer, answered_to, "2 BYE", "bye")
}

/// The request has exactly one header of this name, with this value.
pub open spec fn carries(request: Request, name: SipHeaderName, value: Seq<char>) -> bool {
    exists|i: int|
        {
            &&& 0 <= i < request.headers.len()
            &&& #[trigger] request.headers[i] == line(name, value)
            &&& forall|j: int|
                0 <= j < request.headers.len() && (#[trigger] request.headers[j]).name == name
                    ==> j == i
        }
}

/// Every request within a call belongs to the call of its INVITE: it has the INVITE's
/// Call-ID and From, and it goes to the party that answered, or to the party that was
/// called where the answer names none. The ACK repeats the INVITE's sequence number, and
/// the BYE has the next one.
pub proof fn requests_belong_to_their_invite(
    target: Target,
    port: u16,
    number: u32,
    branch: u16,
    peer: Seq<char>,
    answered_to: Option<Seq<char>>,
)
    ensures
        ({
            let dialog = offered(target, port, number);
            let first = invite(target, port, number, branch);
            let second = ack(dialog, peer, answered_to);
            let last = bye(dialog, peer, answered_to);
            let party = match answered_to {
                Some(to) => to,
                None => callee(target.to_user, target.ip),
            };
            &&& carries(first, SipHeaderName::CallId, call_id(number))
            &&& carries(second, SipHeaderName::CallId, call_id(number))
            &&& carries(last, SipHeaderName::CallId, call_id(number))
            &&& carries(first, SipHeaderName::From, caller(target.from_user))
            &&& carries(second, SipHeaderName::From, caller(target.from_user))
            &&& carries(last, SipHeaderName::From, caller(target.from_user))
            &&& carries(first, SipHeaderName::To, callee(target.to_user, target.ip))
            &&& carries(second, SipHeaderName::To, party)
            &&& carries(last, SipHeaderName::To, party)
            &&& carries(first, SipHeaderName::CSeq, "1 INVITE"@)
            &&& carries(second, SipHeaderName::CSeq, "1 ACK"@)
            &&& carries(last, SipHeaderName::CSeq, "2 BYE"@)
        }),
{
    let dialog = offered(target, port, number);
    let first = invite(target, port, number, branch);
    assert(first.headers[1].name == SipHeaderName::From);
    assert(first.headers[2].name == SipHeaderName::To);
    assert(first.headers[3].name == SipHeaderName::CallId);
    assert(first.headers[4].name == SipHeaderName::CSeq);
    lemma_in_call_carries(SipMethod::Ack, dialog, peer, answered_to, "1 ACK"@, "ack"@);
    lemma_in_call_carries(SipMethod::Bye, dialog, peer, answered_to, "2 BYE"@, "bye"@);
}

/// The headers of a request within a call.
pub proof fn lemma_in_call_carries(
    method: SipMethod,
    dialog: Offered,
    peer: Seq<char>,
    answered_to: Option<Seq<char>>,
    sequence: Seq<char>,
    branch: Seq<char>,
)
    ensures
        ({
            let request = in_call(method, dialog, peer, answered_to, sequence, branch);
            &&& carries(request, SipHeaderName::CallId, dialog.call_id)
            &&& carries(request, SipHeaderName::From, dialog.from)
            &&& carries(
                request,
                SipHeaderName::To,
                match answered_to {
                    Some(to) => to,
                    None => dialog.to,
                },
            )
            &&& carries(request, SipHeaderName::CSeq, sequence)
        }),
{
    let request = in_call(method, dialog, peer, answered_to, sequence, branch);
    assert(request.headers[0].name == SipHeaderName::CallId);
    assert(request.headers[1].name == SipHeaderName::From);
    assert(request.headers[2].name == SipHeaderName::To);
    assert(request.headers[3].name == SipHeaderName::CSeq);
}

/// Calls with different numbers have different Call-IDs.
pub proof fn call_ids_are_distinct(first: u32, second: u32)
    requires
        first != second,
    ensures
        call_id(first) != call_id(second),
{
    decimal_reads_back(first as nat);
    decimal_reads_back(second as nat);
    if call_id(first) == call_id(second) {
        let prefix = "uac-hw-"@;
        assert(decimal(first as nat) =~= call_id(first).skip(prefix.len() as int));
        assert(decimal(second as nat) =~= call_id(second).skip(prefix.len() as int));
    }
}

/// Audio is never offered on the signalling port.
pub proof fn media_port_differs_from_signalling_port(port: u16)
    ensures
        media_port(port) != port,
        offer(media_port(port) as nat) != offer(port as nat),
{
    let head =
        "v=0\r\no=- 123 123 IN IP4 0.0.0.0\r\ns=SentiricHW\r\nc=IN IP4 0.0.0.0\r\nt=0 0\r\nm=audio "@;
    let tail =
        " RTP/AVP 0 101\r\na=rtpmap:0 PCMU/8000\r\na=rtpmap:101 telephone-event/8000\r\na=sendrecv\r\na=ptime:20\r\n"@;
    let a = media_port(port) as nat;
    let b = port as nat;
    decimal_reads_back(a);
    decimal_reads_back(b);
    if offer(a) == offer(b) {
        assert(offer(a).len() == head.len() + decimal(a).len() + tail.len());
        assert(decimal(a) =~= offer(a).subrange(
            head.len() as int,
            (head.len() + decimal(a).len()) as int,
        ));
        assert(decimal(b) =~= offer(b).subrange(
            head.len() as int,
            (head.len() + decimal(b).len()) as int,
        ));
    }
}

} // verus!
