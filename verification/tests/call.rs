use sentiric_uac::client::CallAction;
use sentiric_uac::sip::{
    address_text, build_ack, build_bye, build_invite, local_media_port, offer_text, open_dialog,
    CallTarget, SipHeaderName, SipMethod, SipRequest, SipResponse,
};
use sentiric_uac::text::append_decimal;
use sentiric_uac::{UacClient, UacEvent};

fn target() -> CallTarget {
    CallTarget {
        ip: "10.0.0.7".to_string(),
        port: 5060,
        to_user: "9999".to_string(),
        from_user: "cli-user".to_string(),
    }
}

fn values(request: &SipRequest) -> Vec<(SipHeaderName, &str)> {
    request.headers.iter().map(|h| (h.name, h.value.as_str())).collect()
}

fn answer(status_code: u16, to: Option<&str>) -> Option<SipResponse> {
    Some(SipResponse { status_code, to: to.map(|t| t.to_string()) })
}

fn dialling_client() -> UacClient {
    let mut client = UacClient::new();
    client.start_numbered_call(40000, &target(), 123, 45);
    client
}

#[test]
fn numbers_are_written_in_decimal() {
    for n in [0u64, 7, 10, 99, 100, 65535, 4294967295, u64::MAX] {
        let mut text = "n=".to_string();
        append_decimal(&mut text, n);
        assert_eq!(text, format!("n={}", n));
    }
}

#[test]
fn an_address_joins_ip_and_port() {
    assert_eq!(address_text("10.0.0.7", 5060), "10.0.0.7:5060");
}

#[test]
fn the_invite_is_complete() {
    let invite = build_invite(&target(), 40000, 123, 45);
    assert_eq!(invite.method, SipMethod::Invite);
    assert_eq!(invite.uri, "sip:9999@10.0.0.7:5060");
    assert_eq!(
        values(&invite),
        vec![
            (SipHeaderName::Via, "SIP/2.0/UDP 0.0.0.0:40000;branch=z9hG4bK-45"),
            (SipHeaderName::From, "<sip:cli-user@sentiric.mobile>;tag=uac-hw-tag"),
            (SipHeaderName::To, "<sip:9999@10.0.0.7>"),
            (SipHeaderName::CallId, "uac-hw-123"),
            (SipHeaderName::CSeq, "1 INVITE"),
            (SipHeaderName::Contact, "<sip:cli-user@0.0.0.0:40000>"),
            (SipHeaderName::ContentType, "application/sdp"),
            (SipHeaderName::UserAgent, "Sentiric-UAC-Hardware/1.0"),
        ]
    );
    assert_eq!(
        String::from_utf8(invite.body).unwrap(),
        "v=0\r\no=- 123 123 IN IP4 0.0.0.0\r\ns=SentiricHW\r\nc=IN IP4 0.0.0.0\r\nt=0 0\r\nm=audio 40002 RTP/AVP 0 101\r\na=rtpmap:0 PCMU/8000\r\na=rtpmap:101 telephone-event/8000\r\na=sendrecv\r\na=ptime:20\r\n"
    );
}

#[test]
fn the_highest_signalling_port_has_a_media_port() {
    let invite = build_invite(&target(), 65533, 1, 1);
    assert!(String::from_utf8(invite.body).unwrap().contains("m=audio 65535 RTP/AVP"));
}

#[test]
fn audio_is_offered_on_another_port() {
    assert_eq!(local_media_port(40000), 40002);
    assert_eq!(local_media_port(65533), 65535);
    assert!(offer_text(40002).contains("m=audio 40002 "));
    assert_ne!(offer_text(40002), offer_text(40000));
}

#[test]
fn the_ack_belongs_to_its_invite() {
    let dialog = open_dialog(&target(), 40000, 123);
    let ack = build_ack(&dialog, "10.0.0.7:5061", Some("<sip:9999@10.0.0.7>;tag=x".to_string()));
    assert_eq!(ack.method, SipMethod::Ack);
    assert_eq!(ack.uri, "sip:10.0.0.7:5061");
    assert_eq!(
        values(&ack),
        vec![
            (SipHeaderName::CallId, "uac-hw-123"),
            (SipHeaderName::From, "<sip:cli-user@sentiric.mobile>;tag=uac-hw-tag"),
            (SipHeaderName::To, "<sip:9999@10.0.0.7>;tag=x"),
            (SipHeaderName::CSeq, "1 ACK"),
            (SipHeaderName::Via, "SIP/2.0/UDP 0.0.0.0:40000;branch=z9hG4bK-ack"),
        ]
    );
    assert!(ack.body.is_empty());
}

#[test]
fn an_ack_without_an_answered_party_goes_to_the_called_party() {
    let dialog = open_dialog(&target(), 40000, 123);
    let ack = build_ack(&dialog, "10.0.0.7:5061", None);
    assert_eq!(values(&ack)[2], (SipHeaderName::To, "<sip:9999@10.0.0.7>"));
}

#[test]
fn the_bye_belongs_to_its_invite() {
    let dialog = open_dialog(&target(), 40000, 123);
    let bye = build_bye(&dialog, "10.0.0.7:5061", Some("<sip:9999@10.0.0.7>;tag=x".to_string()));
    assert_eq!(bye.method, SipMethod::Bye);
    assert_eq!(bye.uri, "sip:10.0.0.7:5061");
    assert_eq!(
        values(&bye),
        vec![
            (SipHeaderName::CallId, "uac-hw-123"),
            (SipHeaderName::From, "<sip:cli-user@sentiric.mobile>;tag=uac-hw-tag"),
            (SipHeaderName::To, "<sip:9999@10.0.0.7>;tag=x"),
            (SipHeaderName::CSeq, "2 BYE"),
            (SipHeaderName::Via, "SIP/2.0/UDP 0.0.0.0:40000;branch=z9hG4bK-bye"),
        ]
    );
    assert!(bye.body.is_empty());
    let bye = build_bye(&dialog, "10.0.0.7:5061", None);
    assert_eq!(values(&bye)[2], (SipHeaderName::To, "<sip:9999@10.0.0.7>"));
}

#[test]
fn a_dialog_can_be_cloned() {
    let dialog = open_dialog(&target(), 40000, 123);
    let copy = dialog.clone();
    assert_eq!(copy.call_id, "uac-hw-123");
    assert_eq!((copy.from, copy.to), (dialog.from, dialog.to));
    assert_eq!((copy.bound_port, copy.media_port), (40000, 40002));
}

#[test]
fn calls_with_different_numbers_have_different_call_ids() {
    assert_ne!(
        open_dialog(&target(), 40000, 12).call_id,
        open_dialog(&target(), 40000, 21).call_id
    );
}

#[test]
fn placing_a_call_dials() {
    let mut client = UacClient::new();
    let actions = client.start_numbered_call(40000, &target(), 123, 45);
    assert_eq!(actions.len(), 2);
    assert!(matches!(&actions[0], CallAction::Emit(UacEvent::Status(s)) if s == "Dialing Hardware..."));
    assert!(matches!(&actions[1], CallAction::Send(r) if r.method == SipMethod::Invite));
}

#[test]
fn a_placed_call_has_drawn_numbers() {
    let mut ids = Vec::new();
    let mut branches = Vec::new();
    for _ in 0..64 {
        let mut client = UacClient::new();
        let actions = client.start_call(
            40000,
            "10.0.0.7".to_string(),
            5060,
            "9999".to_string(),
            "cli-user".to_string(),
        );
        match &actions[1] {
            CallAction::Send(invite) => {
                let id = invite.headers[3].value.clone();
                let via = invite.headers[0].value.clone();
                assert!(id.strip_prefix("uac-hw-").unwrap().parse::<u32>().is_ok());
                let branch = via
                    .strip_prefix("SIP/2.0/UDP 0.0.0.0:40000;branch=z9hG4bK-")
                    .unwrap()
                    .parse::<u16>();
                assert!(branch.is_ok());
                ids.push(id);
                branches.push(via);
            }
            other => panic!("{:?}", other),
        }
    }
    assert!(ids.iter().any(|id| *id != ids[0]));
    assert!(branches.iter().any(|b| *b != branches[0]));
}

#[test]
fn an_accepted_call_is_acknowledged_and_heard() {
    let mut client = dialling_client();
    let actions = client.receive("10.0.0.9:5060", answer(200, Some("<sip:9999@10.0.0.7>;tag=b")));
    assert_eq!(actions.len(), 3);
    assert!(
        matches!(&actions[0], CallAction::Emit(UacEvent::Status(s)) if s == "CONNECTED (Hardware Active)")
    );
    match &actions[1] {
        CallAction::Send(ack) => {
            assert_eq!(ack.uri, "sip:10.0.0.9:5060");
            assert_eq!(ack.headers[0].value, "uac-hw-123");
            assert_eq!(ack.headers[2].value, "<sip:9999@10.0.0.7>;tag=b");
        }
        other => panic!("{:?}", other),
    }
    assert!(matches!(
        actions[2],
        CallAction::OpenAudio { local_port: 40002, far_port: 30000 }
    ));

    let end = client.audio_ended();
    assert_eq!(end.len(), 3);
    assert_closes_the_call(&end[0], "<sip:9999@10.0.0.7>;tag=b");
    assert!(matches!(end[1], CallAction::Emit(UacEvent::CallEnded)));
    assert!(matches!(end[2], CallAction::Finish));
}

fn assert_closes_the_call(action: &CallAction, party: &str) {
    match action {
        CallAction::Send(bye) => {
            assert_eq!(bye.method, SipMethod::Bye);
            assert_eq!(bye.uri, "sip:10.0.0.9:5060");
            assert_eq!(
                values(bye),
                vec![
                    (SipHeaderName::CallId, "uac-hw-123"),
                    (SipHeaderName::From, "<sip:cli-user@sentiric.mobile>;tag=uac-hw-tag"),
                    (SipHeaderName::To, party),
                    (SipHeaderName::CSeq, "2 BYE"),
                    (SipHeaderName::Via, "SIP/2.0/UDP 0.0.0.0:40000;branch=z9hG4bK-bye"),
                ]
            );
            assert!(bye.body.is_empty());
        }
        other => panic!("{:?}", other),
    }
}

#[test]
fn failed_audio_closes_the_call() {
    let mut client = dialling_client();
    client.receive("10.0.0.9:5060", answer(200, None));
    let end = client.audio_failed();
    assert_eq!(end.len(), 1);
    assert_closes_the_call(&end[0], "<sip:9999@10.0.0.7>");
    assert!(client.audio_failed().is_empty());
    assert!(client.audio_ended().is_empty());
    assert!(client.receive("10.0.0.9:5060", answer(200, None)).is_empty());
}

#[test]
fn an_acknowledged_call_sends_one_bye() {
    for fails in [false, true] {
        let mut client = dialling_client();
        let mut said = client.receive("10.0.0.9:5060", answer(200, None));
        for _ in 0..3 {
            said.extend(if fails { client.audio_failed() } else { client.audio_ended() });
            said.extend(client.receive("10.0.0.9:5060", answer(200, None)));
        }
        let methods: Vec<SipMethod> = said
            .iter()
            .filter_map(|action| match action {
                CallAction::Send(request) => Some(request.method),
                _ => None,
            })
            .collect();
        assert_eq!(methods, vec![SipMethod::Ack, SipMethod::Bye]);
    }
}

#[test]
fn a_rejected_call_ends_without_an_ack() {
    for code in [300u16, 404, 486, 603] {
        let mut client = dialling_client();
        let actions = client.receive("10.0.0.7:5060", answer(code, None));
        assert_eq!(actions.len(), 3);
        let expected = format!("Call Rejected: {}", code);
        assert!(matches!(&actions[0], CallAction::Emit(UacEvent::Error(s)) if *s == expected));
        assert!(matches!(actions[1], CallAction::Emit(UacEvent::CallEnded)));
        assert!(matches!(actions[2], CallAction::Finish));
        assert!(client.audio_ended().is_empty());
        assert!(client.audio_failed().is_empty());
    }
}

#[test]
fn provisional_and_unreadable_messages_change_nothing() {
    let mut client = dialling_client();
    for code in [0u16, 100, 180, 183, 199, 201, 202, 299] {
        assert!(client.receive("10.0.0.7:5060", answer(code, None)).is_empty());
    }
    assert!(client.receive("10.0.0.7:5060", None).is_empty());
    assert!(client.audio_ended().is_empty());
    assert!(client.audio_failed().is_empty());
    assert_eq!(client.receive("10.0.0.7:5060", answer(200, None)).len(), 3);
}

#[test]
fn a_decided_call_ignores_further_messages() {
    let mut client = dialling_client();
    client.receive("10.0.0.7:5060", answer(200, None));
    assert!(client.receive("10.0.0.7:5060", answer(200, None)).is_empty());
    assert!(client.receive("10.0.0.7:5060", answer(500, None)).is_empty());
    assert_eq!(client.audio_ended().len(), 3);
    assert!(client.audio_ended().is_empty());
    assert!(client.receive("10.0.0.7:5060", answer(200, None)).is_empty());
}

#[test]
fn a_client_that_placed_no_call_reacts_to_nothing() {
    let mut client = UacClient::new();
    assert!(client.receive("10.0.0.7:5060", answer(200, None)).is_empty());
    assert!(client.audio_ended().is_empty());
    assert!(client.audio_failed().is_empty());
}

#[test]
fn a_client_can_call_again() {
    let mut client = dialling_client();
    client.receive("10.0.0.7:5060", answer(486, None));
    assert_eq!(client.start_numbered_call(40000, &target(), 5, 6).len(), 2);
    assert_eq!(client.receive("10.0.0.7:5060", answer(200, None)).len(), 3);
}

#[test]
fn a_call_tells_its_course() {
    let cases = [
        (200u16, Some(true), vec!["CONNECTED (Hardware Active)", "ended"]),
        (200, Some(false), vec!["CONNECTED (Hardware Active)"]),
        (200, None, vec!["CONNECTED (Hardware Active)"]),
        (486, None, vec!["Call Rejected: 486", "ended"]),
        (180, None, vec![]),
    ];
    for (status_code, audio_ends, rest) in cases {
        let mut client = UacClient::new();
        let mut said = client.start_numbered_call(40000, &target(), 123, 45);
        said.extend(client.receive("10.0.0.9:5060", answer(status_code, None)));
        match audio_ends {
            Some(true) => said.extend(client.audio_ended()),
            Some(false) => said.extend(client.audio_failed()),
            None => {}
        }
        let heard: Vec<&str> = said
            .iter()
            .filter_map(|action| match action {
                CallAction::Emit(UacEvent::CallEnded) => Some("ended"),
                CallAction::Emit(UacEvent::Status(text)) => Some(text.as_str()),
                CallAction::Emit(UacEvent::Error(text)) => Some(text.as_str()),
                _ => None,
            })
            .collect();
        let mut expected = vec!["Dialing Hardware..."];
        expected.extend(rest);
        assert_eq!(heard, expected);
        let finishes = matches!(said[said.len() - 1], CallAction::Finish);
        assert_eq!(finishes, heard.contains(&"ended"));
    }
}

#[test]
fn an_event_can_be_cloned() {
    let event = UacEvent::Log("line".to_string());
    assert!(matches!(event.clone(), UacEvent::Log(text) if text == "line"));
    assert!(matches!(UacEvent::CallEnded.clone(), UacEvent::CallEnded));
}
