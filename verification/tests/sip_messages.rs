use rustpbx::sip::dispatch::{handle_incoming_sip_message, handle_options, SipRoute};
use rustpbx::sip::message::{Header, HeaderName, Method, RequestLine, ResponseLine, SipMessage, SipUri, StartLine};
use rustpbx::sip::response::{build_digest_challenge, build_simple_response, default_reason_phrase};
use rustpbx::sip::utils::{extract_extension_user, extract_user_from_sip_str, stamp_from_reading, uuid_simple};
use rustpbx::sip::wire::{parse_message, serialize_message};

fn request(method: Method, uri: &str, user: Option<&str>, headers: Vec<(HeaderName, &str)>) -> SipMessage {
    SipMessage {
        start_line: StartLine::Request(RequestLine {
            method,
            uri: SipUri { text: uri.to_string(), user: user.map(|u| u.to_string()) },
        }),
        headers: headers
            .into_iter()
            .map(|(n, v)| Header { name: n, raw_value: v.as_bytes().to_vec() })
            .collect(),
        body: Vec::new(),
    }
}

fn header_text(m: &SipMessage, i: usize) -> String {
    String::from_utf8(m.headers[i].raw_value.clone()).unwrap()
}

fn dialog_headers() -> Vec<(HeaderName, &'static str)> {
    vec![
        (HeaderName::Via, "SIP/2.0/UDP 10.0.0.2:5060;branch=z9hG4bK1"),
        (HeaderName::From, "<sip:100@pbx.local>;tag=abc"),
        (HeaderName::To, "<sip:200@pbx.local>"),
        (HeaderName::CallId, "call-1@10.0.0.2"),
        (HeaderName::CSeq, "1 INVITE"),
        (HeaderName::Contact, "<sip:100@10.0.0.2:5060>"),
    ]
}

#[test]
fn extract_user_from_angle_brackets() {
    assert_eq!(extract_user_from_sip_str("<sip:100@pbx.local>"), Some("100".to_string()));
}

#[test]
fn extract_user_strips_quote_then_bracket() {
    assert_eq!(extract_user_from_sip_str("sip:\"<alice@pbx.local"), Some("alice".to_string()));
    assert_eq!(extract_user_from_sip_str("\"Alice\" <sip:alice@pbx.local>"), Some("alice".to_string()));
}

#[test]
fn extract_user_rejects_missing_parts() {
    assert_eq!(extract_user_from_sip_str("<sip:@pbx.local>"), None);
    assert_eq!(extract_user_from_sip_str("<sip:pbx.local>"), None);
    assert_eq!(extract_user_from_sip_str("<tel:100>"), None);
    assert_eq!(extract_user_from_sip_str(""), None);
}

#[test]
fn extension_user_prefers_request_uri() {
    let m = request(Method::Register, "sip:300@pbx.local", Some("300"), dialog_headers());
    assert_eq!(extract_extension_user(&m), Some("300".to_string()));
}

#[test]
fn extension_user_falls_back_to_to_then_from() {
    let m = request(Method::Register, "sip:pbx.local", None, dialog_headers());
    assert_eq!(extract_extension_user(&m), Some("200".to_string()));
    let m = request(Method::Register, "sip:pbx.local", Some(""), vec![(HeaderName::From, "<sip:100@x>")]);
    assert_eq!(extract_extension_user(&m), Some("100".to_string()));
    let m = request(Method::Register, "sip:pbx.local", None, vec![]);
    assert_eq!(extract_extension_user(&m), None);
}

#[test]
fn extension_user_reads_header_lossily() {
    let mut m = request(Method::Register, "sip:pbx.local", None, vec![]);
    m.headers.push(Header { name: HeaderName::To, raw_value: b"<sip:1\xff2@x>".to_vec() });
    assert_eq!(extract_extension_user(&m), Some("1\u{FFFD}2".to_string()));
}

#[test]
fn simple_response_copies_dialog_headers_and_tags_to() {
    let req = request(Method::Bye, "sip:200@pbx.local", Some("200"), dialog_headers());
    let resp = build_simple_response(&req, 200, 77);
    match &resp.start_line {
        StartLine::Response(r) => {
            assert_eq!(r.status_code, 200);
            assert_eq!(r.reason_phrase, "OK");
        }
        _ => panic!("not a response"),
    }
    assert_eq!(resp.headers.len(), 7);
    assert!(matches!(resp.headers[0].name, HeaderName::Via));
    assert_eq!(header_text(&resp, 0), "SIP/2.0/UDP 10.0.0.2:5060;branch=z9hG4bK1");
    assert_eq!(header_text(&resp, 1), "<sip:100@pbx.local>;tag=abc");
    assert_eq!(header_text(&resp, 2), "<sip:200@pbx.local>;tag=77");
    assert_eq!(header_text(&resp, 3), "call-1@10.0.0.2");
    assert_eq!(header_text(&resp, 4), "1 INVITE");
    assert!(matches!(resp.headers[5].name, HeaderName::UserAgent));
    assert_eq!(header_text(&resp, 5), "RustPBX/0.1.0");
    assert!(matches!(resp.headers[6].name, HeaderName::ContentLength));
    assert_eq!(header_text(&resp, 6), "0");
    assert!(resp.body.is_empty());
}

#[test]
fn trying_has_no_to_tag_and_tagged_to_is_kept() {
    let req = request(Method::Invite, "sip:200@pbx.local", Some("200"), dialog_headers());
    let trying = build_simple_response(&req, 100, 5);
    assert_eq!(header_text(&trying, 2), "<sip:200@pbx.local>");
    let mut hs = dialog_headers();
    hs[2] = (HeaderName::To, "<sip:200@pbx.local>;tag=xyz");
    let req = request(Method::Invite, "sip:200@pbx.local", Some("200"), hs);
    let ringing = build_simple_response(&req, 180, 5);
    assert_eq!(header_text(&ringing, 2), "<sip:200@pbx.local>;tag=xyz");
}

#[test]
fn reason_phrases() {
    assert_eq!(default_reason_phrase(100), "Trying");
    assert_eq!(default_reason_phrase(180), "Ringing");
    assert_eq!(default_reason_phrase(480), "Temporarily Unavailable");
    assert_eq!(default_reason_phrase(487), "Request Terminated");
    assert_eq!(default_reason_phrase(500), "Server Internal Error");
    assert_eq!(default_reason_phrase(299), "Unknown");
}

#[test]
fn digest_challenge_text() {
    let req = request(Method::Register, "sip:200@pbx.local", Some("200"), dialog_headers());
    let resp = build_digest_challenge(&req, "pbx.local", 123456789);
    match &resp.start_line {
        StartLine::Response(r) => {
            assert_eq!(r.status_code, 401);
            assert_eq!(r.reason_phrase, "Unauthorized");
        }
        _ => panic!("not a response"),
    }
    assert!(matches!(resp.headers[5].name, HeaderName::WwwAuthenticate));
    assert_eq!(
        header_text(&resp, 5),
        "Digest realm=\"pbx.local\", nonce=\"nonce-123456789\", algorithm=MD5"
    );
}

#[test]
fn options_lists_methods() {
    let req = request(Method::Options, "sip:pbx.local", None, dialog_headers());
    let resp = handle_options(&req, 9);
    assert!(matches!(resp.headers[5].name, HeaderName::Allow));
    assert_eq!(header_text(&resp, 5), "INVITE, ACK, CANCEL, BYE, OPTIONS, REGISTER");
    assert!(matches!(resp.headers[6].name, HeaderName::Accept));
    assert_eq!(header_text(&resp, 6), "application/sdp");
}

#[test]
fn dispatch_by_method() {
    let m = |meth| request(meth, "sip:pbx.local", None, vec![]);
    assert_eq!(handle_incoming_sip_message(&m(Method::Register)), SipRoute::Register);
    assert_eq!(handle_incoming_sip_message(&m(Method::Options)), SipRoute::Options);
    assert_eq!(handle_incoming_sip_message(&m(Method::Invite)), SipRoute::Invite);
    assert_eq!(handle_incoming_sip_message(&m(Method::Bye)), SipRoute::Bye);
    assert_eq!(handle_incoming_sip_message(&m(Method::Cancel)), SipRoute::Cancel);
    assert_eq!(handle_incoming_sip_message(&m(Method::Ack)), SipRoute::Ack);
    assert_eq!(handle_incoming_sip_message(&m(Method::Other("INFO".to_string()))), SipRoute::AnswerOk);
    let req = request(Method::Bye, "sip:pbx.local", None, vec![]);
    let resp = build_simple_response(&req, 180, 1);
    assert_eq!(handle_incoming_sip_message(&resp), SipRoute::ResponseReceived(180));
}

#[test]
fn serialize_response_bytes() {
    let req = request(Method::Bye, "sip:200@pbx.local", Some("200"), vec![(HeaderName::CallId, "c1")]);
    let resp = build_simple_response(&req, 200, 1);
    let bytes = serialize_message(&resp);
    assert_eq!(
        String::from_utf8(bytes).unwrap(),
        "SIP/2.0 200 OK\r\nCall-ID: c1\r\nUser-Agent: RustPBX/0.1.0\r\nContent-Length: 0\r\n\r\n"
    );
}

#[test]
fn parse_register_request() {
    let text = "REGISTER sip:100@pbx.local SIP/2.0\r\nv: SIP/2.0/UDP 10.0.0.2\r\nFROM:  <sip:100@pbx.local>\r\nExpires: 0\r\nX-Custom: yes\r\n\r\nbody";
    let m = parse_message(text.as_bytes()).expect("parses");
    match &m.start_line {
        StartLine::Request(r) => {
            assert!(matches!(r.method, Method::Register));
            assert_eq!(r.uri.text, "sip:100@pbx.local");
            assert_eq!(r.uri.user.as_deref(), Some("100"));
        }
        _ => panic!("not a request"),
    }
    assert_eq!(m.headers.len(), 4);
    assert!(matches!(m.headers[0].name, HeaderName::Via));
    assert!(matches!(m.headers[1].name, HeaderName::From));
    assert_eq!(header_text(&m, 1), "<sip:100@pbx.local>");
    assert!(matches!(m.headers[2].name, HeaderName::Expires));
    match &m.headers[3].name {
        HeaderName::Other(n) => assert_eq!(n, "X-Custom"),
        _ => panic!("unexpected name"),
    }
    assert_eq!(m.body, b"body".to_vec());
}

#[test]
fn parse_response_and_rejects() {
    let m = parse_message(b"SIP/2.0 486 Busy Here\r\nCall-ID: x\r\n\r\n").expect("parses");
    match &m.start_line {
        StartLine::Response(r) => {
            assert_eq!(r.status_code, 486);
            assert_eq!(r.reason_phrase, "Busy Here");
        }
        _ => panic!("not a response"),
    }
    assert!(parse_message(b"REGISTER sip:x SIP/2.0\r\n").is_none());
    assert!(parse_message(b"SIP/2.0 20 OK\r\n\r\n").is_none());
    assert!(parse_message(b"REGISTER sip:x SIP/3.0\r\n\r\n").is_none());
    assert!(parse_message(b"REGISTER sip:x SIP/2.0\r\nNoColon\r\n\r\n").is_none());
}

#[test]
fn serialize_then_parse_round_trip() {
    let req = request(Method::Invite, "sip:200@pbx.local", Some("200"), dialog_headers());
    let back = parse_message(&serialize_message(&req)).expect("parses");
    let again = serialize_message(&back);
    assert_eq!(again, serialize_message(&req));
    assert_eq!(extract_extension_user(&back), Some("200".to_string()));
}

#[test]
fn response_with_own_header_and_body_reads_back() {
    let msg = SipMessage {
        start_line: StartLine::Response(ResponseLine { status_code: 603, reason_phrase: "Déclin ici".to_string() }),
        headers: vec![
            Header { name: HeaderName::Other("X-Trace".to_string()), raw_value: b"".to_vec() },
            Header { name: HeaderName::Expires, raw_value: b"60 \r".to_vec() },
            Header { name: HeaderName::ContentType, raw_value: b"text/plain".to_vec() },
        ],
        body: b"a\r\n\r\nb".to_vec(),
    };
    let bytes = serialize_message(&msg);
    let back = parse_message(&bytes).expect("parses");
    match &back.start_line {
        StartLine::Response(r) => {
            assert_eq!(r.status_code, 603);
            assert_eq!(r.reason_phrase, "Déclin ici");
        }
        _ => panic!("not a response"),
    }
    assert_eq!(back.headers.len(), 3);
    match &back.headers[0].name {
        HeaderName::Other(n) => assert_eq!(n, "X-Trace"),
        _ => panic!("unexpected name"),
    }
    assert!(back.headers[0].raw_value.is_empty());
    assert!(matches!(back.headers[1].name, HeaderName::Expires));
    assert_eq!(back.headers[1].raw_value, b"60 \r".to_vec());
    assert!(matches!(back.headers[2].name, HeaderName::ContentType));
    assert_eq!(back.body, b"a\r\n\r\nb".to_vec());
    assert_eq!(serialize_message(&back), bytes);
}

#[test]
fn clock_stamp_is_after_epoch() {
    assert!(uuid_simple() > 1_500_000_000_000_000_000);
}

#[test]
fn stamp_is_the_reading_or_zero() {
    assert_eq!(stamp_from_reading(Some(1_700_000_000_123_456_789)), 1_700_000_000_123_456_789);
    assert_eq!(stamp_from_reading(None), 0);
}

#[test]
fn sip_user_has_no_at_and_no_bracket() {
    for input in ["\"<<100@pbx", "x sip:<\"<7@y", "sip:a@b@c"] {
        if let Some(u) = extract_user_from_sip_str(input) {
            assert!(!u.contains('@'));
            assert!(!u.starts_with('<'));
            assert!(input.contains(u.as_str()));
        }
    }
    assert_eq!(extract_user_from_sip_str("sip:a@b@c"), Some("a".to_string()));
}
