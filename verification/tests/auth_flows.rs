use rustpbx::engine::config::SipConfig;
use rustpbx::engine::store::{Extension, Registration};
use rustpbx::sip::digest::verify_digest_header;
use rustpbx::sip::invite::{
    callee_address, handle_bye, handle_cancel, handle_invite, invite_caller_checked, invite_routed, InviteNext,
};
use rustpbx::sip::message::{Header, HeaderName, Method, RequestLine, SipMessage, SipUri, SourceAddr, StartLine};
use rustpbx::sip::register::{handle_register, register_clamp_ok, RegistrationChange};

fn md5_hex(s: &str) -> String {
    format!("{:x}", md5::compute(s.as_bytes()))
}

fn digest(user: &str, realm: &str, pw: &str, nonce: &str, method: &str, uri: &str) -> String {
    let ha1 = md5_hex(&format!("{}:{}:{}", user, realm, pw));
    let ha2 = md5_hex(&format!("{}:{}", method, uri));
    md5_hex(&format!("{}:{}:{}", ha1, nonce, ha2))
}

fn auth_header_for(user: &str, pw: &str, method: &str, uri: &str) -> String {
    let resp = digest(user, "pbx.local", pw, "nonce-1", method, uri);
    format!(
        "Digest username=\"{}\", realm=\"pbx.local\", nonce=\"nonce-1\", uri=\"{}\", response=\"{}\", algorithm=MD5",
        user, uri, resp
    )
}

fn auth_header(user: &str, pw: &str, method: &str) -> String {
    auth_header_for(user, pw, method, "sip:pbx.local")
}

fn ext(number: &str, pw: &str, min: i64, max: i64, auth: i64) -> Extension {
    Extension {
        id: 1,
        extension_number: number.to_string(),
        password: pw.to_string(),
        display_name: "Desk".to_string(),
        email: None,
        record_calls: 0,
        is_active: 1,
        min_expires: min,
        max_expires: max,
        auth_required: auth,
    }
}

fn cfg(auth: bool) -> SipConfig {
    SipConfig { udp_bind_addr: "0.0.0.0:5060".to_string(), domain: "pbx.local".to_string(), require_digest_auth: auth }
}

fn src() -> SourceAddr {
    SourceAddr { ip: "10.0.0.2".to_string(), port: 5062, text: "10.0.0.2:5062".to_string() }
}

fn msg(method: Method, user: Option<&str>, extra: Vec<(HeaderName, String)>) -> SipMessage {
    let mut headers = vec![
        Header { name: HeaderName::From, raw_value: b"<sip:100@pbx.local>;tag=a".to_vec() },
        Header { name: HeaderName::To, raw_value: b"<sip:100@pbx.local>".to_vec() },
        Header { name: HeaderName::CallId, raw_value: b"cid".to_vec() },
    ];
    for (n, v) in extra {
        headers.push(Header { name: n, raw_value: v.into_bytes() });
    }
    SipMessage {
        start_line: StartLine::Request(RequestLine {
            method,
            uri: SipUri { text: "sip:pbx.local".to_string(), user: user.map(|u| u.to_string()) },
        }),
        headers,
        body: Vec::new(),
    }
}

fn code(m: &SipMessage) -> u16 {
    match &m.start_line {
        StartLine::Response(r) => r.status_code,
        _ => panic!("not a response"),
    }
}

fn value(m: &SipMessage, name: &str) -> Option<String> {
    m.headers.iter().find(|h| format!("{:?}", h.name) == name).map(|h| String::from_utf8(h.raw_value.clone()).unwrap())
}

#[test]
fn digest_header_verifies_with_right_password() {
    let h = auth_header("100", "secret", "REGISTER");
    assert!(verify_digest_header(&h, "secret", "pbx.local", "REGISTER"));
    assert!(!verify_digest_header(&h, "wrong", "pbx.local", "REGISTER"));
    assert!(!verify_digest_header(&h, "secret", "other.realm", "REGISTER"));
    assert!(!verify_digest_header(&h, "secret", "pbx.local", "INVITE"));
}

#[test]
fn digest_client_answer_accepted_only_with_its_digest() {
    let resp = digest("alice", "pbx.local", "pw", "abc", "INVITE", "sip:bob@pbx.local");
    let header = |r: &str| {
        format!(
            "Digest username=\"alice\", realm=\"pbx.local\", nonce=\"abc\", uri=\"sip:bob@pbx.local\", response=\"{}\"",
            r
        )
    };
    assert!(verify_digest_header(&header(&resp), "pw", "pbx.local", "INVITE"));
    let mut tampered = resp.clone();
    let last = if tampered.ends_with('0') { '1' } else { '0' };
    tampered.pop();
    tampered.push(last);
    assert!(!verify_digest_header(&header(&tampered), "pw", "pbx.local", "INVITE"));
    assert!(!verify_digest_header(&header("x"), "pw", "pbx.local", "INVITE"));
}

#[test]
fn digest_header_needs_all_fields() {
    let resp = digest("100", "pbx.local", "secret", "n", "REGISTER", "sip:pbx.local");
    let no_uri = format!("Digest username=\"100\", nonce=\"n\", response=\"{}\"", resp);
    assert!(!verify_digest_header(&no_uri, "secret", "pbx.local", "REGISTER"));
    let empty_user = format!("Digest username=\"\", nonce=\"n\", uri=\"sip:pbx.local\", response=\"{}\"", resp);
    assert!(!verify_digest_header(&empty_user, "secret", "pbx.local", "REGISTER"));
    assert!(!verify_digest_header("", "secret", "pbx.local", "REGISTER"));
}

#[test]
fn digest_header_later_items_win_and_spaces_are_trimmed() {
    let resp = digest("100", "pbx.local", "secret", "n2", "REGISTER", "sip:pbx.local");
    let h = format!(
        "Digest Digest username=\"x\",username=\"100\" ,  nonce=n1, nonce=\"n2\", uri=\"sip:pbx.local\",response=\"{}\"",
        resp
    );
    assert!(verify_digest_header(&h, "secret", "pbx.local", "REGISTER"));
}

#[test]
fn register_store_failure_is_500() {
    let m = msg(Method::Register, Some("100"), vec![]);
    let out = handle_register(&m, &src(), None, &cfg(true), 1);
    assert_eq!(code(&out.response), 500);
    assert!(out.change.is_none());
}

#[test]
fn register_without_user_is_400_and_unknown_is_404() {
    let exts = vec![ext("100", "secret", 60, 3600, 1)];
    let mut m = msg(Method::Register, None, vec![]);
    m.headers.clear();
    let out = handle_register(&m, &src(), Some(&exts), &cfg(true), 1);
    assert_eq!(code(&out.response), 400);
    let m = msg(Method::Register, Some("999"), vec![]);
    let out = handle_register(&m, &src(), Some(&exts), &cfg(true), 1);
    assert_eq!(code(&out.response), 404);
}

#[test]
fn register_without_credentials_is_challenged() {
    let exts = vec![ext("100", "secret", 60, 3600, 1)];
    let m = msg(Method::Register, Some("100"), vec![]);
    let out = handle_register(&m, &src(), Some(&exts), &cfg(true), 42);
    assert_eq!(code(&out.response), 401);
    assert_eq!(
        value(&out.response, "WwwAuthenticate").unwrap(),
        "Digest realm=\"pbx.local\", nonce=\"nonce-42\", algorithm=MD5"
    );
    assert!(out.change.is_none());
}

#[test]
fn register_with_valid_credentials_is_stored() {
    let exts = vec![ext("100", "secret", 60, 3600, 1)];
    let m = msg(
        Method::Register,
        Some("100"),
        vec![
            (HeaderName::Authorization, auth_header("100", "secret", "REGISTER")),
            (HeaderName::UserAgent, "Phone/1".to_string()),
            (HeaderName::Contact, "<sip:100@10.0.0.2:5062>".to_string()),
        ],
    );
    let out = handle_register(&m, &src(), Some(&exts), &cfg(true), 1);
    assert_eq!(code(&out.response), 200);
    assert_eq!(value(&out.response, "Expires").unwrap(), "3600");
    assert_eq!(value(&out.response, "Contact").unwrap(), "<sip:100@10.0.0.2:5062>");
    match out.change {
        Some(RegistrationChange::Store(u)) => {
            assert_eq!(u.extension_number, "100");
            assert_eq!(u.user_agent.as_deref(), Some("Phone/1"));
            assert_eq!(u.contact_uri, "<sip:100@10.0.0.2:5062>");
            assert_eq!(u.source_ip, "10.0.0.2");
            assert_eq!(u.source_port, 5062);
            assert_eq!(u.expires_secs, 3600);
        }
        _ => panic!("registration not stored"),
    }
}

#[test]
fn register_without_contact_uses_source_address() {
    let exts = vec![ext("100", "secret", 60, 3600, 1)];
    let m = msg(Method::Register, Some("100"), vec![(HeaderName::Authorization, auth_header("100", "secret", "REGISTER"))]);
    let out = handle_register(&m, &src(), Some(&exts), &cfg(true), 1);
    match out.change {
        Some(RegistrationChange::Store(u)) => {
            assert_eq!(u.contact_uri, "10.0.0.2:5062");
            assert_eq!(u.user_agent, None);
        }
        _ => panic!("registration not stored"),
    }
}

#[test]
fn register_with_wrong_password_is_403() {
    let exts = vec![ext("100", "secret", 60, 3600, 1)];
    let m = msg(Method::Register, Some("100"), vec![(HeaderName::Authorization, auth_header("100", "guess", "REGISTER"))]);
    let out = handle_register(&m, &src(), Some(&exts), &cfg(true), 1);
    assert_eq!(code(&out.response), 403);
    assert!(out.change.is_none());
}

#[test]
fn register_expires_zero_unregisters() {
    let exts = vec![ext("100", "secret", 60, 3600, 1)];
    let m = msg(
        Method::Register,
        Some("100"),
        vec![(HeaderName::Authorization, auth_header("100", "secret", "REGISTER")), (HeaderName::Expires, "0".to_string())],
    );
    let out = handle_register(&m, &src(), Some(&exts), &cfg(true), 1);
    assert_eq!(code(&out.response), 200);
    assert_eq!(value(&out.response, "Expires").unwrap(), "0");
    match out.change {
        Some(RegistrationChange::Remove { extension_number }) => assert_eq!(extension_number, "100"),
        _ => panic!("registration not removed"),
    }
}

#[test]
fn register_requested_expires_is_clamped() {
    let exts = vec![ext("100", "secret", 60, 3600, 1)];
    let grant = |req: &str| {
        let m = msg(
            Method::Register,
            Some("100"),
            vec![(HeaderName::Authorization, auth_header("100", "secret", "REGISTER")), (HeaderName::Expires, req.to_string())],
        );
        value(&handle_register(&m, &src(), Some(&exts), &cfg(true), 1).response, "Expires").unwrap()
    };
    assert_eq!(grant("30"), "60");
    assert_eq!(grant(" 120 "), "120");
    assert_eq!(grant("7200"), "3600");
    assert_eq!(grant("99999999999999999999"), "3600");
    assert_eq!(grant("soon"), "3600");
}

#[test]
fn register_ceiling_is_one_day_and_at_least_min() {
    let exts = vec![ext("100", "secret", 60, 999999, 0)];
    let m = msg(Method::Register, Some("100"), vec![]);
    let out = handle_register(&m, &src(), Some(&exts), &cfg(true), 1);
    assert_eq!(value(&out.response, "Expires").unwrap(), "86400");
    let exts = vec![ext("100", "secret", 600, 300, 0)];
    let out = handle_register(&m, &src(), Some(&exts), &cfg(true), 1);
    assert_eq!(value(&out.response, "Expires").unwrap(), "600");
}

#[test]
fn register_without_authentication_is_stored() {
    let exts = vec![ext("100", "secret", 60, 3600, 1)];
    let m = msg(Method::Register, Some("100"), vec![]);
    let out = handle_register(&m, &src(), Some(&exts), &cfg(false), 1);
    assert_eq!(code(&out.response), 200);
    assert!(out.audit.is_none());
    match out.change {
        Some(RegistrationChange::Store(u)) => {
            assert_eq!(u.extension_number, "100");
            assert_eq!(u.expires_secs, 3600);
        }
        _ => panic!("registration not stored"),
    }
    let exts = vec![ext("100", "secret", 60, 3600, 0)];
    let m = msg(Method::Register, Some("100"), vec![(HeaderName::Expires, "0".to_string())]);
    let out = handle_register(&m, &src(), Some(&exts), &cfg(true), 1);
    assert_eq!(code(&out.response), 200);
    assert!(matches!(out.change, Some(RegistrationChange::Remove { .. })));
}

#[test]
fn register_granted_zero_without_asking_is_stored() {
    let exts = vec![ext("100", "secret", 0, 0, 0)];
    let m = msg(Method::Register, Some("100"), vec![]);
    let out = handle_register(&m, &src(), Some(&exts), &cfg(true), 1);
    assert_eq!(code(&out.response), 200);
    assert_eq!(value(&out.response, "Expires").unwrap(), "0");
    match out.change {
        Some(RegistrationChange::Store(u)) => assert_eq!(u.expires_secs, 0),
        _ => panic!("registration not stored"),
    }
}

#[test]
fn register_digest_outcomes_are_audited() {
    let exts = vec![ext("100", "secret", 60, 3600, 1)];
    let m = msg(Method::Register, Some("100"), vec![]);
    let out = handle_register(&m, &src(), Some(&exts), &cfg(true), 1);
    assert_eq!(out.audit.as_deref(), Some("REGISTER challenged (401) for extension 100 from 10.0.0.2:5062"));
    let m = msg(Method::Register, Some("100"), vec![(HeaderName::Authorization, auth_header("100", "bad", "REGISTER"))]);
    let out = handle_register(&m, &src(), Some(&exts), &cfg(true), 1);
    assert_eq!(out.audit.as_deref(), Some("REGISTER refused (403) for extension 100 from 10.0.0.2:5062"));
    let m = msg(Method::Register, Some("100"), vec![(HeaderName::Authorization, auth_header("100", "secret", "REGISTER"))]);
    let out = handle_register(&m, &src(), Some(&exts), &cfg(true), 1);
    assert_eq!(out.audit.as_deref(), Some("REGISTER accepted (200) for extension 100 from 10.0.0.2:5062"));
}

#[test]
fn register_contact_expires_parameter_comes_first() {
    let exts = vec![ext("100", "secret", 60, 3600, 0)];
    let grant = |contact: &str, expires: Option<&str>| {
        let mut extra = vec![(HeaderName::Contact, contact.to_string())];
        if let Some(e) = expires {
            extra.push((HeaderName::Expires, e.to_string()));
        }
        let m = msg(Method::Register, Some("100"), extra);
        let out = handle_register(&m, &src(), Some(&exts), &cfg(false), 1);
        (value(&out.response, "Expires").unwrap(), out.change)
    };
    assert_eq!(grant("<sip:100@10.0.0.2>;expires=120", Some("600")).0, "120");
    assert_eq!(grant("<sip:100@10.0.0.2>;expires= 90 ;q=0.5", None).0, "90");
    assert_eq!(grant("<sip:100@10.0.0.2>;expires=soon", Some("600")).0, "600");
    assert_eq!(grant("<sip:100@10.0.0.2>", Some("600")).0, "600");
    let (e, change) = grant("<sip:100@10.0.0.2>;expires=0", Some("600"));
    assert_eq!(e, "0");
    assert!(matches!(change, Some(RegistrationChange::Remove { .. })));
}

#[test]
fn register_clamp_bound_holds_only_for_accepted_requests() {
    let exts = vec![ext("100", "secret", 90000, 100000, 1)];
    let m = msg(Method::Register, Some("100"), vec![]);
    assert!(register_clamp_ok(&m, Some(&exts), &cfg(true)));
    let out = handle_register(&m, &src(), Some(&exts), &cfg(true), 1);
    assert_eq!(code(&out.response), 401);
    let bad = msg(Method::Register, Some("100"), vec![(HeaderName::Authorization, auth_header("100", "bad", "REGISTER"))]);
    assert!(register_clamp_ok(&bad, Some(&exts), &cfg(true)));
    assert_eq!(code(&handle_register(&bad, &src(), Some(&exts), &cfg(true), 1).response), 403);
    assert!(!register_clamp_ok(&m, Some(&exts), &cfg(false)));
    let good = msg(Method::Register, Some("100"), vec![(HeaderName::Authorization, auth_header("100", "secret", "REGISTER"))]);
    assert!(!register_clamp_ok(&good, Some(&exts), &cfg(true)));
}

#[test]
fn invite_steps_through_authentication_and_routing() {
    let authz = auth_header_for("100", "secret", "INVITE", "sip:100@pbx.local");
    let m = msg(Method::Invite, Some("200"), vec![(HeaderName::Authorization, authz)]);
    let step = handle_invite(&m, &cfg(true), 5);
    assert_eq!(step.responses.len(), 1);
    assert_eq!(code(&step.responses[0]), 100);
    let (target, caller, authz) = match step.next {
        InviteNext::CheckCaller { target, caller, authorization } => (target, caller, authorization),
        _ => panic!("caller not checked"),
    };
    assert_eq!(target, "200");
    assert_eq!(caller, "100");
    let exts = vec![ext("100", "secret", 60, 3600, 1)];
    let step = invite_caller_checked(&m, &cfg(true), target, &caller, &authz, Some(&exts), 5);
    assert!(step.responses.is_empty());
    match step.next {
        InviteNext::LookupRegistration { target } => assert_eq!(target, "200"),
        _ => panic!("no lookup"),
    }
    let wrong = vec![ext("100", "other", 60, 3600, 1)];
    let step = invite_caller_checked(&m, &cfg(true), "200".to_string(), &caller, &authz, Some(&wrong), 5);
    assert_eq!(code(&step.responses[0]), 403);
}

#[test]
fn invite_caller_is_the_digest_username() {
    let m = msg(Method::Invite, Some("200"), vec![(HeaderName::Authorization, auth_header("100", "secret", "INVITE"))]);
    let step = handle_invite(&m, &cfg(true), 5);
    match step.next {
        InviteNext::CheckCaller { caller, .. } => assert_eq!(caller, "100"),
        _ => panic!("caller not checked"),
    }
    let m = msg(Method::Invite, Some("200"), vec![(HeaderName::Authorization, "Digest nonce=\"n\"".to_string())]);
    let step = handle_invite(&m, &cfg(true), 5);
    assert_eq!(step.responses.iter().map(code).collect::<Vec<_>>(), vec![100, 403]);
    assert!(matches!(step.next, InviteNext::Done));
    assert!(!step.forward);
}

#[test]
fn invite_caller_unknown_or_store_failure_is_403() {
    let m = msg(Method::Invite, Some("200"), vec![]);
    let step = invite_caller_checked(&m, &cfg(true), "200".to_string(), &"555".to_string(), &"x".to_string(), None, 5);
    assert_eq!(code(&step.responses[0]), 403);
    assert!(matches!(step.next, InviteNext::Done));
    let exts = vec![ext("100", "secret", 60, 3600, 1)];
    let step = invite_caller_checked(&m, &cfg(true), "200".to_string(), &"555".to_string(), &"x".to_string(), Some(&exts), 5);
    assert_eq!(code(&step.responses[0]), 403);
    assert!(matches!(step.next, InviteNext::Done));
}

#[test]
fn invite_without_credentials_is_challenged_and_without_target_is_400() {
    let m = msg(Method::Invite, Some("200"), vec![]);
    let step = handle_invite(&m, &cfg(true), 8);
    assert_eq!(step.responses.len(), 2);
    assert_eq!(code(&step.responses[0]), 100);
    assert_eq!(code(&step.responses[1]), 401);
    assert!(matches!(step.next, InviteNext::Done));
    let mut m = msg(Method::Invite, None, vec![]);
    m.headers.clear();
    let step = handle_invite(&m, &cfg(true), 8);
    assert_eq!(code(&step.responses[1]), 400);
    let m = msg(Method::Invite, Some("200"), vec![]);
    let step = handle_invite(&m, &cfg(false), 8);
    assert!(matches!(step.next, InviteNext::LookupRegistration { .. }));
}

#[test]
fn invite_routing_forwards_or_480() {
    let reg = Registration { source_ip: "10.0.0.9".to_string(), source_port: 5064 };
    assert_eq!(callee_address(Some(&reg)), Some("10.0.0.9:5064".to_string()));
    assert_eq!(callee_address(None), None);
    let m = msg(Method::Invite, Some("200"), vec![]);
    let step = invite_routed(&m, true, 3);
    assert!(step.forward);
    assert_eq!(code(&step.responses[0]), 180);
    let step = invite_routed(&m, false, 3);
    assert!(!step.forward);
    assert_eq!(code(&step.responses[0]), 480);
}

#[test]
fn bye_and_cancel_answers() {
    let m = msg(Method::Bye, Some("200"), vec![]);
    assert_eq!(code(&handle_bye(&m, 1)), 200);
    let rs = handle_cancel(&m, 1);
    assert_eq!(rs.iter().map(code).collect::<Vec<_>>(), vec![200, 487]);
}

#[test]
fn digest_items_in_any_order_and_realm_ignored() {
    let resp = digest("100", "pbx.local", "secret", "n", "REGISTER", "sip:pbx.local");
    let a = format!("Digest username=\"100\", realm=\"x\", nonce=\"n\", uri=\"sip:pbx.local\", response=\"{}\"", resp);
    let b = format!("Digest response=\"{}\", uri=\"sip:pbx.local\", nonce=\"n\", username=\"100\"", resp);
    let c = format!("Digest nonce=\"n\", realm=\"other\", response=\"{}\", username=\"100\", uri=\"sip:pbx.local\"", resp);
    for h in [&a, &b, &c] {
        assert!(verify_digest_header(h, "secret", "pbx.local", "REGISTER"));
        assert!(!verify_digest_header(h, "secret", "x", "REGISTER"));
    }
}
