//! The responses that the engine sends back to a request.

use vstd::prelude::*;
use vstd::utf8::*;
use crate::text::{find_first, find_bytes, decimal, signed_decimal, str_chars, push_all, decimal_u128, decimal_i64, chars_utf8};
use crate::sip::message::{
    SipMessage, SipMessageView, Header, HeaderView, HeaderName, HeaderNameView, StartLine,
    StartLineView, ResponseLine, first_header, headers_view, get_header,
};

verus! {

/// The value of the `User-Agent` header on every response.
pub open spec fn user_agent_value() -> Seq<u8> {
    encode_utf8("RustPBX/0.1.0"@)
}

/// The value of the `Content-Length` header on every response: no body.
pub open spec fn zero_length_value() -> Seq<u8> {
    encode_utf8("0"@)
}

pub open spec fn header_view(name: HeaderNameView, value: Seq<u8>) -> HeaderView {
    HeaderView { name, value }
}

pub open spec fn opt_seq<T>(o: Option<T>) -> Seq<T> {
    match o {
        Some(x) => seq![x],
        None => Seq::empty(),
    }
}

/// The headers a response copies from its request: the first `Via`, `From`, `To`,
/// `Call-ID` and `CSeq`, in that order, each where the request has it.
pub open spec fn base_headers(req: SipMessageView) -> Seq<HeaderView> {
    opt_seq(first_header(req.headers, HeaderNameView::Via)) + opt_seq(
        first_header(req.headers, HeaderNameView::From),
    ) + opt_seq(first_header(req.headers, HeaderNameView::To)) + opt_seq(
        first_header(req.headers, HeaderNameView::CallId),
    ) + opt_seq(first_header(req.headers, HeaderNameView::CSeq))
}

/// `;tag=`: the parameter that names the server's side of a dialog.
pub open spec fn tag_param() -> Seq<u8> {
    seq![59u8, 116u8, 97u8, 103u8, 61u8]
}

/// The `To` header of a response: the request's, with `;tag=` and the stamp in
/// decimal added when it carries no tag yet.
pub open spec fn tagged_to(h: HeaderView, stamp: u128) -> HeaderView {
    if find_first(h.value, tag_param()) is Some {
        h
    } else {
        HeaderView { name: h.name, value: h.value + tag_param() + encode_utf8(decimal(stamp as nat)) }
    }
}

pub open spec fn opt_tagged(o: Option<HeaderView>, stamp: u128) -> Seq<HeaderView> {
    match o {
        Some(h) => seq![tagged_to(h, stamp)],
        None => Seq::empty(),
    }
}

/// The headers a response with `code` copies from its request: those of
/// `base_headers`, except that a response other than `100 Trying` has a tag in `To`.
pub open spec fn response_base(req: SipMessageView, code: u16, stamp: u128) -> Seq<HeaderView> {
    if code == 100 {
        base_headers(req)
    } else {
        opt_seq(first_header(req.headers, HeaderNameView::Via)) + opt_seq(
            first_header(req.headers, HeaderNameView::From),
        ) + opt_tagged(first_header(req.headers, HeaderNameView::To), stamp) + opt_seq(
            first_header(req.headers, HeaderNameView::CallId),
        ) + opt_seq(first_header(req.headers, HeaderNameView::CSeq))
    }
}

/// The two headers that close every response: `User-Agent` and `Content-Length: 0`.
pub open spec fn closing_headers() -> Seq<HeaderView> {
    seq![
        header_view(HeaderNameView::UserAgent, user_agent_value()),
        header_view(HeaderNameView::ContentLength, zero_length_value()),
    ]
}

pub open spec fn response_view(code: u16, reason: Seq<char>, headers: Seq<HeaderView>) -> SipMessageView {
    SipMessageView {
        start: StartLineView::Response { code, reason },
        headers,
        body: Seq::empty(),
    }
}

/// The reason phrase that goes with a status code by default (RFC 3261, section 21).
pub open spec fn reason_phrase(code: u16) -> Seq<char> {
    if code == 100 { "Trying"@ }
    else if code == 180 { "Ringing"@ }
    else if code == 181 { "Call Is Being Forwarded"@ }
    else if code == 182 { "Queued"@ }
    else if code == 183 { "Session Progress"@ }
    else if code == 200 { "OK"@ }
    else if code == 202 { "Accepted"@ }
    else if code == 300 { "Multiple Choices"@ }
    else if code == 301 { "Moved Permanently"@ }
    else if code == 302 { "Moved Temporarily"@ }
    else if code == 305 { "Use Proxy"@ }
    else if code == 380 { "Alternative Service"@ }
    else if code == 400 { "Bad Request"@ }
    else if code == 401 { "Unauthorized"@ }
    else if code == 402 { "Payment Required"@ }
    else if code == 403 { "Forbidden"@ }
    else if code == 404 { "Not Found"@ }
    else if code == 405 { "Method Not Allowed"@ }
    else if code == 406 { "Not Acceptable"@ }
    else if code == 407 { "Proxy Authentication Required"@ }
    else if code == 408 { "Request Timeout"@ }
    else if code == 410 { "Gone"@ }
    else if code == 413 { "Request Entity Too Large"@ }
    else if code == 414 { "Request-URI Too Long"@ }
    else if code == 415 { "Unsupported Media Type"@ }
    else if code == 416 { "Unsupported URI Scheme"@ }
    else if code == 420 { "Bad Extension"@ }
    else if code == 421 { "Extension Required"@ }
    else if code == 423 { "Interval Too Brief"@ }
    else if code == 480 { "Temporarily Unavailable"@ }
    else if code == 481 { "Call/Transaction Does Not Exist"@ }
    else if code == 482 { "Loop Detected"@ }
    else if code == 483 { "Too Many Hops"@ }
    else if code == 484 { "Address Incomplete"@ }
    else if code == 485 { "Ambiguous"@ }
    else if code == 486 { "Busy Here"@ }
    else if code == 487 { "Request Terminated"@ }
    else if code == 488 { "Not Acceptable Here"@ }
    else if code == 491 { "Request Pending"@ }
    else if code == 493 { "Undecipherable"@ }
    else if code == 500 { "Server Internal Error"@ }
    else if code == 501 { "Not Implemented"@ }
    else if code == 502 { "Bad Gateway"@ }
    else if code == 503 { "Service Unavailable"@ }
    else if code == 504 { "Server Time-out"@ }
    else if code == 505 { "Version Not Supported"@ }
    else if code == 513 { "Message Too Large"@ }
    else if code == 600 { "Busy Everywhere"@ }
    else if code == 603 { "Decline"@ }
    else if code == 604 { "Does Not Exist Anywhere"@ }
    else if code == 606 { "Not Acceptable"@ }
    else { "Unknown"@ }
}

/// A response with `code`, its default reason phrase, the request's base headers
/// (`To` tagged with `stamp` unless `code` is 100), `User-Agent` and
/// `Content-Length: 0`, and no body.
pub open spec fn simple_response(req: SipMessageView, code: u16, stamp: u128) -> SipMessageView {
    response_view(code, reason_phrase(code), response_base(req, code, stamp) + closing_headers())
}

/// The text of a digest challenge for `realm` with the nonce drawn from `nonce`.
pub open spec fn challenge_text(realm: Seq<char>, nonce: u128) -> Seq<char> {
    "Digest realm=\""@ + realm + "\", nonce=\"nonce-"@ + decimal(nonce as nat)
        + "\", algorithm=MD5"@
}

/// `401 Unauthorized` carrying a `WWW-Authenticate` digest challenge; `stamp` makes
/// both the nonce and the `To` tag.
pub open spec fn digest_challenge(req: SipMessageView, realm: Seq<char>, stamp: u128) -> SipMessageView {
    response_view(
        401,
        "Unauthorized"@,
        response_base(req, 401, stamp) + seq![
            header_view(HeaderNameView::WwwAuthenticate, encode_utf8(challenge_text(realm, stamp))),
        ] + closing_headers(),
    )
}

/// `200 OK` to a registration: the request's `Contact` (if any) and the granted
/// `Expires`.
pub open spec fn register_ok(req: SipMessageView, granted_expires: i64, stamp: u128) -> SipMessageView {
    response_view(
        200,
        "OK"@,
        response_base(req, 200, stamp) + opt_seq(first_header(req.headers, HeaderNameView::Contact)) + seq![
            header_view(
                HeaderNameView::Expires,
                encode_utf8(signed_decimal(granted_expires as int)),
            ),
        ] + closing_headers(),
    )
}

pub open spec fn allow_value() -> Seq<u8> {
    encode_utf8("INVITE, ACK, CANCEL, BYE, OPTIONS, REGISTER"@)
}

pub open spec fn accept_value() -> Seq<u8> {
    encode_utf8("application/sdp"@)
}

/// `200 OK` to `OPTIONS`, listing the supported methods and `application/sdp`.
pub open spec fn options_ok(req: SipMessageView, stamp: u128) -> SipMessageView {
    response_view(
        200,
        "OK"@,
        response_base(req, 200, stamp) + seq![
            header_view(HeaderNameView::Allow, allow_value()),
            header_view(HeaderNameView::Accept, accept_value()),
        ] + closing_headers(),
    )
}

/// The default reason phrase of a status code.
pub fn default_reason_phrase(code: u16) -> (r: &'static str)
    ensures
        r@ == reason_phrase(code),
{
    if code == 100 { "Trying" }
    else if code == 180 { "Ringing" }
    else if code == 181 { "Call Is Being Forwarded" }
    else if code == 182 { "Queued" }
    else if code == 183 { "Session Progress" }
    else if code == 200 { "OK" }
    else if code == 202 { "Accepted" }
    else if code == 300 { "Multiple Choices" }
    else if code == 301 { "Moved Permanently" }
    else if code == 302 { "Moved Temporarily" }
    else if code == 305 { "Use Proxy" }
    else if code == 380 { "Alternative Service" }
    else if code == 400 { "Bad Request" }
    else if code == 401 { "Unauthorized" }
    else if code == 402 { "Payment Required" }
    else if code == 403 { "Forbidden" }
    else if code == 404 { "Not Found" }
    else if code == 405 { "Method Not Allowed" }
    else if code == 406 { "Not Acceptable" }
    else if code == 407 { "Proxy Authentication Required" }
    else if code == 408 { "Request Timeout" }
    else if code == 410 { "Gone" }
    else if code == 413 { "Request Entity Too Large" }
    else if code == 414 { "Request-URI Too Long" }
    else if code == 415 { "Unsupported Media Type" }
    else if code == 416 { "Unsupported URI Scheme" }
    else if code == 420 { "Bad Extension" }
    else if code == 421 { "Extension Required" }
    else if code == 423 { "Interval Too Brief" }
    else if code == 480 { "Temporarily Unavailable" }
    else if code == 481 { "Call/Transaction Does Not Exist" }
    else if code == 482 { "Loop Detected" }
    else if code == 483 { "Too Many Hops" }
    else if code == 484 { "Address Incomplete" }
    else if code == 485 { "Ambiguous" }
    else if code == 486 { "Busy Here" }
    else if code == 487 { "Request Terminated" }
    else if code == 488 { "Not Acceptable Here" }
    else if code == 491 { "Request Pending" }
    else if code == 493 { "Undecipherable" }
    else if code == 500 { "Server Internal Error" }
    else if code == 501 { "Not Implemented" }
    else if code == 502 { "Bad Gateway" }
    else if code == 503 { "Service Unavailable" }
    else if code == 504 { "Server Time-out" }
    else if code == 505 { "Version Not Supported" }
    else if code == 513 { "Message Too Large" }
    else if code == 600 { "Busy Everywhere" }
    else if code == 603 { "Decline" }
    else if code == 604 { "Does Not Exist Anywhere" }
    else if code == 606 { "Not Acceptable" }
    else { "Unknown" }
}

fn push_header(v: &mut Vec<Header>, h: Header)
    ensures
        headers_view(final(v)@) == headers_view(old(v)@).push(h@),
{
    v.push(h);
    assert(headers_view(v@) =~= headers_view(old(v)@).push(h@));
}

fn push_first_copy(v: &mut Vec<Header>, request: &SipMessage, name: HeaderName)
    ensures
        headers_view(final(v)@) == headers_view(old(v)@) + opt_seq(
            first_header(request@.headers, name@),
        ),
{
    match get_header(&request.headers, &name) {
        Some(h) => {
            push_header(v, h.copied());
            assert(headers_view(v@) =~= headers_view(old(v)@) + seq![h@]);
        },
        None => {
            assert(headers_view(v@) =~= headers_view(old(v)@) + Seq::<HeaderView>::empty());
        },
    }
}

/// The headers a response copies from `request`.
pub fn extract_base_headers(request: &SipMessage) -> (res: Vec<Header>)
    ensures
        headers_view(res@) == base_headers(request@),
{
    let mut v: Vec<Header> = Vec::new();
    assert(headers_view(v@) =~= Seq::<HeaderView>::empty());
    push_first_copy(&mut v, request, HeaderName::Via);
    push_first_copy(&mut v, request, HeaderName::From);
    push_first_copy(&mut v, request, HeaderName::To);
    push_first_copy(&mut v, request, HeaderName::CallId);
    push_first_copy(&mut v, request, HeaderName::CSeq);
    assert(headers_view(v@) =~= base_headers(request@));
    v
}

fn tag_to_header(h: &Header, stamp: u128) -> (r: Header)
    ensures
        r@ == tagged_to(h@, stamp),
{
    let param = vec![59u8, 116u8, 97u8, 103u8, 61u8];
    assert(param@ =~= tag_param());
    match find_bytes(h.raw_value.as_slice(), &param, 0) {
        Some(_) => h.copied(),
        None => {
            let mut value = vstd::slice::slice_to_vec(h.raw_value.as_slice());
            push_all(&mut value, &param);
            push_all(&mut value, &chars_utf8(&decimal_u128(stamp)));
            Header { name: h.name.copied(), raw_value: value }
        },
    }
}

/// The headers a response with `code` copies from `request` (see `response_base`).
pub fn response_base_headers(request: &SipMessage, code: u16, stamp: u128) -> (res: Vec<Header>)
    ensures
        headers_view(res@) == response_base(request@, code, stamp),
{
    if code == 100 {
        return extract_base_headers(request);
    }
    let mut v: Vec<Header> = Vec::new();
    assert(headers_view(v@) =~= Seq::<HeaderView>::empty());
    push_first_copy(&mut v, request, HeaderName::Via);
    push_first_copy(&mut v, request, HeaderName::From);
    let ghost before = headers_view(v@);
    match get_header(&request.headers, &HeaderName::To) {
        Some(h) => {
            push_header(&mut v, tag_to_header(h, stamp));
            assert(headers_view(v@) =~= before + seq![tagged_to(h@, stamp)]);
        },
        None => {
            assert(headers_view(v@) =~= before + Seq::<HeaderView>::empty());
        },
    }
    push_first_copy(&mut v, request, HeaderName::CallId);
    push_first_copy(&mut v, request, HeaderName::CSeq);
    assert(headers_view(v@) =~= response_base(request@, code, stamp));
    v
}

fn push_closing(v: &mut Vec<Header>)
    ensures
        headers_view(final(v)@) == headers_view(old(v)@) + closing_headers(),
{
    push_header(v, Header::new(HeaderName::UserAgent, "RustPBX/0.1.0".as_bytes_vec()));
    push_header(v, Header::new(HeaderName::ContentLength, "0".as_bytes_vec()));
    assert(headers_view(v@) =~= headers_view(old(v)@) + closing_headers());
}

fn response_message(code: u16, reason: &str, headers: Vec<Header>) -> (m: SipMessage)
    ensures
        m@ == response_view(code, reason@, headers_view(headers@)),
{
    let m = SipMessage {
        start_line: StartLine::Response(ResponseLine { status_code: code, reason_phrase: reason.to_owned() }),
        headers,
        body: Vec::new(),
    };
    assert(m@.body =~= Seq::<u8>::empty());
    m
}

/// A response with `status_code` and its default reason phrase.
pub fn build_simple_response(request: &SipMessage, status_code: u16, stamp: u128) -> (m: SipMessage)
    ensures
        m@ == simple_response(request@, status_code, stamp),
{
    let mut hs = response_base_headers(request, status_code, stamp);
    push_closing(&mut hs);
    response_message(status_code, default_reason_phrase(status_code), hs)
}

/// `401 Unauthorized` with a digest challenge for `realm`; `stamp` makes the nonce
/// and the `To` tag.
pub fn build_digest_challenge(request: &SipMessage, realm: &str, stamp: u128) -> (m: SipMessage)
    ensures
        m@ == digest_challenge(request@, realm@, stamp),
{
    let nonce = stamp;
    let mut hs = response_base_headers(request, 401, stamp);
    let mut text = str_chars("Digest realm=\"");
    push_all(&mut text, &str_chars(realm));
    push_all(&mut text, &str_chars("\", nonce=\"nonce-"));
    push_all(&mut text, &decimal_u128(nonce));
    push_all(&mut text, &str_chars("\", algorithm=MD5"));
    assert(text@ =~= challenge_text(realm@, stamp));
    let ghost base = headers_view(hs@);
    push_header(&mut hs, Header::new(HeaderName::WwwAuthenticate, chars_utf8(&text)));
    push_closing(&mut hs);
    assert(headers_view(hs@) =~= base + seq![
        header_view(HeaderNameView::WwwAuthenticate, encode_utf8(challenge_text(realm@, stamp))),
    ] + closing_headers());
    let m = response_message(401, "Unauthorized", hs);
    assert(m@.start == (StartLineView::Response { code: 401, reason: "Unauthorized"@ }));
    m
}

/// `200 OK` to a registration, granting `granted_expires` seconds.
pub fn build_register_ok(request: &SipMessage, granted_expires: i64, stamp: u128) -> (m: SipMessage)
    ensures
        m@ == register_ok(request@, granted_expires, stamp),
{
    let mut hs = response_base_headers(request, 200, stamp);
    push_first_copy(&mut hs, request, HeaderName::Contact);
    let ghost prefix = headers_view(hs@);
    let expires = decimal_i64(granted_expires);
    push_header(&mut hs, Header::new(HeaderName::Expires, chars_utf8(&expires)));
    push_closing(&mut hs);
    assert(headers_view(hs@) =~= prefix + seq![
        header_view(HeaderNameView::Expires, encode_utf8(signed_decimal(granted_expires as int))),
    ] + closing_headers());
    response_message(200, "OK", hs)
}

/// `200 OK` to `OPTIONS`.
pub fn build_options_ok(request: &SipMessage, stamp: u128) -> (m: SipMessage)
    ensures
        m@ == options_ok(request@, stamp),
{
    let mut hs = response_base_headers(request, 200, stamp);
    let ghost base = headers_view(hs@);
    push_header(&mut hs, Header::new(HeaderName::Allow, "INVITE, ACK, CANCEL, BYE, OPTIONS, REGISTER".as_bytes_vec()));
    push_header(&mut hs, Header::new(HeaderName::Accept, "application/sdp".as_bytes_vec()));
    push_closing(&mut hs);
    assert(headers_view(hs@) =~= base + seq![
        header_view(HeaderNameView::Allow, allow_value()),
        header_view(HeaderNameView::Accept, accept_value()),
    ] + closing_headers());
    response_message(200, "OK", hs)
}

} // verus!
