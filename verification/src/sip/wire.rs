//! The bytes a message is sent as.

use vstd::prelude::*;
use vstd::utf8::*;
use crate::text::{
    decimal, decimal_u128, push_all, chars_utf8, str_chars, find_first, find_bytes, find_seq,
    lemma_find_from, occurs_at, split_char, utf8_text, copy_range, chars_eq, chars_to_string,
};
use crate::sip::message::{SipUri, SipUriView, RequestLine, ResponseLine};
use crate::sip::message::{
    SipMessage, SipMessageView, StartLine, StartLineView, Method, MethodView, HeaderName,
    HeaderNameView, Header, HeaderView, headers_view,
};

verus! {

broadcast use vstd::seq_lib::group_seq_properties;

pub open spec fn method_text(m: MethodView) -> Seq<char> {
    match m {
        MethodView::Invite => "INVITE"@,
        MethodView::Ack => "ACK"@,
        MethodView::Bye => "BYE"@,
        MethodView::Cancel => "CANCEL"@,
        MethodView::Register => "REGISTER"@,
        MethodView::Options => "OPTIONS"@,
        MethodView::Other(s) => s,
    }
}

pub open spec fn header_name_text(n: HeaderNameView) -> Seq<char> {
    match n {
        HeaderNameView::Via => "Via"@,
        HeaderNameView::From => "From"@,
        HeaderNameView::To => "To"@,
        HeaderNameView::CallId => "Call-ID"@,
        HeaderNameView::CSeq => "CSeq"@,
        HeaderNameView::Contact => "Contact"@,
        HeaderNameView::Authorization => "Authorization"@,
        HeaderNameView::WwwAuthenticate => "WWW-Authenticate"@,
        HeaderNameView::UserAgent => "User-Agent"@,
        HeaderNameView::Allow => "Allow"@,
        HeaderNameView::Accept => "Accept"@,
        HeaderNameView::ContentLength => "Content-Length"@,
        HeaderNameView::ContentType => "Content-Type"@,
        HeaderNameView::Expires => "Expires"@,
        HeaderNameView::Other(s) => s,
    }
}

pub open spec fn crlf() -> Seq<u8> {
    seq![13u8, 10u8]
}

/// `SIP/2.0`.
pub open spec fn version_bytes() -> Seq<u8> {
    seq![83u8, 73u8, 80u8, 47u8, 50u8, 46u8, 48u8]
}

/// The start line: `METHOD uri SIP/2.0` or `SIP/2.0 code reason`, then CRLF.
pub open spec fn start_line_bytes(s: StartLineView) -> Seq<u8> {
    match s {
        StartLineView::Request { method, uri } => encode_utf8(method_text(method)) + seq![32u8]
            + encode_utf8(uri.text) + seq![32u8] + version_bytes() + crlf(),
        StartLineView::Response { code, reason } => version_bytes() + seq![32u8] + encode_utf8(
            decimal(code as nat),
        ) + seq![32u8] + encode_utf8(reason) + crlf(),
    }
}

/// One header line: `Name: value` and CRLF.
pub open spec fn header_line_bytes(h: HeaderView) -> Seq<u8> {
    encode_utf8(header_name_text(h.name)) + seq![58u8, 32u8] + h.value + crlf()
}

pub open spec fn headers_bytes(hs: Seq<HeaderView>) -> Seq<u8>
    decreases hs.len(),
{
    if hs.len() == 0 {
        Seq::empty()
    } else {
        headers_bytes(hs.drop_last()) + header_line_bytes(hs.last())
    }
}

/// The whole message: start line, header lines, an empty line, the body.
pub open spec fn message_bytes(m: SipMessageView) -> Seq<u8> {
    start_line_bytes(m.start) + headers_bytes(m.headers) + crlf() + m.body
}

fn method_str(m: &Method) -> (r: Vec<char>)
    ensures
        r@ == method_text(m@),
{
    match m {
        Method::Invite => str_chars("INVITE"),
        Method::Ack => str_chars("ACK"),
        Method::Bye => str_chars("BYE"),
        Method::Cancel => str_chars("CANCEL"),
        Method::Register => str_chars("REGISTER"),
        Method::Options => str_chars("OPTIONS"),
        Method::Other(s) => str_chars(s.as_str()),
    }
}

fn header_name_str(n: &HeaderName) -> (r: Vec<char>)
    ensures
        r@ == header_name_text(n@),
{
    match n {
        HeaderName::Via => str_chars("Via"),
        HeaderName::From => str_chars("From"),
        HeaderName::To => str_chars("To"),
        HeaderName::CallId => str_chars("Call-ID"),
        HeaderName::CSeq => str_chars("CSeq"),
        HeaderName::Contact => str_chars("Contact"),
        HeaderName::Authorization => str_chars("Authorization"),
        HeaderName::WwwAuthenticate => str_chars("WWW-Authenticate"),
        HeaderName::UserAgent => str_chars("User-Agent"),
        HeaderName::Allow => str_chars("Allow"),
        HeaderName::Accept => str_chars("Accept"),
        HeaderName::ContentLength => str_chars("Content-Length"),
        HeaderName::ContentType => str_chars("Content-Type"),
        HeaderName::Expires => str_chars("Expires"),
        HeaderName::Other(s) => str_chars(s.as_str()),
    }
}

fn version_vec() -> (v: Vec<u8>)
    ensures
        v@ == version_bytes(),
{
    let v = vec![83u8, 73u8, 80u8, 47u8, 50u8, 46u8, 48u8];
    assert(v@ =~= version_bytes());
    v
}

/// The bytes of `msg` as sent on the wire (see `message_bytes`).
pub fn serialize_message(msg: &SipMessage) -> (out: Vec<u8>)
    ensures
        out@ == message_bytes(msg@),
{
    let mut out: Vec<u8> = Vec::new();
    match &msg.start_line {
        StartLine::Request(req) => {
            push_all(&mut out, &chars_utf8(&method_str(&req.method)));
            out.push(32u8);
            push_all(&mut out, &chars_utf8(&str_chars(req.uri.text.as_str())));
            out.push(32u8);
            push_all(&mut out, &version_vec());
            out.push(13u8);
            out.push(10u8);
        },
        StartLine::Response(resp) => {
            push_all(&mut out, &version_vec());
            out.push(32u8);
            push_all(&mut out, &chars_utf8(&decimal_u128(resp.status_code as u128)));
            out.push(32u8);
            push_all(&mut out, &chars_utf8(&str_chars(resp.reason_phrase.as_str())));
            out.push(13u8);
            out.push(10u8);
        },
    }
    assert(out@ =~= start_line_bytes(msg@.start));
    let ghost start = out@;
    let ghost hv = headers_view(msg.headers@);
    let mut i: usize = 0;
    assert(hv.take(0) =~= Seq::<HeaderView>::empty());
    while i < msg.headers.len()
        invariant
            hv == headers_view(msg.headers@),
            hv.len() == msg.headers@.len(),
            i <= msg.headers@.len(),
            out@ == start + headers_bytes(hv.take(i as int)),
        decreases msg.headers@.len() - i,
    {
        let h = &msg.headers[i];
        let ghost before = out@;
        push_all(&mut out, &chars_utf8(&header_name_str(&h.name)));
        out.push(58u8);
        out.push(32u8);
        push_all(&mut out, h.raw_value.as_slice());
        out.push(13u8);
        out.push(10u8);
        assert(hv.take(i + 1).drop_last() =~= hv.take(i as int));
        assert(hv.take(i + 1).last() == h@);
        assert(out@ =~= before + header_line_bytes(h@));
        i = i + 1;
    }
    assert(hv.take(i as int) =~= hv);
    out.push(13u8);
    out.push(10u8);
    push_all(&mut out, msg.body.as_slice());
    assert(out@ =~= message_bytes(msg@));
    out
}

// ---------------------------------------------------------------------------
// Reading a message from bytes.
// ---------------------------------------------------------------------------

/// `s` without a final carriage return.
pub open spec fn strip_cr(s: Seq<u8>) -> Seq<u8> {
    if s.len() > 0 && s.last() == 13u8 {
        s.drop_last()
    } else {
        s
    }
}

pub open spec fn is_ows(b: u8) -> bool {
    b == 32u8 || b == 9u8
}

/// `s` without leading spaces and tabs.
pub open spec fn trim_start_ows(s: Seq<u8>) -> Seq<u8>
    decreases s.len(),
{
    if s.len() > 0 && is_ows(s[0]) {
        trim_start_ows(s.drop_first())
    } else {
        s
    }
}

/// `s` without trailing spaces and tabs.
pub open spec fn trim_end_ows(s: Seq<u8>) -> Seq<u8>
    decreases s.len(),
{
    if s.len() > 0 && is_ows(s.last()) {
        trim_end_ows(s.drop_last())
    } else {
        s
    }
}

pub open spec fn is_ascii_bytes(s: Seq<u8>) -> bool {
    forall|i: int| 0 <= i < s.len() ==> s[i] < 128
}

pub open spec fn ascii_chars(s: Seq<u8>) -> Seq<char> {
    s.map_values(|b: u8| b as char)
}

pub open spec fn lower(c: char) -> char {
    if 'A' <= c && c <= 'Z' {
        ((c as u8) + 32) as char
    } else {
        c
    }
}

pub open spec fn lower_seq(s: Seq<char>) -> Seq<char> {
    s.map_values(|c: char| lower(c))
}

/// The header a name denotes, ignoring case and accepting the compact forms `v`,
/// `f`, `t`, `i`, `m`, `l` and `c`.
pub open spec fn header_name_of(n: Seq<char>) -> HeaderNameView {
    let l = lower_seq(n);
    if l == "via"@ || l == "v"@ { HeaderNameView::Via }
    else if l == "from"@ || l == "f"@ { HeaderNameView::From }
    else if l == "to"@ || l == "t"@ { HeaderNameView::To }
    else if l == "call-id"@ || l == "i"@ { HeaderNameView::CallId }
    else if l == "cseq"@ { HeaderNameView::CSeq }
    else if l == "contact"@ || l == "m"@ { HeaderNameView::Contact }
    else if l == "authorization"@ { HeaderNameView::Authorization }
    else if l == "www-authenticate"@ { HeaderNameView::WwwAuthenticate }
    else if l == "user-agent"@ { HeaderNameView::UserAgent }
    else if l == "allow"@ { HeaderNameView::Allow }
    else if l == "accept"@ { HeaderNameView::Accept }
    else if l == "content-length"@ || l == "l"@ { HeaderNameView::ContentLength }
    else if l == "content-type"@ || l == "c"@ { HeaderNameView::ContentType }
    else if l == "expires"@ { HeaderNameView::Expires }
    else { HeaderNameView::Other(n) }
}

/// A header line `name: value`: the name is what precedes the first `:`, without
/// surrounding spaces or tabs, non-empty and ASCII; the value is what follows, without
/// leading spaces or tabs.
pub open spec fn parse_header_line(l: Seq<u8>) -> Option<HeaderView> {
    match find_first(l, seq![58u8]) {
        None => None,
        Some(c) => {
            let name = trim_end_ows(trim_start_ows(l.take(c)));
            if name.len() > 0 && is_ascii_bytes(name) {
                Some(HeaderView {
                    name: header_name_of(ascii_chars(name)),
                    value: trim_start_ows(l.skip(c + 1)),
                })
            } else {
                None
            }
        },
    }
}

/// Every header line, in order; none if one of them is not a header line.
pub open spec fn parse_header_lines(lines: Seq<Seq<u8>>) -> Option<Seq<HeaderView>>
    decreases lines.len(),
{
    if lines.len() == 0 {
        Some(Seq::empty())
    } else {
        match (parse_header_lines(lines.drop_last()), parse_header_line(lines.last())) {
            (Some(hs), Some(h)) => Some(hs.push(h)),
            _ => None,
        }
    }
}

pub open spec fn method_of(t: Seq<char>) -> MethodView {
    if t == "INVITE"@ { MethodView::Invite }
    else if t == "ACK"@ { MethodView::Ack }
    else if t == "BYE"@ { MethodView::Bye }
    else if t == "CANCEL"@ { MethodView::Cancel }
    else if t == "REGISTER"@ { MethodView::Register }
    else if t == "OPTIONS"@ { MethodView::Options }
    else { MethodView::Other(t) }
}

/// The user part of a `sip:` or `sips:` URI: what precedes its `@`, if it has one.
pub open spec fn uri_user(t: Seq<char>) -> Option<Seq<char>> {
    let rest = if t.len() >= 4 && t.take(4) == "sip:"@ {
        Some(t.skip(4))
    } else if t.len() >= 5 && t.take(5) == "sips:"@ {
        Some(t.skip(5))
    } else {
        None
    };
    match rest {
        Some(r) => match find_first(r, seq!['@']) {
            Some(a) => Some(r.take(a)),
            None => None,
        },
        None => None,
    }
}

pub open spec fn version_text() -> Seq<char> {
    "SIP/2.0"@
}

pub open spec fn is_digit(c: char) -> bool {
    '0' <= c && c <= '9'
}

pub open spec fn digit_value(c: char) -> int {
    (c as int) - 48
}

/// A start line: `SIP/2.0 code reason` with a three-digit code, or
/// `METHOD uri SIP/2.0` with a non-empty method and URI; the parts are separated by
/// the first two spaces, and the line must be UTF-8.
pub open spec fn parse_start_line(l: Seq<u8>) -> Option<StartLineView> {
    if !valid_utf8(l) {
        None
    } else {
        let t = decode_utf8(l);
        match find_first(t, seq![' ']) {
            None => None,
            Some(i) => {
                let a = t.take(i);
                let rest = t.skip(i + 1);
                match find_first(rest, seq![' ']) {
                    None => None,
                    Some(j) => {
                        let b = rest.take(j);
                        let c = rest.skip(j + 1);
                        if a == version_text() {
                            if b.len() == 3 && is_digit(b[0]) && is_digit(b[1]) && is_digit(b[2]) {
                                Some(StartLineView::Response {
                                    code: (digit_value(b[0]) * 100 + digit_value(b[1]) * 10
                                        + digit_value(b[2])) as u16,
                                    reason: c,
                                })
                            } else {
                                None
                            }
                        } else if c == version_text() && a.len() > 0 && b.len() > 0 {
                            Some(StartLineView::Request {
                                method: method_of(a),
                                uri: SipUriView { text: b, user: uri_user(b) },
                            })
                        } else {
                            None
                        }
                    },
                }
            },
        }
    }
}

pub open spec fn blank_line() -> Seq<u8> {
    seq![13u8, 10u8, 13u8, 10u8]
}

/// A message read from bytes: what precedes the first empty line is the head, its
/// lines (split at line feeds, without a final carriage return) are the start line
/// and the header lines; what follows the empty line is the body.
pub open spec fn parse_message_bytes(b: Seq<u8>) -> Option<SipMessageView> {
    match find_first(b, blank_line()) {
        None => None,
        Some(h) => {
            let lines = split_char(b.take(h), 10u8).map_values(|l: Seq<u8>| strip_cr(l));
            match (parse_start_line(lines[0]), parse_header_lines(lines.skip(1))) {
                (Some(start), Some(headers)) => Some(SipMessageView { start, headers, body: b.skip(h + 4) }),
                _ => None,
            }
        },
    }
}

pub open spec fn byte_lines_view(v: Seq<Vec<u8>>) -> Seq<Seq<u8>> {
    v.map_values(|x: Vec<u8>| x@)
}

proof fn lemma_split_step_bytes(s: Seq<u8>, i: int)
    requires
        0 <= i < s.len(),
    ensures
        split_char(s.take(i + 1), 10u8) == if s[i] == 10u8 {
            split_char(s.take(i), 10u8).push(Seq::empty())
        } else {
            let p = split_char(s.take(i), 10u8);
            p.update(p.len() - 1, p.last().push(s[i]))
        },
{
    assert(s.take(i + 1).drop_last() =~= s.take(i));
    assert(s.take(i + 1).last() == s[i]);
}

fn strip_cr_exec(v: Vec<u8>) -> (r: Vec<u8>)
    ensures
        r@ == strip_cr(v@),
{
    let n = v.len();
    if n > 0 && v[n - 1] == 13u8 {
        let r = copy_bytes(&v, 0, n - 1);
        assert(r@ =~= v@.drop_last());
        r
    } else {
        v
    }
}

fn copy_bytes(s: &[u8], a: usize, b: usize) -> (res: Vec<u8>)
    requires
        a <= b <= s@.len(),
    ensures
        res@ == s@.subrange(a as int, b as int),
{
    vstd::slice::slice_to_vec(vstd::slice::slice_subrange(s, a, b))
}

/// The lines of a message head, without final carriage returns.
fn head_lines(head: &[u8]) -> (res: Vec<Vec<u8>>)
    ensures
        byte_lines_view(res@) == split_char(head@, 10u8).map_values(|l: Seq<u8>| strip_cr(l)),
{
    let mut done: Vec<Vec<u8>> = Vec::new();
    let mut cur: Vec<u8> = Vec::new();
    let ghost mut raw: Seq<Seq<u8>> = Seq::empty();
    let mut i: usize = 0;
    assert(head@.take(0) =~= Seq::<u8>::empty());
    assert(split_char(head@.take(0), 10u8) =~= seq![Seq::<u8>::empty()]);
    while i < head.len()
        invariant
            i <= head@.len(),
            split_char(head@.take(i as int), 10u8) == raw.push(cur@),
            byte_lines_view(done@) == raw.map_values(|l: Seq<u8>| strip_cr(l)),
        decreases head@.len() - i,
    {
        proof {
            lemma_split_step_bytes(head@, i as int);
        }
        let b = head[i];
        if b == 10u8 {
            let ghost line = cur@;
            let finished = strip_cr_exec(cur);
            let ghost before = done@;
            let ghost fin = finished@;
            let ghost raw_before = raw;
            done.push(finished);
            assert(byte_lines_view(done@) =~= byte_lines_view(before).push(fin));
            proof {
                raw = raw.push(line);
            }
            assert(raw.map_values(|l: Seq<u8>| strip_cr(l)) =~= raw_before.map_values(
                |l: Seq<u8>| strip_cr(l),
            ).push(strip_cr(line)));
            cur = Vec::new();
            assert(byte_lines_view(done@) =~= raw.map_values(|l: Seq<u8>| strip_cr(l)));
            assert(split_char(head@.take(i + 1), 10u8) =~= raw.push(cur@));
        } else {
            cur.push(b);
            assert(split_char(head@.take(i + 1), 10u8) =~= raw.push(cur@));
        }
        i = i + 1;
    }
    let ghost line = cur@;
    let last = strip_cr_exec(cur);
    let ghost before = done@;
    let ghost fin = last@;
    done.push(last);
    assert(byte_lines_view(done@) =~= byte_lines_view(before).push(fin));
    assert(raw.push(line).map_values(|l: Seq<u8>| strip_cr(l)) =~= raw.map_values(
        |l: Seq<u8>| strip_cr(l),
    ).push(strip_cr(line)));
    assert(head@.take(head@.len() as int) =~= head@);
    assert(byte_lines_view(done@) =~= raw.push(line).map_values(|l: Seq<u8>| strip_cr(l)));
    done
}

pub fn trim_ows_bytes(s: &[u8]) -> (r: Vec<u8>)
    ensures
        r@ == trim_end_ows(trim_start_ows(s@)),
{
    let mut k: usize = 0;
    while k < s.len() && (s[k] == 32u8 || s[k] == 9u8)
        invariant
            k <= s@.len(),
            trim_start_ows(s@) == trim_start_ows(s@.skip(k as int)),
        decreases s@.len() - k,
    {
        assert(s@.skip(k as int).drop_first() =~= s@.skip(k + 1));
        k = k + 1;
    }
    assert(s@.skip(k as int) =~= s@.subrange(k as int, s@.len() as int));
    let a = copy_bytes(s, k, s.len());
    let mut e: usize = a.len();
    while e > 0 && (a[e - 1] == 32u8 || a[e - 1] == 9u8)
        invariant
            e <= a@.len(),
            trim_end_ows(a@) == trim_end_ows(a@.take(e as int)),
        decreases e,
    {
        assert(a@.take(e as int).drop_last() =~= a@.take(e - 1));
        e = e - 1;
    }
    assert(a@.take(e as int) =~= a@.subrange(0, e as int));
    copy_bytes(&a, 0, e)
}

fn trim_start_ows_exec(s: &[u8]) -> (r: Vec<u8>)
    ensures
        r@ == trim_start_ows(s@),
{
    let mut k: usize = 0;
    while k < s.len() && (s[k] == 32u8 || s[k] == 9u8)
        invariant
            k <= s@.len(),
            trim_start_ows(s@) == trim_start_ows(s@.skip(k as int)),
        decreases s@.len() - k,
    {
        assert(s@.skip(k as int).drop_first() =~= s@.skip(k + 1));
        k = k + 1;
    }
    assert(s@.skip(k as int) =~= s@.subrange(k as int, s@.len() as int));
    copy_bytes(s, k, s.len())
}

/// The characters of ASCII bytes; none when a byte is not ASCII.
fn ascii_chars_exec(s: &[u8]) -> (r: Option<Vec<char>>)
    ensures
        r is Some <==> is_ascii_bytes(s@),
        r matches Some(v) ==> v@ == ascii_chars(s@),
{
    let mut v: Vec<char> = Vec::new();
    let mut i: usize = 0;
    while i < s.len()
        invariant
            i <= s@.len(),
            forall|k: int| 0 <= k < i ==> s@[k] < 128,
            v@ == ascii_chars(s@.take(i as int)),
        decreases s@.len() - i,
    {
        if s[i] >= 128u8 {
            return None;
        }
        v.push(s[i] as char);
        assert(ascii_chars(s@.take(i + 1)) =~= ascii_chars(s@.take(i as int)).push(s@[i as int] as char));
        i = i + 1;
    }
    assert(s@.take(i as int) =~= s@);
    Some(v)
}

fn lower_exec(s: &[char]) -> (r: Vec<char>)
    ensures
        r@ == lower_seq(s@),
{
    let mut v: Vec<char> = Vec::new();
    let mut i: usize = 0;
    while i < s.len()
        invariant
            i <= s@.len(),
            v@ == lower_seq(s@.take(i as int)),
        decreases s@.len() - i,
    {
        let c = s[i];
        let l = if 'A' <= c && c <= 'Z' { ((c as u8) + 32) as char } else { c };
        v.push(l);
        assert(lower_seq(s@.take(i + 1)) =~= lower_seq(s@.take(i as int)).push(lower(s@[i as int])));
        i = i + 1;
    }
    assert(s@.take(i as int) =~= s@);
    v
}

fn is(l: &[char], t: &str) -> (r: bool)
    ensures
        r == (l@ == t@),
{
    chars_eq(l, &str_chars(t))
}

/// The header a name denotes (see `header_name_of`).
pub fn header_name_from(n: &[char]) -> (r: HeaderName)
    ensures
        r@ == header_name_of(n@),
{
    let l = lower_exec(n);
    if is(&l, "via") || is(&l, "v") { HeaderName::Via }
    else if is(&l, "from") || is(&l, "f") { HeaderName::From }
    else if is(&l, "to") || is(&l, "t") { HeaderName::To }
    else if is(&l, "call-id") || is(&l, "i") { HeaderName::CallId }
    else if is(&l, "cseq") { HeaderName::CSeq }
    else if is(&l, "contact") || is(&l, "m") { HeaderName::Contact }
    else if is(&l, "authorization") { HeaderName::Authorization }
    else if is(&l, "www-authenticate") { HeaderName::WwwAuthenticate }
    else if is(&l, "user-agent") { HeaderName::UserAgent }
    else if is(&l, "allow") { HeaderName::Allow }
    else if is(&l, "accept") { HeaderName::Accept }
    else if is(&l, "content-length") || is(&l, "l") { HeaderName::ContentLength }
    else if is(&l, "content-type") || is(&l, "c") { HeaderName::ContentType }
    else if is(&l, "expires") { HeaderName::Expires }
    else { HeaderName::Other(chars_to_string(n)) }
}

fn parse_header_line_exec(l: &[u8]) -> (r: Option<Header>)
    ensures
        r matches Some(h) ==> parse_header_line(l@) == Some(h@),
        r is None ==> parse_header_line(l@) is None,
{
    let colon = vec![58u8];
    assert(colon@ =~= seq![58u8]);
    match find_bytes(l, &colon, 0) {
        None => None,
        Some(c) => {
            proof {
                lemma_find_from(l@, seq![58u8], 0);
            }
            assert(occurs_at(l@, seq![58u8], c as int));
            let llen = l.len();
            let head = copy_bytes(l, 0, c);
            assert(head@ =~= l@.take(c as int));
            let name = trim_ows_bytes(&head);
            if name.len() == 0 {
                return None;
            }
            match ascii_chars_exec(&name) {
                None => None,
                Some(chars) => {
                    let rest = copy_bytes(l, c + 1, llen);
                    assert(rest@ =~= l@.skip(c + 1));
                    let value = trim_start_ows_exec(&rest);
                    Some(Header { name: header_name_from(&chars), raw_value: value })
                },
            }
        },
    }
}

fn method_from(t: &[char]) -> (m: Method)
    ensures
        m@ == method_of(t@),
{
    if is(t, "INVITE") { Method::Invite }
    else if is(t, "ACK") { Method::Ack }
    else if is(t, "BYE") { Method::Bye }
    else if is(t, "CANCEL") { Method::Cancel }
    else if is(t, "REGISTER") { Method::Register }
    else if is(t, "OPTIONS") { Method::Options }
    else { Method::Other(chars_to_string(t)) }
}

fn starts_with_text(t: &[char], p: &str) -> (r: bool)
    ensures
        r == (t@.len() >= p@.len() && t@.take(p@.len() as int) == p@),
{
    let pc = str_chars(p);
    if t.len() >= pc.len() {
        let head = copy_range(t, 0, pc.len());
        assert(head@ =~= t@.take(p@.len() as int));
        chars_eq(&head, &pc)
    } else {
        false
    }
}

fn uri_user_exec(t: &[char]) -> (r: Option<Vec<char>>)
    ensures
        r matches Some(u) ==> uri_user(t@) == Some(u@),
        r is None ==> uri_user(t@) is None,
{
    proof {
        reveal_strlit("sip:");
        reveal_strlit("sips:");
    }
    let rest = if starts_with_text(t, "sip:") {
        let r = copy_range(t, 4, t.len());
        assert(r@ =~= t@.skip(4));
        r
    } else if starts_with_text(t, "sips:") {
        let r = copy_range(t, 5, t.len());
        assert(r@ =~= t@.skip(5));
        r
    } else {
        return None;
    };
    let at = vec!['@'];
    assert(at@ =~= seq!['@']);
    match find_seq(&rest, &at, 0) {
        Some(a) => {
            proof {
                lemma_find_from(rest@, seq!['@'], 0);
            }
            assert(occurs_at(rest@, seq!['@'], a as int));
            let u = copy_range(&rest, 0, a);
            assert(u@ =~= rest@.take(a as int));
            Some(u)
        },
        None => None,
    }
}

fn digit_exec(c: char) -> (r: Option<u16>)
    ensures
        r is Some <==> is_digit(c),
        r matches Some(d) ==> d == digit_value(c) && d < 10,
{
    if '0' <= c && c <= '9' {
        Some(((c as u32) - 48) as u16)
    } else {
        None
    }
}

fn parse_start_line_exec(l: &[u8]) -> (r: Option<StartLine>)
    ensures
        r matches Some(s) ==> parse_start_line(l@) == Some(s@),
        r is None ==> parse_start_line(l@) is None,
{
    let t = match utf8_text(l) {
        Some(t) => t,
        None => {
            return None;
        },
    };
    let space = vec![' '];
    assert(space@ =~= seq![' ']);
    let i = match find_seq(&t, &space, 0) {
        Some(i) => i,
        None => {
            return None;
        },
    };
    proof {
        lemma_find_from(t@, seq![' '], 0);
    }
    assert(occurs_at(t@, seq![' '], i as int));
    let tlen = t.len();
    let a = copy_range(&t, 0, i);
    assert(a@ =~= t@.take(i as int));
    let rest = copy_range(&t, i + 1, tlen);
    assert(rest@ =~= t@.skip(i + 1));
    let j = match find_seq(&rest, &space, 0) {
        Some(j) => j,
        None => {
            return None;
        },
    };
    proof {
        lemma_find_from(rest@, seq![' '], 0);
    }
    assert(occurs_at(rest@, seq![' '], j as int));
    let rlen = rest.len();
    let b = copy_range(&rest, 0, j);
    assert(b@ =~= rest@.take(j as int));
    let c = copy_range(&rest, j + 1, rlen);
    assert(c@ =~= rest@.skip(j + 1));
    if is(&a, "SIP/2.0") {
        if b.len() != 3 {
            return None;
        }
        match (digit_exec(b[0]), digit_exec(b[1]), digit_exec(b[2])) {
            (Some(d0), Some(d1), Some(d2)) => {
                let code: u16 = d0 * 100 + d1 * 10 + d2;
                Some(StartLine::Response(ResponseLine { status_code: code, reason_phrase: chars_to_string(&c) }))
            },
            _ => None,
        }
    } else if is(&c, "SIP/2.0") && a.len() > 0 && b.len() > 0 {
        let user = match uri_user_exec(&b) {
            Some(u) => Some(chars_to_string(&u)),
            None => None,
        };
        Some(StartLine::Request(RequestLine {
            method: method_from(&a),
            uri: SipUri { text: chars_to_string(&b), user },
        }))
    } else {
        None
    }
}

/// Reads a message from `bytes` (see `parse_message_bytes`).
pub fn parse_message(bytes: &[u8]) -> (r: Option<SipMessage>)
    ensures
        r matches Some(m) ==> parse_message_bytes(bytes@) == Some(m@),
        r is None ==> parse_message_bytes(bytes@) is None,
{
    let blank = vec![13u8, 10u8, 13u8, 10u8];
    assert(blank@ =~= blank_line());
    let h = match find_bytes(bytes, &blank, 0) {
        Some(h) => h,
        None => {
            return None;
        },
    };
    proof {
        lemma_find_from(bytes@, blank_line(), 0);
    }
    assert(occurs_at(bytes@, blank_line(), h as int));
    let blen = bytes.len();
    let head = copy_bytes(bytes, 0, h);
    assert(head@ =~= bytes@.take(h as int));
    let lines = head_lines(&head);
    let ghost lv = split_char(head@, 10u8).map_values(|l: Seq<u8>| strip_cr(l));
    proof {
        crate::text::lemma_split_char_nonempty(head@, 10u8);
    }
    assert(lines@.len() == lv.len());
    assert(lines@[0]@ == lv[0]);
    let start = match parse_start_line_exec(&lines[0]) {
        Some(s) => s,
        None => {
            return None;
        },
    };
    let mut headers: Vec<Header> = Vec::new();
    let mut i: usize = 1;
    assert(lv.skip(1).take(0) =~= Seq::<Seq<u8>>::empty());
    while i < lines.len()
        invariant
            1 <= i <= lines@.len(),
            lines@.len() == lv.len(),
            find_first(bytes@, blank_line()) == Some(h as int),
            head@ == bytes@.take(h as int),
            lv == split_char(head@, 10u8).map_values(|l: Seq<u8>| strip_cr(l)),
            byte_lines_view(lines@) == lv,
            parse_header_lines(lv.skip(1).take(i - 1)) == Some(headers_view(headers@)),
        decreases lines@.len() - i,
    {
        assert(lines@[i as int]@ == lv[i as int]);
        match parse_header_line_exec(&lines[i]) {
            Some(h) => {
                let ghost before = headers@;
                headers.push(h);
                assert(lv.skip(1).take(i as int).drop_last() =~= lv.skip(1).take(i - 1));
                assert(lv.skip(1).take(i as int).last() == lv[i as int]);
                assert(headers_view(headers@) =~= headers_view(before).push(h@));
            },
            None => {
                assert(lv.skip(1).take(i as int).drop_last() =~= lv.skip(1).take(i - 1));
                assert(lv.skip(1).take(i as int).last() == lv[i as int]);
                assert(parse_header_lines(lv.skip(1).take(i as int)) is None);
                proof {
                    lemma_header_lines_prefix_none(lv.skip(1), i as int);
                }
                assert(parse_header_lines(lv.skip(1)) is None);
                assert(find_first(bytes@, blank_line()) == Some(h as int));
                assert(split_char(bytes@.take(h as int), 10u8).map_values(|l: Seq<u8>| strip_cr(l)) == lv);
                return None;
            },
        }
        i = i + 1;
    }
    assert(lv.skip(1).take(i - 1) =~= lv.skip(1));
    let body = copy_bytes(bytes, h + 4, blen);
    assert(body@ =~= bytes@.skip(h + 4));
    Some(SipMessage { start_line: start, headers, body })
}

/// Once a prefix of the lines fails to parse, so do all the lines.
proof fn lemma_header_lines_prefix_none(lines: Seq<Seq<u8>>, k: int)
    requires
        0 <= k <= lines.len(),
        parse_header_lines(lines.take(k)) is None,
    ensures
        parse_header_lines(lines) is None,
    decreases lines.len() - k,
{
    if k < lines.len() {
        assert(lines.take(k + 1).drop_last() =~= lines.take(k));
        lemma_header_lines_prefix_none(lines, k + 1);
    } else {
        assert(lines.take(k) =~= lines);
    }
}

} // verus!
