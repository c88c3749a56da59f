//! The SIP message model that the handlers read and build.

use vstd::prelude::*;

verus! {

/// A request method.
#[derive(Debug, Clone)]
pub enum Method {
    Invite,
    Ack,
    Bye,
    Cancel,
    Register,
    Options,
    Other(String),
}

pub enum MethodView {
    Invite,
    Ack,
    Bye,
    Cancel,
    Register,
    Options,
    Other(Seq<char>),
}

impl View for Method {
    type V = MethodView;

    open spec fn view(&self) -> MethodView {
        match self {
            Method::Invite => MethodView::Invite,
            Method::Ack => MethodView::Ack,
            Method::Bye => MethodView::Bye,
            Method::Cancel => MethodView::Cancel,
            Method::Register => MethodView::Register,
            Method::Options => MethodView::Options,
            Method::Other(s) => MethodView::Other(s@),
        }
    }
}

/// A header name; the ones the engine reads or writes have a variant of their own.
#[derive(Debug, Clone)]
pub enum HeaderName {
    Via,
    From,
    To,
    CallId,
    CSeq,
    Contact,
    Authorization,
    WwwAuthenticate,
    UserAgent,
    Allow,
    Accept,
    ContentLength,
    ContentType,
    Expires,
    Other(String),
}

pub enum HeaderNameView {
    Via,
    From,
    To,
    CallId,
    CSeq,
    Contact,
    Authorization,
    WwwAuthenticate,
    UserAgent,
    Allow,
    Accept,
    ContentLength,
    ContentType,
    Expires,
    Other(Seq<char>),
}

impl View for HeaderName {
    type V = HeaderNameView;

    open spec fn view(&self) -> HeaderNameView {
        match self {
            HeaderName::Via => HeaderNameView::Via,
            HeaderName::From => HeaderNameView::From,
            HeaderName::To => HeaderNameView::To,
            HeaderName::CallId => HeaderNameView::CallId,
            HeaderName::CSeq => HeaderNameView::CSeq,
            HeaderName::Contact => HeaderNameView::Contact,
            HeaderName::Authorization => HeaderNameView::Authorization,
            HeaderName::WwwAuthenticate => HeaderNameView::WwwAuthenticate,
            HeaderName::UserAgent => HeaderNameView::UserAgent,
            HeaderName::Allow => HeaderNameView::Allow,
            HeaderName::Accept => HeaderNameView::Accept,
            HeaderName::ContentLength => HeaderNameView::ContentLength,
            HeaderName::ContentType => HeaderNameView::ContentType,
            HeaderName::Expires => HeaderNameView::Expires,
            HeaderName::Other(s) => HeaderNameView::Other(s@),
        }
    }
}

impl HeaderName {
    /// Whether two names are the same header.
    pub fn same_as(&self, other: &HeaderName) -> (r: bool)
        ensures
            r == (self@ == other@),
    {
        match (self, other) {
            (HeaderName::Via, HeaderName::Via) => true,
            (HeaderName::From, HeaderName::From) => true,
            (HeaderName::To, HeaderName::To) => true,
            (HeaderName::CallId, HeaderName::CallId) => true,
            (HeaderName::CSeq, HeaderName::CSeq) => true,
            (HeaderName::Contact, HeaderName::Contact) => true,
            (HeaderName::Authorization, HeaderName::Authorization) => true,
            (HeaderName::WwwAuthenticate, HeaderName::WwwAuthenticate) => true,
            (HeaderName::UserAgent, HeaderName::UserAgent) => true,
            (HeaderName::Allow, HeaderName::Allow) => true,
            (HeaderName::Accept, HeaderName::Accept) => true,
            (HeaderName::ContentLength, HeaderName::ContentLength) => true,
            (HeaderName::ContentType, HeaderName::ContentType) => true,
            (HeaderName::Expires, HeaderName::Expires) => true,
            (HeaderName::Other(a), HeaderName::Other(b)) => a.eq(b),
            _ => false,
        }
    }

    /// A copy of this name.
    pub fn copied(&self) -> (r: HeaderName)
        ensures
            r@ == self@,
    {
        match self {
            HeaderName::Via => HeaderName::Via,
            HeaderName::From => HeaderName::From,
            HeaderName::To => HeaderName::To,
            HeaderName::CallId => HeaderName::CallId,
            HeaderName::CSeq => HeaderName::CSeq,
            HeaderName::Contact => HeaderName::Contact,
            HeaderName::Authorization => HeaderName::Authorization,
            HeaderName::WwwAuthenticate => HeaderName::WwwAuthenticate,
            HeaderName::UserAgent => HeaderName::UserAgent,
            HeaderName::Allow => HeaderName::Allow,
            HeaderName::Accept => HeaderName::Accept,
            HeaderName::ContentLength => HeaderName::ContentLength,
            HeaderName::ContentType => HeaderName::ContentType,
            HeaderName::Expires => HeaderName::Expires,
            HeaderName::Other(s) => HeaderName::Other(s.clone()),
        }
    }
}

/// One header line: its name and its value as received.
#[derive(Debug, Clone)]
pub struct Header {
    pub name: HeaderName,
    pub raw_value: Vec<u8>,
}

pub struct HeaderView {
    pub name: HeaderNameView,
    pub value: Seq<u8>,
}

impl View for Header {
    type V = HeaderView;

    open spec fn view(&self) -> HeaderView {
        HeaderView { name: self.name@, value: self.raw_value@ }
    }
}

impl Header {
    pub fn new(name: HeaderName, raw_value: Vec<u8>) -> (h: Header)
        ensures
            h@ == (HeaderView { name: name@, value: raw_value@ }),
    {
        Header { name, raw_value }
    }

    /// A copy of this header.
    pub fn copied(&self) -> (r: Header)
        ensures
            r@ == self@,
    {
        Header { name: self.name.copied(), raw_value: vstd::slice::slice_to_vec(self.raw_value.as_slice()) }
    }
}

/// A SIP URI: its text, and the user part when it has one.
#[derive(Debug, Clone)]
pub struct SipUri {
    pub text: String,
    pub user: Option<String>,
}

pub struct SipUriView {
    pub text: Seq<char>,
    pub user: Option<Seq<char>>,
}

pub open spec fn opt_string_view(o: Option<String>) -> Option<Seq<char>> {
    match o {
        Some(s) => Some(s@),
        None => None,
    }
}

impl View for SipUri {
    type V = SipUriView;

    open spec fn view(&self) -> SipUriView {
        SipUriView { text: self.text@, user: opt_string_view(self.user) }
    }
}

#[derive(Debug, Clone)]
pub struct RequestLine {
    pub method: Method,
    pub uri: SipUri,
}

#[derive(Debug, Clone)]
pub struct ResponseLine {
    pub status_code: u16,
    pub reason_phrase: String,
}

/// The first line of a message (the protocol version is always `SIP/2.0`).
#[derive(Debug, Clone)]
pub enum StartLine {
    Request(RequestLine),
    Response(ResponseLine),
}

pub enum StartLineView {
    Request { method: MethodView, uri: SipUriView },
    Response { code: u16, reason: Seq<char> },
}

impl View for StartLine {
    type V = StartLineView;

    open spec fn view(&self) -> StartLineView {
        match self {
            StartLine::Request(r) => StartLineView::Request { method: r.method@, uri: r.uri@ },
            StartLine::Response(r) => StartLineView::Response {
                code: r.status_code,
                reason: r.reason_phrase@,
            },
        }
    }
}

#[derive(Debug, Clone)]
pub struct SipMessage {
    pub start_line: StartLine,
    pub headers: Vec<Header>,
    pub body: Vec<u8>,
}

pub struct SipMessageView {
    pub start: StartLineView,
    pub headers: Seq<HeaderView>,
    pub body: Seq<u8>,
}

pub open spec fn headers_view(hs: Seq<Header>) -> Seq<HeaderView> {
    hs.map_values(|h: Header| h@)
}

impl View for SipMessage {
    type V = SipMessageView;

    open spec fn view(&self) -> SipMessageView {
        SipMessageView {
            start: self.start_line@,
            headers: headers_view(self.headers@),
            body: self.body@,
        }
    }
}

/// The first header called `name` (what a header lookup gives).
pub open spec fn first_header(hs: Seq<HeaderView>, name: HeaderNameView) -> Option<HeaderView>
    decreases hs.len(),
{
    if hs.len() == 0 {
        None
    } else if hs[0].name == name {
        Some(hs[0])
    } else {
        first_header(hs.drop_first(), name)
    }
}

/// The value of the first header called `name`.
pub open spec fn header_value(m: SipMessageView, name: HeaderNameView) -> Option<Seq<u8>> {
    match first_header(m.headers, name) {
        Some(h) => Some(h.value),
        None => None,
    }
}

proof fn lemma_first_header_step(hs: Seq<HeaderView>, name: HeaderNameView, i: int)
    requires
        0 <= i < hs.len(),
        first_header(hs, name) == first_header(hs.skip(i), name),
    ensures
        hs[i].name == name ==> first_header(hs, name) == Some(hs[i]),
        hs[i].name != name ==> first_header(hs, name) == first_header(hs.skip(i + 1), name),
{
    assert(hs.skip(i).drop_first() =~= hs.skip(i + 1));
    assert(hs.skip(i)[0] == hs[i]);
}

/// Looks up the first header called `name`.
pub fn get_header<'a>(headers: &'a Vec<Header>, name: &HeaderName) -> (r: Option<&'a Header>)
    ensures
        r matches Some(h) ==> first_header(headers_view(headers@), name@) == Some(h@),
        r is None ==> first_header(headers_view(headers@), name@) is None,
{
    let ghost hv = headers_view(headers@);
    let mut i: usize = 0;
    assert(hv.skip(0) =~= hv);
    while i < headers.len()
        invariant
            hv == headers_view(headers@),
            hv.len() == headers@.len(),
            i <= headers@.len(),
            first_header(hv, name@) == first_header(hv.skip(i as int), name@),
        decreases headers@.len() - i,
    {
        proof {
            lemma_first_header_step(hv, name@, i as int);
        }
        if headers[i].name.same_as(name) {
            return Some(&headers[i]);
        }
        i = i + 1;
    }
    assert(hv.skip(i as int).len() == 0);
    None
}

/// The address a request came from, as text: the IP address, the port, and the
/// whole socket address.
pub struct SourceAddr {
    pub ip: String,
    pub port: u16,
    pub text: String,
}

} // verus!
