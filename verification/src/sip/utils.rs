//! Reading the extension number out of a request.

use vstd::prelude::*;
use crate::clock::{system_now, since_epoch, duration_nanos};
use crate::text::{
    occurs_at,
    find_first, find_char, trim_start_char, utf8_lossy, find_seq, str_chars, copy_range,
    trim_start_char_exec, chars_to_string, lossy_text, lemma_find_from,
};
use crate::sip::message::{
    SipMessage, SipMessageView, StartLine, StartLineView, HeaderName, HeaderNameView,
    header_value, get_header, first_header, headers_view,
};

verus! {

pub open spec fn sip_scheme() -> Seq<char> {
    seq!['s', 'i', 'p', ':']
}

/// The user part of the first `sip:` URI in `input`: what stands between `sip:` and
/// the next `@`, without leading `"` and then leading `<`; none when that is empty.
pub open spec fn sip_user_in(input: Seq<char>) -> Option<Seq<char>> {
    match find_first(input, sip_scheme()) {
        Some(start) => {
            let rest = input.skip(start + 4);
            match find_char(rest, '@') {
                Some(at) => {
                    let clean = trim_start_char(trim_start_char(rest.take(at), '"'), '<');
                    if clean.len() > 0 {
                        Some(clean)
                    } else {
                        None
                    }
                },
                None => None,
            }
        },
        None => None,
    }
}

/// The user found in the value of header `name`, read as text.
pub open spec fn header_user(m: SipMessageView, name: HeaderNameView) -> Option<Seq<char>> {
    match header_value(m, name) {
        Some(v) => sip_user_in(utf8_lossy(v)),
        None => None,
    }
}

/// The extension a request is about: the Request-URI's user when it has a non-empty
/// one, else the user in `To`, else the user in `From`.
pub open spec fn extension_user(m: SipMessageView) -> Option<Seq<char>> {
    let from_uri = match m.start {
        StartLineView::Request { uri, .. } => match uri.user {
            Some(u) => if u.len() > 0 { Some(u) } else { None },
            None => None,
        },
        _ => None,
    };
    if from_uri is Some {
        from_uri
    } else if header_user(m, HeaderNameView::To) is Some {
        header_user(m, HeaderNameView::To)
    } else {
        header_user(m, HeaderNameView::From)
    }
}

/// `sip_user_in` over a character vector.
pub fn sip_user_in_chars(input: &[char]) -> (r: Option<Vec<char>>)
    ensures
        r matches Some(u) ==> sip_user_in(input@) == Some(u@),
        r is None ==> sip_user_in(input@) is None,
{
    let scheme = vec!['s', 'i', 'p', ':'];
    assert(scheme@ =~= sip_scheme());
    match find_seq(input, &scheme, 0) {
        Some(start) => {
            proof { lemma_find_from(input@, sip_scheme(), 0); }
            assert(occurs_at(input@, sip_scheme(), start as int));
            assert(sip_scheme().len() == 4);
            let ilen = input.len();
            let rest = copy_range(input, start + 4, ilen);
            assert(rest@ =~= input@.skip(start + 4));
            let at_sign = vec!['@'];
            assert(at_sign@ =~= seq!['@']);
            match find_seq(&rest, &at_sign, 0) {
                Some(at) => {
                    proof { lemma_find_from(rest@, seq!['@'], 0); }
                    let user = copy_range(&rest, 0, at);
                    assert(user@ =~= rest@.take(at as int));
                    let no_quote = trim_start_char_exec(&user, '"');
                    let clean = trim_start_char_exec(&no_quote, '<');
                    if clean.len() > 0 {
                        Some(clean)
                    } else {
                        None
                    }
                },
                None => None,
            }
        },
        None => None,
    }
}

/// The user part of the first `sip:` URI in `input` (see `sip_user_in`).
pub fn extract_user_from_sip_str(input: &str) -> (r: Option<String>)
    ensures
        r matches Some(u) ==> sip_user_in(input@) == Some(u@),
        r is None ==> sip_user_in(input@) is None,
{
    let chars = str_chars(input);
    match sip_user_in_chars(&chars) {
        Some(u) => Some(chars_to_string(&u)),
        None => None,
    }
}

fn header_user_exec(msg: &SipMessage, name: HeaderName) -> (r: Option<Vec<char>>)
    ensures
        r matches Some(u) ==> header_user(msg@, name@) == Some(u@),
        r is None ==> header_user(msg@, name@) is None,
{
    match get_header(&msg.headers, &name) {
        Some(h) => {
            let text = lossy_text(h.raw_value.as_slice());
            sip_user_in_chars(&text)
        },
        None => None,
    }
}

/// The extension a request is about (see `extension_user`).
pub fn extract_extension_user(msg: &SipMessage) -> (r: Option<String>)
    ensures
        r matches Some(u) ==> extension_user(msg@) == Some(u@),
        r is None ==> extension_user(msg@) is None,
{
    if let StartLine::Request(req) = &msg.start_line {
        if let Some(user) = &req.uri.user {
            if user.as_str().unicode_len() > 0 {
                return Some(user.clone());
            }
        }
    }
    match header_user_exec(msg, HeaderName::To) {
        Some(u) => {
            return Some(chars_to_string(&u));
        },
        None => {},
    }
    match header_user_exec(msg, HeaderName::From) {
        Some(u) => Some(chars_to_string(&u)),
        None => None,
    }
}

/// Nanoseconds since the Unix epoch on the system clock; none when the clock is set
/// before the epoch. Nothing is known of the value: it is the time.
fn nanos_since_epoch() -> Option<u128> {
    match since_epoch(&system_now()) {
        Some(d) => Some(duration_nanos(&d)),
        None => None,
    }
}

/// The stamp made of a clock reading: the nanoseconds read, or 0 when there are none.
pub fn stamp_from_reading(reading: Option<u128>) -> (r: u128)
    ensures
        r == match reading {
            Some(n) => n,
            None => 0,
        },
{
    match reading {
        Some(n) => n,
        None => 0,
    }
}

/// A number taken from the clock, used to make identifiers and nonces: the
/// nanoseconds since the Unix epoch, or 0 if the clock is set before it. The
/// reading itself is the time, of which nothing is known; what is made of it is
/// `stamp_from_reading`.
pub fn uuid_simple() -> u128 {
    stamp_from_reading(nanos_since_epoch())
}

} // verus!
