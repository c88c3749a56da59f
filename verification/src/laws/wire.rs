//! Reading back the bytes of a message.

use vstd::prelude::*;
use vstd::utf8::*;
use crate::sip::message::{SipMessageView, StartLineView, HeaderView, HeaderNameView, MethodView, SipUriView};
use crate::sip::wire::{
    message_bytes, start_line_bytes, headers_bytes, header_line_bytes, crlf, version_bytes, method_text,
    header_name_text, parse_message_bytes, parse_start_line, parse_header_lines, parse_header_line, strip_cr,
    trim_start_ows, trim_end_ows, is_ows, is_ascii_bytes, ascii_chars, header_name_of, method_of, uri_user,
    lower, lower_seq,
    version_text, is_digit, digit_value, blank_line,
};
use crate::text::{
    split_char, find_first, find_from, occurs_at, decimal, digit_char, lemma_split_join, lemma_split_none,
};

verus! {

proof fn lemma_encode_concat(a: Seq<char>, b: Seq<char>)
    ensures
        encode_utf8(a + b) == encode_utf8(a) + encode_utf8(b),
    decreases a.len(),
{
    if a.len() == 0 {
        assert(a + b =~= b);
        assert(encode_utf8(a) =~= Seq::<u8>::empty());
        assert(encode_utf8(a) + encode_utf8(b) =~= encode_utf8(b));
    } else {
        assert((a + b)[0] == a[0]);
        assert((a + b).drop_first() =~= a.drop_first() + b);
        lemma_encode_concat(a.drop_first(), b);
        assert(encode_scalar(a[0] as u32) + (encode_utf8(a.drop_first()) + encode_utf8(b)) =~= (
        encode_scalar(a[0] as u32) + encode_utf8(a.drop_first())) + encode_utf8(b));
    }
}

/// The bytes of one character: itself when it is ASCII, bytes of 0x80 or more otherwise.
proof fn lemma_scalar_bytes(c: char)
    ensures
        (c as u32) < 0x80 ==> encode_scalar(c as u32) == seq![c as u8],
        (c as u32) >= 0x80 ==> forall|i: int|
            0 <= i < encode_scalar(c as u32).len() ==> #[trigger] encode_scalar(c as u32)[i] >= 0x80,
{
    let v = c as u32;
    char_is_scalar(c);
    if v < 0x80 {
        assert(((v & 0x7F) as u8) == v as u8) by (bit_vector)
            requires
                v < 0x80,
        ;
        assert(v as u8 == c as u8);
    } else {
        assert(0xC0u8 | ((v >> 6) & 0x1F) as u8 >= 0x80) by (bit_vector);
        assert(0xE0u8 | ((v >> 12) & 0x0F) as u8 >= 0x80) by (bit_vector);
        assert(0xF0u8 | ((v >> 18) & 0x7) as u8 >= 0x80) by (bit_vector);
        assert(0x80u8 | (v & 0x3F) as u8 >= 0x80) by (bit_vector);
        assert(0x80u8 | ((v >> 6) & 0x3F) as u8 >= 0x80) by (bit_vector);
        assert(0x80u8 | ((v >> 12) & 0x3F) as u8 >= 0x80) by (bit_vector);
    }
}

proof fn lemma_ascii_bytes_differ(c: char, d: char)
    requires
        (c as u32) < 0x80,
        (d as u32) < 0x80,
        c != d,
    ensures
        c as u8 != d as u8,
{
    let a = c as u32;
    let b = d as u32;
    char_u32_cast(c, a);
    char_u32_cast(d, b);
    assert(a != b);
    assert((a as u8) != (b as u8)) by (bit_vector)
        requires
            a < 0x80,
            b < 0x80,
            a != b,
    ;
    assert(a as u8 == c as u8);
    assert(b as u8 == d as u8);
}

proof fn lemma_ascii_byte_char(c: char)
    requires
        (c as u32) < 0x80,
    ensures
        (c as u8) as char == c,
        (c as u8) as u32 == c as u32,
{
    let a = c as u32;
    char_u32_cast(c, a);
    assert((a as u8) as u32 == a) by (bit_vector)
        requires
            a < 0x80,
    ;
    assert(a as u8 == c as u8);
    let x = c as u8;
    assert(((x as u32) as char) == (x as char));
}

/// An ASCII character that a text lacks is a byte its encoding lacks.
proof fn lemma_encode_lacks(s: Seq<char>, c: char)
    requires
        (c as u32) < 0x80,
        !s.contains(c),
    ensures
        !encode_utf8(s).contains(c as u8),
    decreases s.len(),
{
    if s.len() > 0 {
        assert(!s.drop_first().contains(c)) by {
            if s.drop_first().contains(c) {
                let i = choose|i: int| 0 <= i < s.drop_first().len() && s.drop_first()[i] == c;
                assert(s[i + 1] == c);
            }
        }
        lemma_encode_lacks(s.drop_first(), c);
        assert(s[0] != c);
        lemma_scalar_bytes(s[0]);
        let e = encode_scalar(s[0] as u32);
        let r = encode_utf8(s.drop_first());
        assert(encode_utf8(s) == e + r);
        if (e + r).contains(c as u8) {
            let i = choose|i: int| 0 <= i < (e + r).len() && (e + r)[i] == c as u8;
            if i < e.len() {
                assert((e + r)[i] == e[i]);
                if (s[0] as u32) < 0x80 {
                    assert(e[i] == s[0] as u8);
                    lemma_ascii_bytes_differ(s[0], c);
                    assert(false);
                } else {
                    assert(e[i] >= 0x80);
                    assert(false);
                }
            } else {
                assert((e + r)[i] == r[i - e.len()]);
                assert(r.contains(c as u8));
                assert(false);
            }
        }
    }
}

/// The encoding of ASCII text is its characters as bytes.
proof fn lemma_encode_ascii(s: Seq<char>)
    requires
        forall|i: int| 0 <= i < s.len() ==> (s[i] as u32) < 0x80,
    ensures
        encode_utf8(s) == s.map_values(|c: char| c as u8),
        is_ascii_bytes(encode_utf8(s)),
        ascii_chars(encode_utf8(s)) == s,
    decreases s.len(),
{
    if s.len() > 0 {
        assert forall|i: int| 0 <= i < s.drop_first().len() implies (s.drop_first()[i] as u32) < 0x80 by {
            assert(s.drop_first()[i] == s[i + 1]);
        }
        lemma_encode_ascii(s.drop_first());
        lemma_scalar_bytes(s[0]);
        assert((s[0] as u32) < 0x80);
        assert(encode_utf8(s) =~= s.map_values(|c: char| c as u8));
    } else {
        assert(encode_utf8(s) =~= s.map_values(|c: char| c as u8));
    }
    assert forall|i: int| 0 <= i < s.len() implies ((s[i] as u8) as char) == s[i] by {
        lemma_ascii_byte_char(s[i]);
    }
    assert(ascii_chars(encode_utf8(s)) =~= s);
}

// ---------------------------------------------------------------------------
// The lines of a message.
// ---------------------------------------------------------------------------

/// The start line without its line end.
pub open spec fn start_text(s: StartLineView) -> Seq<u8> {
    match s {
        StartLineView::Request { method, uri } => encode_utf8(method_text(method)) + seq![32u8]
            + encode_utf8(uri.text) + seq![32u8] + version_bytes(),
        StartLineView::Response { code, reason } => version_bytes() + seq![32u8] + encode_utf8(
            decimal(code as nat),
        ) + seq![32u8] + encode_utf8(reason),
    }
}

/// A header line without its line end.
pub open spec fn header_text(h: HeaderView) -> Seq<u8> {
    encode_utf8(header_name_text(h.name)) + seq![58u8, 32u8] + h.value
}

/// The lines before the empty line, joined by line ends.
pub open spec fn head_bytes(start: Seq<u8>, hs: Seq<HeaderView>) -> Seq<u8>
    decreases hs.len(),
{
    if hs.len() == 0 {
        start
    } else {
        head_bytes(start, hs.drop_last()) + crlf() + header_text(hs.last())
    }
}

proof fn lemma_head_layout(st: Seq<u8>, hs: Seq<HeaderView>)
    ensures
        st + crlf() + headers_bytes(hs) == head_bytes(st, hs) + crlf(),
    decreases hs.len(),
{
    if hs.len() == 0 {
        assert(headers_bytes(hs) =~= Seq::<u8>::empty());
        assert(st + crlf() + headers_bytes(hs) =~= st + crlf());
    } else {
        lemma_head_layout(st, hs.drop_last());
        let h = hs.last();
        assert(header_line_bytes(h) =~= header_text(h) + crlf());
        assert(st + crlf() + headers_bytes(hs) =~= (st + crlf() + headers_bytes(hs.drop_last()))
            + header_line_bytes(h));
        assert(head_bytes(st, hs.drop_last()) + crlf() + (header_text(h) + crlf()) =~= head_bytes(
            st,
            hs.drop_last(),
        ) + crlf() + header_text(h) + crlf());
    }
}

proof fn lemma_message_layout(m: SipMessageView)
    ensures
        message_bytes(m) == head_bytes(start_text(m.start), m.headers) + blank_line() + m.body,
{
    let st = start_text(m.start);
    match m.start {
        StartLineView::Request { method, uri } => {
            assert(start_line_bytes(m.start) =~= st + crlf());
        },
        StartLineView::Response { code, reason } => {
            assert(start_line_bytes(m.start) =~= st + crlf());
        },
    }
    lemma_head_layout(st, m.headers);
    let h = head_bytes(st, m.headers);
    assert(message_bytes(m) =~= (st + crlf() + headers_bytes(m.headers)) + crlf() + m.body);
    assert((h + crlf()) + crlf() + m.body =~= h + blank_line() + m.body);
}

/// No empty line lies inside `h`.
pub open spec fn no_blank_inside(h: Seq<u8>) -> bool {
    forall|j: int| 0 <= j && j + 4 <= h.len() ==> !occurs_at(h, blank_line(), j)
}

proof fn lemma_blank_bytes(b: Seq<u8>, j: int)
    requires
        occurs_at(b, blank_line(), j),
    ensures
        b[j] == 13u8,
        b[j + 1] == 10u8,
        b[j + 2] == 13u8,
        b[j + 3] == 10u8,
{
    let w = b.subrange(j, j + 4);
    assert(w == blank_line());
    assert(w[0] == b[j]);
    assert(w[1] == b[j + 1]);
    assert(w[2] == b[j + 2]);
    assert(w[3] == b[j + 3]);
}

proof fn lemma_find_at<T>(s: Seq<T>, p: Seq<T>, n: int, i: int)
    requires
        0 <= i <= n,
        occurs_at(s, p, n),
        forall|j: int| i <= j < n ==> !occurs_at(s, p, j),
    ensures
        find_from(s, p, i) == Some(n),
    decreases n - i,
{
    if i < n {
        lemma_find_at(s, p, n, i + 1);
    }
}

/// The first empty line of `h`, a line end, an empty line and `rest` is the one
/// after `h`.
proof fn lemma_first_blank(h: Seq<u8>, rest: Seq<u8>)
    requires
        no_blank_inside(h),
        h.len() >= 1,
        h.last() != 10u8,
    ensures
        find_first(h + blank_line() + rest, blank_line()) == Some(h.len() as int),
{
    let b = h + blank_line() + rest;
    let n = h.len() as int;
    assert(b.subrange(n, n + 4) =~= blank_line());
    assert forall|j: int| 0 <= j < n implies !occurs_at(b, blank_line(), j) by {
        if occurs_at(b, blank_line(), j) {
            lemma_blank_bytes(b, j);
            if j + 4 <= n {
                assert(h.subrange(j, j + 4) =~= b.subrange(j, j + 4));
                assert(occurs_at(h, blank_line(), j));
            } else if j == n - 1 {
                assert(b[j + 1] == 13u8);
            } else if j == n - 2 {
                assert(b[j + 1] == h[n - 1]);
                assert(h[n - 1] == h.last());
            } else {
                assert(j == n - 3);
                assert(b[j + 3] == 13u8);
            }
        }
    }
    lemma_find_at(b, blank_line(), n, 0);
}

/// A head without line feeds in its lines has no empty line inside.
proof fn lemma_head_no_blank(st: Seq<u8>, hs: Seq<HeaderView>)
    requires
        st.len() >= 1,
        !st.contains(10u8),
        forall|i: int| 0 <= i < hs.len() ==> !(#[trigger] header_text(hs[i])).contains(10u8),
    ensures
        no_blank_inside(head_bytes(st, hs)),
        head_bytes(st, hs).len() >= 1,
        head_bytes(st, hs).last() != 10u8,
    decreases hs.len(),
{
    let h = head_bytes(st, hs);
    if hs.len() == 0 {
        assert forall|j: int| 0 <= j && j + 4 <= h.len() implies !occurs_at(h, blank_line(), j) by {
            if occurs_at(h, blank_line(), j) {
                lemma_blank_bytes(h, j);
                assert(st.contains(10u8));
            }
        }
        assert(st.last() == st[st.len() - 1]);
        if st.last() == 10u8 {
            assert(st.contains(10u8));
        }
    } else {
        let prev = hs.drop_last();
        assert forall|i: int| 0 <= i < prev.len() implies !(#[trigger] header_text(prev[i])).contains(10u8) by {
            assert(prev[i] == hs[i]);
        }
        lemma_head_no_blank(st, prev);
        let g = head_bytes(st, prev);
        let t = header_text(hs.last());
        assert(hs.last() == hs[hs.len() - 1]);
        assert(!t.contains(10u8));
        assert(t.len() >= 2);
        assert(h == g + crlf() + t);
        let n = g.len() as int;
        assert forall|j: int| 0 <= j && j + 4 <= h.len() implies !occurs_at(h, blank_line(), j) by {
            if occurs_at(h, blank_line(), j) {
                lemma_blank_bytes(h, j);
                if j + 4 <= n {
                    assert(g.subrange(j, j + 4) =~= h.subrange(j, j + 4));
                    assert(occurs_at(g, blank_line(), j));
                } else if j + 1 < n {
                    // The second line feed would be the one after `g`.
                    assert(j + 3 == n + 1);
                    assert(h[j + 1] == g[n - 1]);
                    assert(g.last() == g[n - 1]);
                } else if j + 1 == n {
                    assert(h[n] == 13u8);
                } else if j + 1 == n + 1 {
                    assert(h[j + 3] == t[1]);
                    assert(t.contains(10u8));
                } else {
                    assert(h[j + 1] == t[j + 1 - n - 2]);
                    assert(t.contains(10u8));
                }
            }
        }
        assert(h.last() == t.last());
        assert(t.last() == t[t.len() - 1]);
        if t.last() == 10u8 {
            assert(t.contains(10u8));
        }
    }
}

/// Each line but the last with the carriage return that ends it.
pub open spec fn with_cr(ls: Seq<Seq<u8>>) -> Seq<Seq<u8>> {
    Seq::new(ls.len(), |i: int| if i + 1 < ls.len() { ls[i].push(13u8) } else { ls[i] })
}

pub open spec fn head_lines(st: Seq<u8>, hs: Seq<HeaderView>) -> Seq<Seq<u8>> {
    seq![st] + hs.map_values(|h: HeaderView| header_text(h))
}

/// The head splits at line feeds into its lines, each but the last still ending
/// in a carriage return.
proof fn lemma_head_split(st: Seq<u8>, hs: Seq<HeaderView>)
    requires
        !st.contains(10u8),
        forall|i: int| 0 <= i < hs.len() ==> !(#[trigger] header_text(hs[i])).contains(10u8),
    ensures
        split_char(head_bytes(st, hs), 10u8) == with_cr(head_lines(st, hs)),
    decreases hs.len(),
{
    if hs.len() == 0 {
        lemma_split_none(st, 10u8);
        assert(with_cr(head_lines(st, hs)) =~= seq![st]);
    } else {
        let prev = hs.drop_last();
        assert forall|i: int| 0 <= i < prev.len() implies !(#[trigger] header_text(prev[i])).contains(10u8) by {
            assert(prev[i] == hs[i]);
        }
        lemma_head_split(st, prev);
        let g = head_bytes(st, prev);
        let t = header_text(hs.last());
        assert(hs.last() == hs[hs.len() - 1]);
        assert(head_bytes(st, hs) =~= g.push(13u8) + seq![10u8] + t);
        lemma_split_join(g.push(13u8), t, 10u8);
        lemma_split_none(t, 10u8);
        assert(g.push(13u8).drop_last() =~= g);
        let pl = with_cr(head_lines(st, prev));
        assert(split_char(g.push(13u8), 10u8) == pl.update(pl.len() - 1, pl.last().push(13u8)));
        assert(head_lines(st, hs) =~= head_lines(st, prev).push(t));
        assert(pl.update(pl.len() - 1, pl.last().push(13u8)) + seq![t] =~= with_cr(head_lines(st, hs)));
    }
}

/// Without their final carriage returns, the pieces are the lines, when the last
/// line does not itself end in one.
proof fn lemma_strip_lines(ls: Seq<Seq<u8>>)
    requires
        ls.len() >= 1,
        ls.last().len() == 0 || ls.last().last() != 13u8,
    ensures
        with_cr(ls).map_values(|l: Seq<u8>| strip_cr(l)) == ls,
{
    let w = with_cr(ls);
    assert forall|i: int| 0 <= i < ls.len() implies strip_cr(#[trigger] w[i]) == ls[i] by {
        if i + 1 < ls.len() {
            assert(ls[i].push(13u8).drop_last() =~= ls[i]);
        } else {
            assert(ls[i] == ls.last());
        }
    }
    assert(w.map_values(|l: Seq<u8>| strip_cr(l)) =~= ls);
}

// ---------------------------------------------------------------------------
// Header lines.
// ---------------------------------------------------------------------------

pub open spec fn is_ascii_text(t: Seq<char>) -> bool {
    forall|i: int| 0 <= i < t.len() ==> (t[i] as u32) < 0x80
}

/// The text of a header name reads back as the name: it is ASCII, non-empty,
/// without `:` or line feed, without a space or tab at either end, and names the
/// same header.
pub open spec fn name_text_reads_back(name: HeaderNameView) -> bool {
    let n = header_name_text(name);
    &&& n.len() > 0
    &&& is_ascii_text(n)
    &&& !n.contains(':')
    &&& !n.contains('\n')
    &&& n[0] != ' ' && n[0] != '\t'
    &&& n.last() != ' ' && n.last() != '\t'
    &&& header_name_of(n) == name
}

/// A header name that reads back as itself: every name the library knows does; a
/// name of its own must satisfy `name_text_reads_back`.
pub open spec fn name_reads_back(name: HeaderNameView) -> bool {
    name is Other ==> name_text_reads_back(name)
}

proof fn lemma_name_via()
    ensures
        header_name_of("Via"@) == HeaderNameView::Via,
{
    reveal_strlit("via");
    reveal_strlit("v");
    reveal_strlit("from");
    reveal_strlit("f");
    reveal_strlit("to");
    reveal_strlit("t");
    reveal_strlit("call-id");
    reveal_strlit("i");
    reveal_strlit("cseq");
    reveal_strlit("contact");
    reveal_strlit("m");
    reveal_strlit("authorization");
    reveal_strlit("www-authenticate");
    reveal_strlit("user-agent");
    reveal_strlit("allow");
    reveal_strlit("accept");
    reveal_strlit("content-length");
    reveal_strlit("l");
    reveal_strlit("content-type");
    reveal_strlit("c");
    reveal_strlit("expires");
    reveal_strlit("Via");
    assert(lower_seq("Via"@) =~= "via"@);
}

proof fn lemma_name_from()
    ensures
        header_name_of("From"@) == HeaderNameView::From,
{
    reveal_strlit("via");
    reveal_strlit("v");
    reveal_strlit("from");
    reveal_strlit("f");
    reveal_strlit("to");
    reveal_strlit("t");
    reveal_strlit("call-id");
    reveal_strlit("i");
    reveal_strlit("cseq");
    reveal_strlit("contact");
    reveal_strlit("m");
    reveal_strlit("authorization");
    reveal_strlit("www-authenticate");
    reveal_strlit("user-agent");
    reveal_strlit("allow");
    reveal_strlit("accept");
    reveal_strlit("content-length");
    reveal_strlit("l");
    reveal_strlit("content-type");
    reveal_strlit("c");
    reveal_strlit("expires");
    reveal_strlit("From");
    assert(lower_seq("From"@) =~= "from"@);
}

proof fn lemma_name_to()
    ensures
        header_name_of("To"@) == HeaderNameView::To,
{
    reveal_strlit("via");
    reveal_strlit("v");
    reveal_strlit("from");
    reveal_strlit("f");
    reveal_strlit("to");
    reveal_strlit("t");
    reveal_strlit("call-id");
    reveal_strlit("i");
    reveal_strlit("cseq");
    reveal_strlit("contact");
    reveal_strlit("m");
    reveal_strlit("authorization");
    reveal_strlit("www-authenticate");
    reveal_strlit("user-agent");
    reveal_strlit("allow");
    reveal_strlit("accept");
    reveal_strlit("content-length");
    reveal_strlit("l");
    reveal_strlit("content-type");
    reveal_strlit("c");
    reveal_strlit("expires");
    reveal_strlit("To");
    assert(lower_seq("To"@) =~= "to"@);
}

proof fn lemma_name_call_id()
    ensures
        header_name_of("Call-ID"@) == HeaderNameView::CallId,
{
    reveal_strlit("via");
    reveal_strlit("v");
    reveal_strlit("from");
    reveal_strlit("f");
    reveal_strlit("to");
    reveal_strlit("t");
    reveal_strlit("call-id");
    reveal_strlit("i");
    reveal_strlit("cseq");
    reveal_strlit("contact");
    reveal_strlit("m");
    reveal_strlit("authorization");
    reveal_strlit("www-authenticate");
    reveal_strlit("user-agent");
    reveal_strlit("allow");
    reveal_strlit("accept");
    reveal_strlit("content-length");
    reveal_strlit("l");
    reveal_strlit("content-type");
    reveal_strlit("c");
    reveal_strlit("expires");
    reveal_strlit("Call-ID");
    assert(lower_seq("Call-ID"@) =~= "call-id"@);
}

proof fn lemma_name_cseq()
    ensures
        header_name_of("CSeq"@) == HeaderNameView::CSeq,
{
    reveal_strlit("via");
    reveal_strlit("v");
    reveal_strlit("from");
    reveal_strlit("f");
    reveal_strlit("to");
    reveal_strlit("t");
    reveal_strlit("call-id");
    reveal_strlit("i");
    reveal_strlit("cseq");
    reveal_strlit("contact");
    reveal_strlit("m");
    reveal_strlit("authorization");
    reveal_strlit("www-authenticate");
    reveal_strlit("user-agent");
    reveal_strlit("allow");
    reveal_strlit("accept");
    reveal_strlit("content-length");
    reveal_strlit("l");
    reveal_strlit("content-type");
    reveal_strlit("c");
    reveal_strlit("expires");
    reveal_strlit("CSeq");
    assert(lower_seq("CSeq"@) =~= "cseq"@);
    assert("cseq"@ != "from"@) by {
        assert("cseq"@[0] != "from"@[0]);
    }
}

proof fn lemma_name_contact()
    ensures
        header_name_of("Contact"@) == HeaderNameView::Contact,
{
    reveal_strlit("via");
    reveal_strlit("v");
    reveal_strlit("from");
    reveal_strlit("f");
    reveal_strlit("to");
    reveal_strlit("t");
    reveal_strlit("call-id");
    reveal_strlit("i");
    reveal_strlit("cseq");
    reveal_strlit("contact");
    reveal_strlit("m");
    reveal_strlit("authorization");
    reveal_strlit("www-authenticate");
    reveal_strlit("user-agent");
    reveal_strlit("allow");
    reveal_strlit("accept");
    reveal_strlit("content-length");
    reveal_strlit("l");
    reveal_strlit("content-type");
    reveal_strlit("c");
    reveal_strlit("expires");
    reveal_strlit("Contact");
    assert(lower_seq("Contact"@) =~= "contact"@);
    assert("contact"@ != "call-id"@) by {
        assert("contact"@[2] != "call-id"@[2]);
    }
}

proof fn lemma_name_authorization()
    ensures
        header_name_of("Authorization"@) == HeaderNameView::Authorization,
{
    reveal_strlit("via");
    reveal_strlit("v");
    reveal_strlit("from");
    reveal_strlit("f");
    reveal_strlit("to");
    reveal_strlit("t");
    reveal_strlit("call-id");
    reveal_strlit("i");
    reveal_strlit("cseq");
    reveal_strlit("contact");
    reveal_strlit("m");
    reveal_strlit("authorization");
    reveal_strlit("www-authenticate");
    reveal_strlit("user-agent");
    reveal_strlit("allow");
    reveal_strlit("accept");
    reveal_strlit("content-length");
    reveal_strlit("l");
    reveal_strlit("content-type");
    reveal_strlit("c");
    reveal_strlit("expires");
    reveal_strlit("Authorization");
    assert(lower_seq("Authorization"@) =~= "authorization"@);
}

proof fn lemma_name_www_authenticate()
    ensures
        header_name_of("WWW-Authenticate"@) == HeaderNameView::WwwAuthenticate,
{
    reveal_strlit("via");
    reveal_strlit("v");
    reveal_strlit("from");
    reveal_strlit("f");
    reveal_strlit("to");
    reveal_strlit("t");
    reveal_strlit("call-id");
    reveal_strlit("i");
    reveal_strlit("cseq");
    reveal_strlit("contact");
    reveal_strlit("m");
    reveal_strlit("authorization");
    reveal_strlit("www-authenticate");
    reveal_strlit("user-agent");
    reveal_strlit("allow");
    reveal_strlit("accept");
    reveal_strlit("content-length");
    reveal_strlit("l");
    reveal_strlit("content-type");
    reveal_strlit("c");
    reveal_strlit("expires");
    reveal_strlit("WWW-Authenticate");
    assert(lower_seq("WWW-Authenticate"@) =~= "www-authenticate"@);
}

proof fn lemma_name_user_agent()
    ensures
        header_name_of("User-Agent"@) == HeaderNameView::UserAgent,
{
    reveal_strlit("via");
    reveal_strlit("v");
    reveal_strlit("from");
    reveal_strlit("f");
    reveal_strlit("to");
    reveal_strlit("t");
    reveal_strlit("call-id");
    reveal_strlit("i");
    reveal_strlit("cseq");
    reveal_strlit("contact");
    reveal_strlit("m");
    reveal_strlit("authorization");
    reveal_strlit("www-authenticate");
    reveal_strlit("user-agent");
    reveal_strlit("allow");
    reveal_strlit("accept");
    reveal_strlit("content-length");
    reveal_strlit("l");
    reveal_strlit("content-type");
    reveal_strlit("c");
    reveal_strlit("expires");
    reveal_strlit("User-Agent");
    assert(lower_seq("User-Agent"@) =~= "user-agent"@);
}

proof fn lemma_name_allow()
    ensures
        header_name_of("Allow"@) == HeaderNameView::Allow,
{
    reveal_strlit("via");
    reveal_strlit("v");
    reveal_strlit("from");
    reveal_strlit("f");
    reveal_strlit("to");
    reveal_strlit("t");
    reveal_strlit("call-id");
    reveal_strlit("i");
    reveal_strlit("cseq");
    reveal_strlit("contact");
    reveal_strlit("m");
    reveal_strlit("authorization");
    reveal_strlit("www-authenticate");
    reveal_strlit("user-agent");
    reveal_strlit("allow");
    reveal_strlit("accept");
    reveal_strlit("content-length");
    reveal_strlit("l");
    reveal_strlit("content-type");
    reveal_strlit("c");
    reveal_strlit("expires");
    reveal_strlit("Allow");
    assert(lower_seq("Allow"@) =~= "allow"@);
}

proof fn lemma_name_accept()
    ensures
        header_name_of("Accept"@) == HeaderNameView::Accept,
{
    reveal_strlit("via");
    reveal_strlit("v");
    reveal_strlit("from");
    reveal_strlit("f");
    reveal_strlit("to");
    reveal_strlit("t");
    reveal_strlit("call-id");
    reveal_strlit("i");
    reveal_strlit("cseq");
    reveal_strlit("contact");
    reveal_strlit("m");
    reveal_strlit("authorization");
    reveal_strlit("www-authenticate");
    reveal_strlit("user-agent");
    reveal_strlit("allow");
    reveal_strlit("accept");
    reveal_strlit("content-length");
    reveal_strlit("l");
    reveal_strlit("content-type");
    reveal_strlit("c");
    reveal_strlit("expires");
    reveal_strlit("Accept");
    assert(lower_seq("Accept"@) =~= "accept"@);
}

proof fn lemma_name_content_length()
    ensures
        header_name_of("Content-Length"@) == HeaderNameView::ContentLength,
{
    reveal_strlit("via");
    reveal_strlit("v");
    reveal_strlit("from");
    reveal_strlit("f");
    reveal_strlit("to");
    reveal_strlit("t");
    reveal_strlit("call-id");
    reveal_strlit("i");
    reveal_strlit("cseq");
    reveal_strlit("contact");
    reveal_strlit("m");
    reveal_strlit("authorization");
    reveal_strlit("www-authenticate");
    reveal_strlit("user-agent");
    reveal_strlit("allow");
    reveal_strlit("accept");
    reveal_strlit("content-length");
    reveal_strlit("l");
    reveal_strlit("content-type");
    reveal_strlit("c");
    reveal_strlit("expires");
    reveal_strlit("Content-Length");
    assert(lower_seq("Content-Length"@) =~= "content-length"@);
}

proof fn lemma_name_content_type()
    ensures
        header_name_of("Content-Type"@) == HeaderNameView::ContentType,
{
    reveal_strlit("via");
    reveal_strlit("v");
    reveal_strlit("from");
    reveal_strlit("f");
    reveal_strlit("to");
    reveal_strlit("t");
    reveal_strlit("call-id");
    reveal_strlit("i");
    reveal_strlit("cseq");
    reveal_strlit("contact");
    reveal_strlit("m");
    reveal_strlit("authorization");
    reveal_strlit("www-authenticate");
    reveal_strlit("user-agent");
    reveal_strlit("allow");
    reveal_strlit("accept");
    reveal_strlit("content-length");
    reveal_strlit("l");
    reveal_strlit("content-type");
    reveal_strlit("c");
    reveal_strlit("expires");
    reveal_strlit("Content-Type");
    assert(lower_seq("Content-Type"@) =~= "content-type"@);
}

proof fn lemma_name_expires()
    ensures
        header_name_of("Expires"@) == HeaderNameView::Expires,
{
    reveal_strlit("via");
    reveal_strlit("v");
    reveal_strlit("from");
    reveal_strlit("f");
    reveal_strlit("to");
    reveal_strlit("t");
    reveal_strlit("call-id");
    reveal_strlit("i");
    reveal_strlit("cseq");
    reveal_strlit("contact");
    reveal_strlit("m");
    reveal_strlit("authorization");
    reveal_strlit("www-authenticate");
    reveal_strlit("user-agent");
    reveal_strlit("allow");
    reveal_strlit("accept");
    reveal_strlit("content-length");
    reveal_strlit("l");
    reveal_strlit("content-type");
    reveal_strlit("c");
    reveal_strlit("expires");
    reveal_strlit("Expires");
    assert(lower_seq("Expires"@) =~= "expires"@);
    assert("expires"@ != "call-id"@) by {
        assert("expires"@[0] != "call-id"@[0]);
    }
    assert("expires"@ != "contact"@) by {
        assert("expires"@[0] != "contact"@[0]);
    }
}

/// Every header name the library knows reads back as itself.
proof fn lemma_known_name(name: HeaderNameView)
    requires
        !(name is Other),
    ensures
        name_text_reads_back(name),
{
    lemma_name_via();
    lemma_name_from();
    lemma_name_to();
    lemma_name_call_id();
    lemma_name_cseq();
    lemma_name_contact();
    lemma_name_authorization();
    lemma_name_www_authenticate();
    lemma_name_user_agent();
    lemma_name_allow();
    lemma_name_accept();
    lemma_name_content_length();
    lemma_name_content_type();
    lemma_name_expires();
    reveal_strlit("Via");
    reveal_strlit("From");
    reveal_strlit("To");
    reveal_strlit("Call-ID");
    reveal_strlit("CSeq");
    reveal_strlit("Contact");
    reveal_strlit("Authorization");
    reveal_strlit("WWW-Authenticate");
    reveal_strlit("User-Agent");
    reveal_strlit("Allow");
    reveal_strlit("Accept");
    reveal_strlit("Content-Length");
    reveal_strlit("Content-Type");
    reveal_strlit("Expires");
}

/// A header value that reads back as itself: no line feed, and no space or tab
/// in front.
pub open spec fn value_reads_back(v: Seq<u8>) -> bool {
    &&& !v.contains(10u8)
    &&& (v.len() == 0 || !is_ows(v[0]))
}

proof fn lemma_trim_start_ows_id(v: Seq<u8>)
    requires
        v.len() == 0 || !is_ows(v[0]),
    ensures
        trim_start_ows(v) == v,
{
}

proof fn lemma_header_text_parses(h: HeaderView)
    requires
        name_text_reads_back(h.name),
        value_reads_back(h.value),
    ensures
        parse_header_line(header_text(h)) == Some(h),
        !header_text(h).contains(10u8),
        header_text(h).len() >= 2,
{
    let n = header_name_text(h.name);
    let e = encode_utf8(n);
    let v = h.value;
    let l = header_text(h);
    lemma_encode_ascii(n);
    lemma_encode_lacks(n, ':');
    lemma_encode_lacks(n, '\n');
    assert(':' as u8 == 58u8);
    assert('\n' as u8 == 10u8);
    assert(l =~= e + seq![58u8, 32u8] + v);
    let k = e.len() as int;
    assert(e.len() == n.len());
    // The first `:` ends the name.
    assert(l.subrange(k, k + 1) =~= seq![58u8]);
    assert forall|j: int| 0 <= j < k implies !occurs_at(l, seq![58u8], j) by {
        if occurs_at(l, seq![58u8], j) {
            assert(l.subrange(j, j + 1)[0] == seq![58u8][0]);
            assert(l[j] == e[j]);
            assert(e.contains(58u8));
        }
    }
    lemma_find_at(l, seq![58u8], k, 0);
    assert(l.take(k) =~= e);
    // No space or tab around the name.
    assert(e[0] == n[0] as u8);
    lemma_ascii_bytes_differ(n[0], ' ');
    lemma_ascii_bytes_differ(n[0], '\t');
    assert(' ' as u8 == 32u8);
    assert('\t' as u8 == 9u8);
    assert(!is_ows(e[0]));
    assert(trim_start_ows(e) == e);
    assert(e.last() == n.last() as u8) by {
        assert(e.last() == e[k - 1]);
        assert(n.last() == n[k - 1]);
    }
    lemma_ascii_bytes_differ(n.last(), ' ');
    lemma_ascii_bytes_differ(n.last(), '\t');
    assert(!is_ows(e.last()));
    assert(trim_end_ows(e) == e);
    // The value follows `: `.
    assert(l.skip(k + 1) =~= seq![32u8] + v);
    assert((seq![32u8] + v).drop_first() =~= v);
    lemma_trim_start_ows_id(v);
    assert(trim_start_ows(seq![32u8] + v) == v);
    // No line feed.
    if l.contains(10u8) {
        let i = choose|i: int| 0 <= i < l.len() && l[i] == 10u8;
        if i < k {
            assert(e[i] == 10u8);
            assert(e.contains(10u8));
        } else if i >= k + 2 {
            assert(v[i - k - 2] == 10u8);
            assert(v.contains(10u8));
        }
    }
}

proof fn lemma_header_lines_parse(hs: Seq<HeaderView>)
    requires
        forall|i: int| 0 <= i < hs.len() ==> name_text_reads_back(#[trigger] hs[i].name),
        forall|i: int| 0 <= i < hs.len() ==> value_reads_back(#[trigger] hs[i].value),
    ensures
        parse_header_lines(hs.map_values(|h: HeaderView| header_text(h))) == Some(hs),
    decreases hs.len(),
{
    let ls = hs.map_values(|h: HeaderView| header_text(h));
    if hs.len() > 0 {
        let prev = hs.drop_last();
        assert forall|i: int| 0 <= i < prev.len() implies name_text_reads_back(#[trigger] prev[i].name) by {
            assert(prev[i] == hs[i]);
        }
        assert forall|i: int| 0 <= i < prev.len() implies value_reads_back(#[trigger] prev[i].value) by {
            assert(prev[i] == hs[i]);
        }
        lemma_header_lines_parse(prev);
        assert(ls.drop_last() =~= prev.map_values(|h: HeaderView| header_text(h)));
        assert(hs.last() == hs[hs.len() - 1]);
        lemma_header_text_parses(hs.last());
        assert(ls.last() == header_text(hs.last()));
        assert(prev.push(hs.last()) =~= hs);
    } else {
        assert(ls =~= Seq::<Seq<u8>>::empty());
    }
}

proof fn lemma_digit(d: int)
    requires
        0 <= d <= 9,
    ensures
        is_digit(digit_char(d)),
        digit_value(digit_char(d)) == d,
        digit_char(d) != ' ',
{
}

// ---------------------------------------------------------------------------
// Start lines.
// ---------------------------------------------------------------------------

/// The first space of `a`, a space and `b`, when `a` has none, is the one after `a`.
proof fn lemma_first_space(a: Seq<char>, b: Seq<char>)
    requires
        !a.contains(' '),
    ensures
        find_first(a + seq![' '] + b, seq![' ']) == Some(a.len() as int),
        (a + seq![' '] + b).take(a.len() as int) == a,
        (a + seq![' '] + b).skip(a.len() as int + 1) == b,
{
    let t = a + seq![' '] + b;
    let k = a.len() as int;
    assert(t.subrange(k, k + 1) =~= seq![' ']);
    assert forall|j: int| 0 <= j < k implies !occurs_at(t, seq![' '], j) by {
        if occurs_at(t, seq![' '], j) {
            assert(t.subrange(j, j + 1)[0] == seq![' '][0]);
            assert(t[j] == a[j]);
            assert(a.contains(' '));
        }
    }
    lemma_find_at(t, seq![' '], k, 0);
    assert(t.take(k) =~= a);
    assert(t.skip(k + 1) =~= b);
}

proof fn lemma_version_text()
    ensures
        encode_utf8(version_text()) == version_bytes(),
        !version_text().contains(' '),
        !version_text().contains('\n'),
        version_text().len() == 7,
{
    reveal_strlit("SIP/2.0");
    let v = version_text();
    assert(is_ascii_text(v));
    lemma_encode_ascii(v);
    assert(v.map_values(|c: char| c as u8) =~= version_bytes());
}

proof fn lemma_space_bytes()
    ensures
        encode_utf8(seq![' ']) == seq![32u8],
{
    lemma_encode_ascii(seq![' ']);
    assert(seq![' '].map_values(|c: char| c as u8) =~= seq![32u8]);
}

proof fn lemma_decimal_3(n: int)
    requires
        100 <= n <= 999,
    ensures
        decimal(n as nat) == seq![digit_char(n / 100), digit_char((n / 10) % 10), digit_char(n % 10)],
{
    assert(n / 10 / 10 == n / 100);
    assert(decimal((n / 10 / 10) as nat) == seq![digit_char(n / 100)]);
    assert(decimal((n / 10) as nat) == seq![digit_char(n / 100)].push(digit_char((n / 10) % 10)));
    assert(decimal(n as nat) =~= seq![digit_char(n / 100), digit_char((n / 10) % 10), digit_char(n % 10)]);
}

/// The text of a method reads back as the method: non-empty, not `SIP/2.0`,
/// without space or line feed, and naming the same method.
pub open spec fn method_text_reads_back(method: MethodView) -> bool {
    let mt = method_text(method);
    &&& mt.len() > 0
    &&& !mt.contains(' ')
    &&& !mt.contains('\n')
    &&& mt != version_text()
    &&& method_of(mt) == method
}

/// A method that reads back as itself: every method the library knows does; a
/// method of its own must satisfy `method_text_reads_back`.
pub open spec fn method_reads_back(method: MethodView) -> bool {
    method is Other ==> method_text_reads_back(method)
}

proof fn lemma_method_invite()
    ensures
        method_text_reads_back(MethodView::Invite),
{
    reveal_strlit("INVITE");
    reveal_strlit("ACK");
    reveal_strlit("BYE");
    reveal_strlit("CANCEL");
    reveal_strlit("REGISTER");
    reveal_strlit("OPTIONS");
    reveal_strlit("SIP/2.0");
    assert("INVITE"@ != "CANCEL"@) by {
        assert("INVITE"@[0] != "CANCEL"@[0]);
    }
    assert(!"INVITE"@.contains(' '));
    assert(!"INVITE"@.contains('\n'));
}

proof fn lemma_method_ack()
    ensures
        method_text_reads_back(MethodView::Ack),
{
    reveal_strlit("INVITE");
    reveal_strlit("ACK");
    reveal_strlit("BYE");
    reveal_strlit("CANCEL");
    reveal_strlit("REGISTER");
    reveal_strlit("OPTIONS");
    reveal_strlit("SIP/2.0");
    assert("ACK"@ != "BYE"@) by {
        assert("ACK"@[0] != "BYE"@[0]);
    }
    assert(!"ACK"@.contains(' '));
    assert(!"ACK"@.contains('\n'));
}

proof fn lemma_method_bye()
    ensures
        method_text_reads_back(MethodView::Bye),
{
    reveal_strlit("INVITE");
    reveal_strlit("ACK");
    reveal_strlit("BYE");
    reveal_strlit("CANCEL");
    reveal_strlit("REGISTER");
    reveal_strlit("OPTIONS");
    reveal_strlit("SIP/2.0");
    assert("BYE"@ != "ACK"@) by {
        assert("BYE"@[0] != "ACK"@[0]);
    }
    assert(!"BYE"@.contains(' '));
    assert(!"BYE"@.contains('\n'));
}

proof fn lemma_method_cancel()
    ensures
        method_text_reads_back(MethodView::Cancel),
{
    reveal_strlit("INVITE");
    reveal_strlit("ACK");
    reveal_strlit("BYE");
    reveal_strlit("CANCEL");
    reveal_strlit("REGISTER");
    reveal_strlit("OPTIONS");
    reveal_strlit("SIP/2.0");
    assert("CANCEL"@ != "INVITE"@) by {
        assert("CANCEL"@[0] != "INVITE"@[0]);
    }
    assert(!"CANCEL"@.contains(' '));
    assert(!"CANCEL"@.contains('\n'));
}

proof fn lemma_method_register()
    ensures
        method_text_reads_back(MethodView::Register),
{
    reveal_strlit("INVITE");
    reveal_strlit("ACK");
    reveal_strlit("BYE");
    reveal_strlit("CANCEL");
    reveal_strlit("REGISTER");
    reveal_strlit("OPTIONS");
    reveal_strlit("SIP/2.0");
    assert(!"REGISTER"@.contains(' '));
    assert(!"REGISTER"@.contains('\n'));
}

proof fn lemma_method_options()
    ensures
        method_text_reads_back(MethodView::Options),
{
    reveal_strlit("INVITE");
    reveal_strlit("ACK");
    reveal_strlit("BYE");
    reveal_strlit("CANCEL");
    reveal_strlit("REGISTER");
    reveal_strlit("OPTIONS");
    reveal_strlit("SIP/2.0");
    assert("OPTIONS"@ != "SIP/2.0"@) by {
        assert("OPTIONS"@[0] != "SIP/2.0"@[0]);
    }
    assert(!"OPTIONS"@.contains(' '));
    assert(!"OPTIONS"@.contains('\n'));
}

/// Every method the library knows reads back as itself.
proof fn lemma_known_method(method: MethodView)
    requires
        !(method is Other),
    ensures
        method_text_reads_back(method),
{
    match method {
        MethodView::Invite => lemma_method_invite(),
        MethodView::Ack => lemma_method_ack(),
        MethodView::Bye => lemma_method_bye(),
        MethodView::Cancel => lemma_method_cancel(),
        MethodView::Register => lemma_method_register(),
        MethodView::Options => lemma_method_options(),
        MethodView::Other(_) => {},
    }
}

/// A start line that reads back as itself. A request's method reads back (see
/// `method_reads_back`); its URI is non-empty, without space or line feed, with
/// the user part that its text gives. A response's code has three digits and its
/// reason no line feed.
pub open spec fn start_reads_back(s: StartLineView) -> bool {
    match s {
        StartLineView::Request { method, uri } => {
            &&& method_reads_back(method)
            &&& uri.text.len() > 0
            &&& !uri.text.contains(' ')
            &&& !uri.text.contains('\n')
            &&& uri.user == uri_user(uri.text)
        },
        StartLineView::Response { code, reason } => {
            &&& 100 <= code <= 999
            &&& !reason.contains('\n')
        },
    }
}

proof fn lemma_start_text_parses(s: StartLineView)
    requires
        start_reads_back(s),
    ensures
        parse_start_line(start_text(s)) == Some(s),
        !start_text(s).contains(10u8),
        start_text(s).len() >= 7,
{
    lemma_version_text();
    lemma_space_bytes();
    let sp = seq![' '];
    let v = version_text();
    match s {
        StartLineView::Request { method, uri } => {
            if !(method is Other) {
                lemma_known_method(method);
            }
            let mt = method_text(method);
            let ut = uri.text;
            let t = mt + sp + ut + sp + v;
            lemma_encode_concat(mt, sp);
            lemma_encode_concat(mt + sp, ut);
            lemma_encode_concat(mt + sp + ut, sp);
            lemma_encode_concat(mt + sp + ut + sp, v);
            assert(encode_utf8(t) == start_text(s));
            encode_utf8_valid_utf8(t);
            encode_utf8_decode_utf8(t);
            assert(t =~= mt + sp + (ut + sp + v));
            lemma_first_space(mt, ut + sp + v);
            lemma_first_space(ut, v);
            assert(!t.contains('\n')) by {
                if t.contains('\n') {
                    let i = choose|i: int| 0 <= i < t.len() && t[i] == '\n';
                    if i < mt.len() {
                        assert(mt[i] == '\n');
                        assert(mt.contains('\n'));
                    } else if mt.len() < i < mt.len() + 1 + ut.len() {
                        assert(ut[i - mt.len() - 1] == '\n');
                        assert(ut.contains('\n'));
                    } else if i > mt.len() + 1 + ut.len() {
                        assert(v[i - mt.len() - 2 - ut.len()] == '\n');
                        assert(v.contains('\n'));
                    }
                }
            }
            lemma_encode_lacks(t, '\n');
            assert('\n' as u8 == 10u8);
        },
        StartLineView::Response { code, reason } => {
            let d = decimal(code as nat);
            let t = v + sp + d + sp + reason;
            lemma_encode_concat(v, sp);
            lemma_encode_concat(v + sp, d);
            lemma_encode_concat(v + sp + d, sp);
            lemma_encode_concat(v + sp + d + sp, reason);
            assert(encode_utf8(t) == start_text(s));
            encode_utf8_valid_utf8(t);
            encode_utf8_decode_utf8(t);
            let n = code as int;
            lemma_decimal_3(n);
            lemma_digit(n / 100);
            lemma_digit((n / 10) % 10);
            lemma_digit(n % 10);
            assert(!d.contains(' ')) by {
                if d.contains(' ') {
                    let i = choose|i: int| 0 <= i < d.len() && d[i] == ' ';
                }
            }
            assert(!d.contains('\n')) by {
                if d.contains('\n') {
                    let i = choose|i: int| 0 <= i < d.len() && d[i] == '\n';
                }
            }
            assert(t =~= v + sp + (d + sp + reason));
            lemma_first_space(v, d + sp + reason);
            lemma_first_space(d, reason);
            assert(100 * (n / 100) + 10 * ((n / 10) % 10) + n % 10 == n);
            assert(!t.contains('\n')) by {
                if t.contains('\n') {
                    let i = choose|i: int| 0 <= i < t.len() && t[i] == '\n';
                    if i < 7 {
                        assert(v[i] == '\n');
                        assert(v.contains('\n'));
                    } else if 7 < i < 11 {
                        assert(d[i - 8] == '\n');
                        assert(d.contains('\n'));
                    } else if i > 11 {
                        assert(reason[i - 12] == '\n');
                        assert(reason.contains('\n'));
                    }
                }
            }
            lemma_encode_lacks(t, '\n');
            assert('\n' as u8 == 10u8);
        },
    }
}

// ---------------------------------------------------------------------------
// Whole messages.
// ---------------------------------------------------------------------------

/// The encoding of a text that does not end in a carriage return does not end in
/// byte 13.
proof fn lemma_encode_last(t: Seq<char>)
    requires
        t.len() > 0,
        t.last() != '\r',
    ensures
        encode_utf8(t).len() > 0,
        encode_utf8(t).last() != 13u8,
{
    let init = t.drop_last();
    let c = t.last();
    assert(t =~= init + seq![c]);
    lemma_encode_concat(init, seq![c]);
    assert(seq![c].drop_first() =~= Seq::<char>::empty());
    assert(seq![c][0] == c);
    assert(encode_utf8(Seq::<char>::empty()) =~= Seq::<u8>::empty());
    assert(encode_utf8(seq![c]) == encode_scalar(c as u32) + encode_utf8(Seq::<char>::empty()));
    assert(encode_utf8(seq![c]) =~= encode_scalar(c as u32));
    lemma_scalar_bytes(c);
    let e = encode_scalar(c as u32);
    assert(e.len() > 0);
    assert(encode_utf8(t).last() == e.last());
    if (c as u32) < 0x80 {
        lemma_ascii_bytes_differ(c, '\r');
        assert('\r' as u8 == 13u8);
    } else {
        assert(e.last() == e[e.len() - 1]);
    }
}

/// The last line before the empty line does not end in a carriage return (which
/// would be taken for part of the line end): the last header's value, or without
/// headers a response's reason, does not end in one.
pub open spec fn last_line_ends_clean(m: SipMessageView) -> bool {
    if m.headers.len() > 0 {
        let v = m.headers.last().value;
        v.len() == 0 || v.last() != 13u8
    } else {
        match m.start {
            StartLineView::Response { reason, .. } => reason.len() == 0 || reason.last() != '\r',
            StartLineView::Request { .. } => true,
        }
    }
}

/// A message whose bytes read back as the message itself: see `start_reads_back`,
/// `name_reads_back`, `value_reads_back` and `last_line_ends_clean`.
pub open spec fn message_reads_back(m: SipMessageView) -> bool {
    &&& start_reads_back(m.start)
    &&& forall|i: int| 0 <= i < m.headers.len() ==> name_reads_back(#[trigger] m.headers[i].name)
    &&& forall|i: int| 0 <= i < m.headers.len() ==> value_reads_back(#[trigger] m.headers[i].value)
    &&& last_line_ends_clean(m)
}

/// Reading the bytes that a message is sent as gives the message back: its start
/// line, every header in order, and its body, whatever the body holds.
pub proof fn law_sent_message_reads_back(m: SipMessageView)
    requires
        message_reads_back(m),
    ensures
        parse_message_bytes(message_bytes(m)) == Some(m),
{
    let st = start_text(m.start);
    let hs = m.headers;
    let h = head_bytes(st, hs);
    let b = message_bytes(m);
    lemma_message_layout(m);
    lemma_start_text_parses(m.start);
    assert forall|i: int| 0 <= i < hs.len() implies name_text_reads_back(#[trigger] hs[i].name) by {
        if !(hs[i].name is Other) {
            lemma_known_name(hs[i].name);
        }
    }
    assert forall|i: int| 0 <= i < hs.len() implies !(#[trigger] header_text(hs[i])).contains(10u8) by {
        lemma_header_text_parses(hs[i]);
    }
    lemma_head_no_blank(st, hs);
    lemma_first_blank(h, m.body);
    let n = h.len() as int;
    assert(b.take(n) =~= h);
    assert(b.skip(n + 4) =~= m.body);
    lemma_head_split(st, hs);
    let ls = head_lines(st, hs);
    // The last line keeps its last byte.
    if hs.len() > 0 {
        let last = hs.last();
        assert(last == hs[hs.len() - 1]);
        lemma_header_text_parses(last);
        let t = header_text(last);
        assert(ls.last() == t);
        if last.value.len() > 0 {
            assert(t.last() == last.value.last());
        } else {
            assert(t.last() == 32u8);
        }
    } else {
        assert(ls.last() == st);
        match m.start {
            StartLineView::Request { method, uri } => {
                lemma_version_text();
                assert(st.last() == version_bytes().last());
            },
            StartLineView::Response { code, reason } => {
                if reason.len() > 0 {
                    lemma_encode_last(reason);
                    assert(st.last() == encode_utf8(reason).last());
                } else {
                    assert(st.last() == 32u8);
                }
            },
        }
    }
    lemma_strip_lines(ls);
    let lines = split_char(b.take(n), 10u8).map_values(|l: Seq<u8>| strip_cr(l));
    assert(lines == ls);
    assert(lines[0] == st);
    assert(lines.skip(1) =~= hs.map_values(|x: HeaderView| header_text(x)));
    lemma_header_lines_parse(hs);
}

} // verus!
