//! HTTP digest authentication of SIP requests (RFC 2617, without `qop`).

use vstd::prelude::*;
use vstd::utf8::*;
use crate::text::{
    chars_to_string, find_char, split_char, trim_ws, trim_char, strip_prefix_all, str_chars, strip_prefix_all_exec,
    trim_ws_exec, trim_char_exec, find_seq, copy_range, push_all, chars_utf8, chars_eq,
    lemma_find_from, occurs_at, lemma_split_char_nonempty,
};

verus! {

/// The MD5 digest of `data`, as the `md5` crate computes it.
pub uninterp spec fn md5_digest(data: Seq<u8>) -> Seq<u8>;

/// `md5::compute`: the 16-byte MD5 digest of `data`. The digest itself is left to
/// the name `md5_digest`; only its length is stated.
#[verifier::external_body]
fn md5_of(data: &[u8]) -> (res: Vec<u8>)
    ensures
        res@ == md5_digest(data@),
        res@.len() == 16,
{
    md5::compute(data).0.to_vec()
}

pub open spec fn hex_digit(d: int) -> char {
    if d < 10 {
        ((d + 48) as u8) as char
    } else {
        ((d - 10 + 97) as u8) as char
    }
}

/// Lower-case hexadecimal text of `bytes`, two digits per byte.
pub open spec fn hex_lower(bytes: Seq<u8>) -> Seq<char>
    decreases bytes.len(),
{
    if bytes.len() == 0 {
        Seq::empty()
    } else {
        seq![hex_digit((bytes[0] / 16) as int), hex_digit((bytes[0] % 16) as int)] + hex_lower(
            bytes.drop_first(),
        )
    }
}

/// The MD5 digest of the UTF-8 text `s`, in lower-case hexadecimal.
pub open spec fn md5_hex(s: Seq<char>) -> Seq<char> {
    hex_lower(md5_digest(encode_utf8(s)))
}

/// The digest response a client computes: `MD5(HA1:nonce:HA2)` with
/// `HA1 = MD5(username:realm:password)` and `HA2 = MD5(method:uri)`.
pub open spec fn digest_response(
    username: Seq<char>,
    realm: Seq<char>,
    password: Seq<char>,
    nonce: Seq<char>,
    method: Seq<char>,
    uri: Seq<char>,
) -> Seq<char> {
    md5_hex(
        md5_hex(username + seq![':'] + realm + seq![':'] + password) + seq![':'] + nonce + seq![':']
            + md5_hex(method + seq![':'] + uri),
    )
}

pub open spec fn key_username() -> Seq<char> {
    seq!['u', 's', 'e', 'r', 'n', 'a', 'm', 'e']
}

pub open spec fn key_nonce() -> Seq<char> {
    seq!['n', 'o', 'n', 'c', 'e']
}

pub open spec fn key_uri() -> Seq<char> {
    seq!['u', 'r', 'i']
}

pub open spec fn key_response() -> Seq<char> {
    seq!['r', 'e', 's', 'p', 'o', 'n', 's', 'e']
}

pub open spec fn digest_prefix() -> Seq<char> {
    seq!['D', 'i', 'g', 'e', 's', 't', ' ']
}

/// The value a `key=value` item gives to `key`: the item is trimmed, split at its
/// first `=`, and the value loses its surrounding `"`.
pub open spec fn item_value(item: Seq<char>, key: Seq<char>) -> Option<Seq<char>> {
    let t = trim_ws(item);
    match find_char(t, '=') {
        Some(i) => if t.take(i) == key {
            Some(trim_char(t.skip(i + 1), '"'))
        } else {
            None
        },
        None => None,
    }
}

/// The value of `key` among comma-separated items: the last item that sets it
/// wins; empty when none does.
pub open spec fn field_of(items: Seq<Seq<char>>, key: Seq<char>) -> Seq<char>
    decreases items.len(),
{
    if items.len() == 0 {
        Seq::empty()
    } else {
        match item_value(items.last(), key) {
            Some(v) => v,
            None => field_of(items.drop_last(), key),
        }
    }
}

/// The items of an `Authorization` value: every leading `Digest ` removed, then
/// split at commas.
pub open spec fn digest_items(header: Seq<char>) -> Seq<Seq<char>> {
    split_char(strip_prefix_all(header, digest_prefix()), ',')
}

pub open spec fn digest_field(header: Seq<char>, key: Seq<char>) -> Seq<char> {
    field_of(digest_items(header), key)
}

/// Whether an `Authorization` value proves knowledge of `password` for `method`:
/// its `username`, `nonce`, `uri` and `response` are all present and non-empty, and
/// `response` is the digest response computed from them and `realm`.
pub open spec fn digest_header_valid(
    header: Seq<char>,
    password: Seq<char>,
    realm: Seq<char>,
    method: Seq<char>,
) -> bool {
    let username = digest_field(header, key_username());
    let nonce = digest_field(header, key_nonce());
    let uri = digest_field(header, key_uri());
    let response = digest_field(header, key_response());
    &&& username.len() > 0
    &&& nonce.len() > 0
    &&& uri.len() > 0
    &&& response.len() > 0
    &&& response == digest_response(username, realm, password, nonce, method, uri)
}

fn hex_digit_exec(d: u8) -> (c: char)
    requires
        d < 16,
    ensures
        c == hex_digit(d as int),
{
    if d < 10 {
        (d + 48) as char
    } else {
        (d - 10 + 97) as char
    }
}

/// Lower-case hexadecimal text of `bytes`.
pub fn to_hex_lower(bytes: &[u8]) -> (res: Vec<char>)
    ensures
        res@ == hex_lower(bytes@),
{
    let mut res: Vec<char> = Vec::new();
    let mut i: usize = 0;
    assert(bytes@.skip(0) =~= bytes@);
    while i < bytes.len()
        invariant
            i <= bytes@.len(),
            hex_lower(bytes@) == res@ + hex_lower(bytes@.skip(i as int)),
        decreases bytes@.len() - i,
    {
        let b = bytes[i];
        let ghost before = res@;
        res.push(hex_digit_exec(b / 16));
        res.push(hex_digit_exec(b % 16));
        assert(bytes@.skip(i as int).drop_first() =~= bytes@.skip(i + 1));
        assert(hex_lower(bytes@.skip(i as int)) == seq![
            hex_digit((b / 16) as int),
            hex_digit((b % 16) as int),
        ] + hex_lower(bytes@.skip(i + 1)));
        assert(res@ =~= before + seq![hex_digit((b / 16) as int), hex_digit((b % 16) as int)]);
        assert(hex_lower(bytes@) =~= res@ + hex_lower(bytes@.skip(i + 1)));
        i = i + 1;
    }
    assert(bytes@.skip(i as int) =~= Seq::<u8>::empty());
    assert(res@ + Seq::<char>::empty() =~= res@);
    res
}

/// The MD5 digest of the UTF-8 text `s`, in lower-case hexadecimal.
pub fn md5_hex_exec(s: &[char]) -> (res: Vec<char>)
    ensures
        res@ == md5_hex(s@),
{
    let bytes = chars_utf8(s);
    let digest = md5_of(&bytes);
    to_hex_lower(&digest)
}

fn join3(a: &[char], b: &[char], c: &[char]) -> (res: Vec<char>)
    ensures
        res@ == a@ + seq![':'] + b@ + seq![':'] + c@,
{
    let mut v = vstd::slice::slice_to_vec(a);
    v.push(':');
    push_all(&mut v, b);
    v.push(':');
    push_all(&mut v, c);
    v
}

/// The digest response a client computes from these values.
pub fn compute_digest_response(
    username: &[char],
    realm: &[char],
    password: &[char],
    nonce: &[char],
    method: &[char],
    uri: &[char],
) -> (res: Vec<char>)
    ensures
        res@ == digest_response(username@, realm@, password@, nonce@, method@, uri@),
{
    let ha1 = md5_hex_exec(&join3(username, realm, password));
    let mut a2 = vstd::slice::slice_to_vec(method);
    a2.push(':');
    push_all(&mut a2, uri);
    assert(a2@ =~= method@ + seq![':'] + uri@);
    let ha2 = md5_hex_exec(&a2);
    md5_hex_exec(&join3(&ha1, nonce, &ha2))
}

/// `item_value` of one item.
fn item_value_exec(item: &[char], key: &[char]) -> (r: Option<Vec<char>>)
    ensures
        r matches Some(v) ==> item_value(item@, key@) == Some(v@),
        r is None ==> item_value(item@, key@) is None,
{
    let t = trim_ws_exec(item);
    let eq = vec!['='];
    assert(eq@ =~= seq!['=']);
    match find_seq(&t, &eq, 0) {
        Some(i) => {
            proof {
                lemma_find_from(t@, seq!['='], 0);
            }
            assert(occurs_at(t@, seq!['='], i as int));
            let tlen = t.len();
            let k = copy_range(&t, 0, i);
            assert(k@ =~= t@.take(i as int));
            if chars_eq(&k, key) {
                let rest = copy_range(&t, i + 1, tlen);
                assert(rest@ =~= t@.skip(i + 1));
                Some(trim_char_exec(&rest, '"'))
            } else {
                None
            }
        },
        None => None,
    }
}

struct DigestFields {
    username: Vec<char>,
    nonce: Vec<char>,
    uri: Vec<char>,
    response: Vec<char>,
}

/// Takes one item into account.
fn absorb_item(
    f: &mut DigestFields,
    item: &[char],
    ku: &Vec<char>,
    kn: &Vec<char>,
    ki: &Vec<char>,
    kr: &Vec<char>,
    Ghost(items): Ghost<Seq<Seq<char>>>,
)
    requires
        ku@ == key_username(),
        kn@ == key_nonce(),
        ki@ == key_uri(),
        kr@ == key_response(),
        old(f).username@ == field_of(items, key_username()),
        old(f).nonce@ == field_of(items, key_nonce()),
        old(f).uri@ == field_of(items, key_uri()),
        old(f).response@ == field_of(items, key_response()),
    ensures
        final(f).username@ == field_of(items.push(item@), key_username()),
        final(f).nonce@ == field_of(items.push(item@), key_nonce()),
        final(f).uri@ == field_of(items.push(item@), key_uri()),
        final(f).response@ == field_of(items.push(item@), key_response()),
{
    assert(items.push(item@).drop_last() =~= items);
    assert(items.push(item@).last() == item@);
    match item_value_exec(item, ku) {
        Some(v) => { f.username = v; },
        None => {},
    }
    match item_value_exec(item, kn) {
        Some(v) => { f.nonce = v; },
        None => {},
    }
    match item_value_exec(item, ki) {
        Some(v) => { f.uri = v; },
        None => {},
    }
    match item_value_exec(item, kr) {
        Some(v) => { f.response = v; },
        None => {},
    }
}

proof fn lemma_split_step(s: Seq<char>, i: int)
    requires
        0 <= i < s.len(),
    ensures
        split_char(s.take(i + 1), ',') == if s[i] == ',' {
            split_char(s.take(i), ',').push(Seq::empty())
        } else {
            let p = split_char(s.take(i), ',');
            p.update(p.len() - 1, p.last().push(s[i]))
        },
{
    assert(s.take(i + 1).drop_last() =~= s.take(i));
    assert(s.take(i + 1).last() == s[i]);
}

/// Reads the four fields out of an `Authorization` value.
fn digest_fields(header: &[char]) -> (f: DigestFields)
    ensures
        f.username@ == digest_field(header@, key_username()),
        f.nonce@ == digest_field(header@, key_nonce()),
        f.uri@ == digest_field(header@, key_uri()),
        f.response@ == digest_field(header@, key_response()),
{
    let prefix = vec!['D', 'i', 'g', 'e', 's', 't', ' '];
    assert(prefix@ =~= digest_prefix());
    let s = strip_prefix_all_exec(header, &prefix);
    let ku = vec!['u', 's', 'e', 'r', 'n', 'a', 'm', 'e'];
    let kn = vec!['n', 'o', 'n', 'c', 'e'];
    let ki = vec!['u', 'r', 'i'];
    let kr = vec!['r', 'e', 's', 'p', 'o', 'n', 's', 'e'];
    assert(ku@ =~= key_username());
    assert(kn@ =~= key_nonce());
    assert(ki@ =~= key_uri());
    assert(kr@ =~= key_response());
    let mut f = DigestFields {
        username: Vec::new(),
        nonce: Vec::new(),
        uri: Vec::new(),
        response: Vec::new(),
    };
    let mut cur: Vec<char> = Vec::new();
    let ghost mut done: Seq<Seq<char>> = Seq::empty();
    let mut i: usize = 0;
    assert(s@.take(0) =~= Seq::<char>::empty());
    assert(split_char(s@.take(0), ',') =~= seq![Seq::<char>::empty()]);
    assert(field_of(Seq::<Seq<char>>::empty(), key_username()) == Seq::<char>::empty());
    while i < s.len()
        invariant
            ku@ == key_username(),
            kn@ == key_nonce(),
            ki@ == key_uri(),
            kr@ == key_response(),
            i <= s@.len(),
            split_char(s@.take(i as int), ',') == done.push(cur@),
            f.username@ == field_of(done, key_username()),
            f.nonce@ == field_of(done, key_nonce()),
            f.uri@ == field_of(done, key_uri()),
            f.response@ == field_of(done, key_response()),
        decreases s@.len() - i,
    {
        proof {
            lemma_split_step(s@, i as int);
        }
        let c = s[i];
        if c == ',' {
            absorb_item(&mut f, &cur, &ku, &kn, &ki, &kr, Ghost(done));
            proof {
                done = done.push(cur@);
            }
            cur = Vec::new();
            assert(split_char(s@.take(i + 1), ',') =~= done.push(cur@));
        } else {
            let ghost before = cur@;
            cur.push(c);
            assert(split_char(s@.take(i + 1), ',') =~= done.push(cur@));
        }
        i = i + 1;
    }
    absorb_item(&mut f, &cur, &ku, &kn, &ki, &kr, Ghost(done));
    assert(s@.take(s@.len() as int) =~= s@);
    f
}

/// Checks an `Authorization` header value against the extension's password, for a
/// request with `method` (see `digest_header_valid`).
pub fn verify_digest_header(header: &str, password: &str, realm: &str, method: &str) -> (r: bool)
    ensures
        r == digest_header_valid(header@, password@, realm@, method@),
{
    let h = str_chars(header);
    let f = digest_fields(&h);
    if f.username.len() == 0 || f.nonce.len() == 0 || f.uri.len() == 0 || f.response.len() == 0 {
        return false;
    }
    let expected = compute_digest_response(
        &f.username,
        &str_chars(realm),
        &str_chars(password),
        &f.nonce,
        &str_chars(method),
        &f.uri,
    );
    chars_eq(&f.response, &expected)
}

/// The `username` an `Authorization` value gives (see `digest_field`); empty when
/// it gives none.
pub fn digest_username(header: &str) -> (r: String)
    ensures
        r@ == digest_field(header@, key_username()),
{
    let h = str_chars(header);
    let f = digest_fields(&h);
    chars_to_string(&f.username)
}

} // verus!
