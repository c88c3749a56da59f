//! Digest authentication of the answer a client gives to a challenge.

use vstd::prelude::*;
use crate::sip::digest::{
    digest_header_valid, digest_response, digest_prefix, digest_field, digest_items, item_value, field_of,
    key_username, key_nonce, key_uri, key_response,
};
use crate::text::{
    split_char, strip_prefix_all, lemma_split_join, lemma_split_none, trim_ws, trim_start_ws, trim_end_ws, trim_char, trim_start_char,
    trim_end_char, find_char, find_from, occurs_at, is_white_space,
};

verus! {

pub open spec fn key_realm() -> Seq<char> {
    seq!['r', 'e', 'a', 'l', 'm']
}

/// `key="value"`.
pub open spec fn quoted_item(key: Seq<char>, value: Seq<char>) -> Seq<char> {
    key + seq!['=', '"'] + value + seq!['"']
}

/// The `Authorization` value a client sends (RFC 2617, without `qop`):
/// `Digest username="..", realm="..", nonce="..", uri="..", response=".."`.
pub open spec fn client_authorization(
    username: Seq<char>,
    realm: Seq<char>,
    nonce: Seq<char>,
    uri: Seq<char>,
    response: Seq<char>,
) -> Seq<char> {
    digest_prefix() + client_items_text(username, realm, nonce, uri, response)
}

pub open spec fn client_items_text(
    username: Seq<char>,
    realm: Seq<char>,
    nonce: Seq<char>,
    uri: Seq<char>,
    response: Seq<char>,
) -> Seq<char> {
    quoted_item(key_username(), username) + seq![','] + (seq![' '] + quoted_item(key_realm(), realm))
        + seq![','] + (seq![' '] + quoted_item(key_nonce(), nonce)) + seq![','] + (seq![' ']
        + quoted_item(key_uri(), uri)) + seq![','] + (seq![' '] + quoted_item(key_response(), response))
}

/// A value that can stand between quotes in a header item: no `,` and no `"`.
pub open spec fn plain_value(v: Seq<char>) -> bool {
    !v.contains(',') && !v.contains('"')
}

proof fn lemma_find_char_at(t: Seq<char>, c: char, n: int, i: int)
    requires
        0 <= i <= n < t.len(),
        t[n] == c,
        forall|j: int| 0 <= j < n ==> t[j] != c,
    ensures
        find_from(t, seq![c], i) == Some(n),
    decreases n - i,
{
    assert(t.subrange(i, i + 1) =~= seq![t[i]]);
    if i < n {
        assert(!occurs_at(t, seq![c], i)) by {
            if occurs_at(t, seq![c], i) {
                assert(t.subrange(i, i + 1)[0] == seq![c][0]);
            }
        }
        lemma_find_char_at(t, c, n, i + 1);
    } else {
        assert(occurs_at(t, seq![c], i));
    }
}

/// `str::trim` leaves an item alone but for one leading space.
proof fn lemma_trim_item(sp: Seq<char>, t: Seq<char>)
    requires
        sp == Seq::<char>::empty() || sp == seq![' '],
        t.len() > 0,
        !is_white_space(t[0]),
        !is_white_space(t.last()),
    ensures
        trim_ws(sp + t) == t,
{
    assert(trim_start_ws(t) == t);
    assert(trim_end_ws(t) == t);
    if sp.len() == 1 {
        assert((sp + t)[0] == ' ');
        assert(is_white_space(' '));
        assert((sp + t).drop_first() =~= t);
    } else {
        assert(sp + t =~= t);
    }
    assert(trim_start_ws(sp + t) == t);
}

/// Removing the quotes around a value that holds none gives the value.
proof fn lemma_unquote(v: Seq<char>)
    requires
        !v.contains('"'),
    ensures
        trim_char(seq!['"'] + v + seq!['"'], '"') == v,
{
    let rest = seq!['"'] + v + seq!['"'];
    let w = v + seq!['"'];
    assert(rest[0] == '"');
    assert(rest.drop_first() =~= w);
    if v.len() > 0 {
        assert(w[0] == v[0]);
        assert(v[0] != '"') by {
            if v[0] == '"' {
                assert(v.contains('"'));
            }
        }
        assert(trim_start_char(w, '"') == w);
        assert(trim_start_char(rest, '"') == w);
        assert(w.last() == '"');
        assert(w.drop_last() =~= v);
        assert(v.last() != '"') by {
            if v.last() == '"' {
                assert(v[v.len() - 1] == '"');
                assert(v.contains('"'));
            }
        }
        assert(trim_end_char(v, '"') == v);
        assert(trim_end_char(w, '"') == v);
    } else {
        assert(w =~= seq!['"']);
        assert(w.drop_first() =~= Seq::<char>::empty());
        assert(w[0] == '"');
        assert(trim_start_char(Seq::<char>::empty(), '"') == Seq::<char>::empty());
        assert(trim_start_char(w, '"') == Seq::<char>::empty());
        assert(trim_start_char(rest, '"') == Seq::<char>::empty());
        assert(v =~= Seq::<char>::empty());
    }
}

/// The first `=` of `key="value"` ends the key.
proof fn lemma_first_eq(k: Seq<char>, v: Seq<char>)
    requires
        !k.contains('='),
    ensures
        find_char(quoted_item(k, v), '=') == Some(k.len() as int),
        quoted_item(k, v).take(k.len() as int) == k,
        quoted_item(k, v).skip(k.len() as int + 1) == seq!['"'] + v + seq!['"'],
{
    let t = quoted_item(k, v);
    let n = k.len() as int;
    assert(t[n] == '=');
    assert forall|j: int| 0 <= j < n implies t[j] != '=' by {
        assert(t[j] == k[j]);
        if k[j] == '=' {
            assert(k.contains('='));
        }
    }
    lemma_find_char_at(t, '=', n, 0);
    assert(t.take(n) =~= k);
    assert(t.skip(n + 1) =~= seq!['"'] + v + seq!['"']);
}

/// The item value of `key="value"`, with or without one leading space.
proof fn lemma_item_value(sp: Seq<char>, k: Seq<char>, v: Seq<char>, key: Seq<char>)
    requires
        sp == Seq::<char>::empty() || sp == seq![' '],
        k.len() > 0,
        !is_white_space(k[0]),
        !k.contains('='),
        !v.contains('"'),
    ensures
        item_value(sp + quoted_item(k, v), key) == if k == key { Some(v) } else { None::<Seq<char>> },
{
    let t = quoted_item(k, v);
    assert(t[0] == k[0]);
    assert(t.last() == '"');
    assert(!is_white_space('"'));
    lemma_trim_item(sp, t);
    lemma_first_eq(k, v);
    if k == key {
        lemma_unquote(v);
    }
}

proof fn lemma_no_comma_item(sp: Seq<char>, k: Seq<char>, v: Seq<char>)
    requires
        sp == Seq::<char>::empty() || sp == seq![' '],
        !k.contains(','),
        !v.contains(','),
    ensures
        !(sp + quoted_item(k, v)).contains(','),
{
    let s = sp + quoted_item(k, v);
    if s.contains(',') {
        let i = choose|i: int| 0 <= i < s.len() && s[i] == ',';
        let off = sp.len() as int;
        if i < off {
        } else if i < off + k.len() {
            assert(s[i] == k[i - off]);
            assert(k.contains(','));
        } else if i < off + k.len() + 2 {
        } else if i < off + k.len() + 2 + v.len() {
            assert(s[i] == v[i - off - k.len() - 2]);
            assert(v.contains(','));
        } else {
        }
    }
}

/// What the server reads out of a client's `Authorization` value: each field is the
/// value the client put there.
proof fn lemma_client_fields(
    username: Seq<char>,
    realm: Seq<char>,
    nonce: Seq<char>,
    uri: Seq<char>,
    response: Seq<char>,
)
    requires
        plain_value(username),
        plain_value(realm),
        plain_value(nonce),
        plain_value(uri),
        plain_value(response),
    ensures
        ({
            let h = client_authorization(username, realm, nonce, uri, response);
            &&& digest_field(h, key_username()) == username
            &&& digest_field(h, key_nonce()) == nonce
            &&& digest_field(h, key_uri()) == uri
            &&& digest_field(h, key_response()) == response
        }),
{
    let e = Seq::<char>::empty();
    let sp = seq![' '];
    let i1 = e + quoted_item(key_username(), username);
    let i2 = sp + quoted_item(key_realm(), realm);
    let i3 = sp + quoted_item(key_nonce(), nonce);
    let i4 = sp + quoted_item(key_uri(), uri);
    let i5 = sp + quoted_item(key_response(), response);
    let body = client_items_text(username, realm, nonce, uri, response);
    assert(body =~= i1 + seq![','] + i2 + seq![','] + i3 + seq![','] + i4 + seq![','] + i5);

    // The prefix is removed once: the items start with `u`, not `D`.
    let h = client_authorization(username, realm, nonce, uri, response);
    assert(h.take(7) =~= digest_prefix());
    assert(h.skip(7) =~= body);
    assert(body[0] == 'u');
    assert(body.take(7) != digest_prefix()) by {
        assert(body.take(7)[0] == 'u');
    }
    assert(strip_prefix_all(body, digest_prefix()) == body);
    assert(strip_prefix_all(h, digest_prefix()) == body);

    // Split at the commas.
    assert(!key_username().contains(',')) by {
        if key_username().contains(',') {
            let j = choose|j: int| 0 <= j < key_username().len() && key_username()[j] == ',';
        }
    }
    assert(!key_realm().contains(',')) by {
        if key_realm().contains(',') {
            let j = choose|j: int| 0 <= j < key_realm().len() && key_realm()[j] == ',';
        }
    }
    assert(!key_nonce().contains(',')) by {
        if key_nonce().contains(',') {
            let j = choose|j: int| 0 <= j < key_nonce().len() && key_nonce()[j] == ',';
        }
    }
    assert(!key_uri().contains(',')) by {
        if key_uri().contains(',') {
            let j = choose|j: int| 0 <= j < key_uri().len() && key_uri()[j] == ',';
        }
    }
    assert(!key_response().contains(',')) by {
        if key_response().contains(',') {
            let j = choose|j: int| 0 <= j < key_response().len() && key_response()[j] == ',';
        }
    }
    lemma_no_comma_item(e, key_username(), username);
    lemma_no_comma_item(sp, key_realm(), realm);
    lemma_no_comma_item(sp, key_nonce(), nonce);
    lemma_no_comma_item(sp, key_uri(), uri);
    lemma_no_comma_item(sp, key_response(), response);
    lemma_split_none(i1, ',');
    lemma_split_none(i2, ',');
    lemma_split_none(i3, ',');
    lemma_split_none(i4, ',');
    lemma_split_none(i5, ',');
    lemma_split_join(i1, i2, ',');
    lemma_split_join(i1 + seq![','] + i2, i3, ',');
    lemma_split_join(i1 + seq![','] + i2 + seq![','] + i3, i4, ',');
    lemma_split_join(i1 + seq![','] + i2 + seq![','] + i3 + seq![','] + i4, i5, ',');
    let items = digest_items(h);
    assert(items =~= seq![i1, i2, i3, i4, i5]);

    // What each item gives to each key.
    assert(!key_username().contains('=')) by {
        if key_username().contains('=') {
            let j = choose|j: int| 0 <= j < key_username().len() && key_username()[j] == '=';
        }
    }
    assert(!key_realm().contains('=')) by {
        if key_realm().contains('=') {
            let j = choose|j: int| 0 <= j < key_realm().len() && key_realm()[j] == '=';
        }
    }
    assert(!key_nonce().contains('=')) by {
        if key_nonce().contains('=') {
            let j = choose|j: int| 0 <= j < key_nonce().len() && key_nonce()[j] == '=';
        }
    }
    assert(!key_uri().contains('=')) by {
        if key_uri().contains('=') {
            let j = choose|j: int| 0 <= j < key_uri().len() && key_uri()[j] == '=';
        }
    }
    assert(!key_response().contains('=')) by {
        if key_response().contains('=') {
            let j = choose|j: int| 0 <= j < key_response().len() && key_response()[j] == '=';
        }
    }
    assert(key_username() != key_nonce());
    assert(key_username() != key_uri());
    assert(key_username() != key_response()) by {
        assert(key_username()[0] != key_response()[0]);
    }
    assert(key_realm() != key_username());
    assert(key_realm() != key_nonce()) by {
        assert(key_realm()[0] != key_nonce()[0]);
    }
    assert(key_realm() != key_uri());
    assert(key_realm() != key_response());
    assert(key_nonce() != key_uri());
    assert(key_nonce() != key_response());
    assert(key_uri() != key_response());
    assert(!is_white_space('u'));
    assert(!is_white_space('r'));
    assert(!is_white_space('n'));
    lemma_item_value(e, key_username(), username, key_username());
    lemma_item_value(e, key_username(), username, key_nonce());
    lemma_item_value(e, key_username(), username, key_uri());
    lemma_item_value(e, key_username(), username, key_response());
    lemma_item_value(sp, key_realm(), realm, key_username());
    lemma_item_value(sp, key_realm(), realm, key_nonce());
    lemma_item_value(sp, key_realm(), realm, key_uri());
    lemma_item_value(sp, key_realm(), realm, key_response());
    lemma_item_value(sp, key_nonce(), nonce, key_username());
    lemma_item_value(sp, key_nonce(), nonce, key_nonce());
    lemma_item_value(sp, key_nonce(), nonce, key_uri());
    lemma_item_value(sp, key_nonce(), nonce, key_response());
    lemma_item_value(sp, key_uri(), uri, key_username());
    lemma_item_value(sp, key_uri(), uri, key_nonce());
    lemma_item_value(sp, key_uri(), uri, key_uri());
    lemma_item_value(sp, key_uri(), uri, key_response());
    lemma_item_value(sp, key_response(), response, key_username());
    lemma_item_value(sp, key_response(), response, key_nonce());
    lemma_item_value(sp, key_response(), response, key_uri());
    lemma_item_value(sp, key_response(), response, key_response());

    // The last item that sets a key wins.
    let s4 = seq![i1, i2, i3, i4];
    let s3 = seq![i1, i2, i3];
    let s2 = seq![i1, i2];
    let s1 = seq![i1];
    assert(items.drop_last() =~= s4);
    assert(s4.drop_last() =~= s3);
    assert(s3.drop_last() =~= s2);
    assert(s2.drop_last() =~= s1);
    assert(field_of(items, key_response()) == response);
    assert(field_of(s4, key_uri()) == uri);
    assert(field_of(items, key_uri()) == uri);
    assert(field_of(s3, key_nonce()) == nonce);
    assert(field_of(s4, key_nonce()) == nonce);
    assert(field_of(items, key_nonce()) == nonce);
    assert(field_of(s1, key_username()) == username);
    assert(field_of(s2, key_username()) == username);
    assert(field_of(s3, key_username()) == username);
    assert(field_of(s4, key_username()) == username);
    assert(field_of(items, key_username()) == username);
}

/// A client that answers the challenge as RFC 2617 describes is accepted exactly
/// when its `response` is the digest of its username, the server's realm, the
/// extension's password, the nonce, the request method and the URI: the right
/// password authenticates, any other response is refused.
pub proof fn law_digest_accepts_exactly_the_client_digest(
    username: Seq<char>,
    realm: Seq<char>,
    password: Seq<char>,
    nonce: Seq<char>,
    method: Seq<char>,
    uri: Seq<char>,
    response: Seq<char>,
)
    requires
        plain_value(username),
        plain_value(realm),
        plain_value(nonce),
        plain_value(uri),
        plain_value(response),
        username.len() > 0,
        nonce.len() > 0,
        uri.len() > 0,
        response.len() > 0,
    ensures
        digest_header_valid(client_authorization(username, realm, nonce, uri, response), password, realm, method)
            <==> response == digest_response(username, realm, password, nonce, method, uri),
{
    lemma_client_fields(username, realm, nonce, uri, response);
}

// ---------------------------------------------------------------------------
// Where the items stand.
// ---------------------------------------------------------------------------

/// When exactly one item of an `Authorization` value sets `key`, the field is that
/// item's value, wherever the item stands; when none does, the field is empty. So
/// with distinct keys the order of the items does not matter.
pub proof fn law_digest_field_is_the_item_that_sets_it(items: Seq<Seq<char>>, key: Seq<char>, i: int)
    requires
        0 <= i < items.len(),
        item_value(items[i], key) is Some,
        forall|j: int| 0 <= j < items.len() && j != i ==> #[trigger] item_value(items[j], key) is None,
    ensures
        field_of(items, key) == item_value(items[i], key)->0,
    decreases items.len(),
{
    let n = items.len() - 1;
    assert(items.last() == items[n]);
    if i < n {
        let init = items.drop_last();
        assert forall|j: int| 0 <= j < init.len() && j != i implies #[trigger] item_value(init[j], key) is None by {
            assert(init[j] == items[j]);
        }
        assert(init[i] == items[i]);
        law_digest_field_is_the_item_that_sets_it(init, key, i);
    }
}

/// When no item sets `key`, the field is empty.
pub proof fn law_digest_field_unset_is_empty(items: Seq<Seq<char>>, key: Seq<char>)
    requires
        forall|j: int| 0 <= j < items.len() ==> #[trigger] item_value(items[j], key) is None,
    ensures
        field_of(items, key) == Seq::<char>::empty(),
    decreases items.len(),
{
    if items.len() > 0 {
        let init = items.drop_last();
        assert(items.last() == items[items.len() - 1]);
        assert forall|j: int| 0 <= j < init.len() implies #[trigger] item_value(init[j], key) is None by {
            assert(init[j] == items[j]);
        }
        law_digest_field_unset_is_empty(init, key);
    }
}

/// An item that does not set `key`, such as a `realm=` item for the four fields
/// the check reads, changes nothing of that field wherever it is added (and so
/// wherever it is removed or changed).
pub proof fn law_digest_other_items_ignored(
    items: Seq<Seq<char>>,
    pos: int,
    extra: Seq<char>,
    key: Seq<char>,
)
    requires
        0 <= pos <= items.len(),
        item_value(extra, key) is None,
    ensures
        field_of(items.insert(pos, extra), key) == field_of(items, key),
    decreases items.len(),
{
    let ins = items.insert(pos, extra);
    if pos == items.len() {
        assert(ins.last() == extra);
        assert(ins.drop_last() =~= items);
    } else {
        assert(ins.last() == items.last());
        assert(ins.drop_last() =~= items.drop_last().insert(pos, extra));
        law_digest_other_items_ignored(items.drop_last(), pos, extra, key);
    }
}

/// A `realm=` item sets none of the fields the check reads: the realm the check
/// uses is the server's own.
pub proof fn law_digest_realm_item_sets_no_checked_field(sp: Seq<char>, realm: Seq<char>)
    requires
        sp == Seq::<char>::empty() || sp == seq![' '],
        !realm.contains('"'),
    ensures
        item_value(sp + quoted_item(key_realm(), realm), key_username()) is None,
        item_value(sp + quoted_item(key_realm(), realm), key_nonce()) is None,
        item_value(sp + quoted_item(key_realm(), realm), key_uri()) is None,
        item_value(sp + quoted_item(key_realm(), realm), key_response()) is None,
{
    assert(!key_realm().contains('=')) by {
        if key_realm().contains('=') {
            let j = choose|j: int| 0 <= j < key_realm().len() && key_realm()[j] == '=';
        }
    }
    assert(!is_white_space('r'));
    assert(key_realm() != key_nonce()) by {
        assert(key_realm()[0] != key_nonce()[0]);
    }
    lemma_item_value(sp, key_realm(), realm, key_username());
    lemma_item_value(sp, key_realm(), realm, key_nonce());
    lemma_item_value(sp, key_realm(), realm, key_uri());
    lemma_item_value(sp, key_realm(), realm, key_response());
}

/// Items joined by `, `.
pub open spec fn join_items(ps: Seq<Seq<char>>) -> Seq<char>
    decreases ps.len(),
{
    if ps.len() == 0 {
        Seq::empty()
    } else if ps.len() == 1 {
        ps[0]
    } else {
        join_items(ps.drop_last()) + seq![','] + (seq![' '] + ps.last())
    }
}

/// The items as splitting at commas gives them back: all but the first keep the
/// space that followed the comma.
pub open spec fn spaced_items(ps: Seq<Seq<char>>) -> Seq<Seq<char>> {
    Seq::new(ps.len(), |i: int| if i == 0 { ps[0] } else { seq![' '] + ps[i] })
}

proof fn lemma_split_joined(ps: Seq<Seq<char>>)
    requires
        ps.len() >= 1,
        forall|i: int| 0 <= i < ps.len() ==> !(#[trigger] ps[i]).contains(','),
    ensures
        split_char(join_items(ps), ',') == spaced_items(ps),
    decreases ps.len(),
{
    if ps.len() == 1 {
        lemma_split_none(ps[0], ',');
        assert(spaced_items(ps) =~= seq![ps[0]]);
    } else {
        let init = ps.drop_last();
        assert forall|i: int| 0 <= i < init.len() implies !(#[trigger] init[i]).contains(',') by {
            assert(init[i] == ps[i]);
        }
        lemma_split_joined(init);
        let last = seq![' '] + ps.last();
        assert(ps.last() == ps[ps.len() - 1]);
        assert(!last.contains(',')) by {
            if last.contains(',') {
                let k = choose|k: int| 0 <= k < last.len() && last[k] == ',';
                assert(ps.last()[k - 1] == ',');
                assert(ps.last().contains(','));
            }
        }
        lemma_split_join(join_items(init), last, ',');
        lemma_split_none(last, ',');
        assert(spaced_items(init) + seq![last] =~= spaced_items(ps));
    }
}

proof fn lemma_spaced_item_value(p: Seq<char>, key: Seq<char>)
    ensures
        item_value(seq![' '] + p, key) == item_value(p, key),
{
    let q = seq![' '] + p;
    assert(is_white_space(' '));
    assert(q[0] == ' ');
    assert(q.drop_first() =~= p);
    assert(trim_start_ws(q) == trim_start_ws(p));
}

proof fn lemma_spaced_fields(ps: Seq<Seq<char>>, key: Seq<char>)
    ensures
        field_of(spaced_items(ps), key) == field_of(ps, key),
    decreases ps.len(),
{
    if ps.len() > 0 {
        let sp = spaced_items(ps);
        let init = ps.drop_last();
        assert(sp.drop_last() =~= spaced_items(init));
        lemma_spaced_fields(init, key);
        assert(sp.last() == sp[ps.len() - 1]);
        assert(ps.last() == ps[ps.len() - 1]);
        if ps.len() > 1 {
            lemma_spaced_item_value(ps.last(), key);
        }
    }
}

/// An `Authorization` value written as `Digest ` and comma-free items joined by
/// `, ` is read item by item: each field is what `field_of` gives for those items.
/// With the laws above, a field set by one item is that item's value wherever it
/// stands, so the items may come in any order, and `realm=` items count for
/// nothing.
pub proof fn law_digest_header_reads_its_items(ps: Seq<Seq<char>>, key: Seq<char>)
    requires
        ps.len() >= 1,
        forall|i: int| 0 <= i < ps.len() ==> !(#[trigger] ps[i]).contains(','),
        !(join_items(ps).len() >= 7 && join_items(ps).take(7) == digest_prefix()),
    ensures
        digest_field(digest_prefix() + join_items(ps), key) == field_of(ps, key),
{
    let j = join_items(ps);
    let h = digest_prefix() + j;
    assert(h.take(7) =~= digest_prefix());
    assert(h.skip(7) =~= j);
    assert(strip_prefix_all(j, digest_prefix()) == j);
    assert(strip_prefix_all(h, digest_prefix()) == j);
    lemma_split_joined(ps);
    lemma_spaced_fields(ps, key);
}

/// No two items set the same key.
pub open spec fn distinct_keys(ps: Seq<Seq<char>>) -> bool {
    forall|i: int, j: int, k: Seq<char>|
        0 <= i < ps.len() && 0 <= j < ps.len() && i != j && (#[trigger] item_value(ps[i], k)) is Some
            ==> (#[trigger] item_value(ps[j], k)) is None
}

proof fn lemma_member_index(s: Seq<Seq<char>>, x: Seq<char>) -> (i: int)
    requires
        s.to_multiset().count(x) > 0,
    ensures
        0 <= i < s.len(),
        s[i] == x,
{
    broadcast use vstd::seq_lib::to_multiset_contains;
    assert(s.contains(x));
    choose|i: int| 0 <= i < s.len() && s[i] == x
}

/// Items with distinct keys give the same fields in any order.
proof fn lemma_fields_permuted(ps: Seq<Seq<char>>, qs: Seq<Seq<char>>, key: Seq<char>)
    requires
        distinct_keys(ps),
        ps.to_multiset() == qs.to_multiset(),
    ensures
        field_of(ps, key) == field_of(qs, key),
{
    broadcast use vstd::seq_lib::to_multiset_contains;
    if exists|i: int| 0 <= i < ps.len() && (#[trigger] item_value(ps[i], key)) is Some {
        let i = choose|i: int| 0 <= i < ps.len() && (#[trigger] item_value(ps[i], key)) is Some;
        assert(ps.to_multiset().count(ps[i]) > 0) by {
            assert(ps.contains(ps[i]));
        }
        let j = lemma_member_index(qs, ps[i]);
        assert forall|j2: int| 0 <= j2 < qs.len() && j2 != j implies #[trigger] item_value(qs[j2], key) is None by {
            if item_value(qs[j2], key) is Some {
                assert(qs.contains(qs[j2]));
                let i2 = lemma_member_index(ps, qs[j2]);
                assert(i2 == i);
                // The item stands twice in `qs`, so twice in `ps`.
                let r = qs.remove(j);
                vstd::seq_lib::to_multiset_remove(qs, j);
                vstd::seq_lib::to_multiset_remove(ps, i);
                let k = if j2 < j { j2 } else { j2 - 1 };
                assert(r[k] == qs[j2]);
                assert(r.contains(ps[i]));
                assert(r.to_multiset().count(ps[i]) > 0);
                let pr = ps.remove(i);
                assert(pr.to_multiset() == r.to_multiset());
                let i3 = lemma_member_index(pr, ps[i]);
                let i4 = if i3 < i { i3 } else { i3 + 1 };
                assert(ps[i4] == ps[i]);
                assert(i4 != i);
                assert(item_value(ps[i4], key) is Some);
            }
        }
        law_digest_field_is_the_item_that_sets_it(ps, key, i);
        law_digest_field_is_the_item_that_sets_it(qs, key, j);
    } else {
        assert forall|j: int| 0 <= j < qs.len() implies #[trigger] item_value(qs[j], key) is None by {
            assert(qs.contains(qs[j]));
            let i = lemma_member_index(ps, qs[j]);
        }
        law_digest_field_unset_is_empty(ps, key);
        law_digest_field_unset_is_empty(qs, key);
    }
}

/// The digest check gives the same answer whatever order the items of the
/// `Authorization` value come in, when no two of them set the same key: `Digest `
/// and the items joined by `, `, and the same with the items permuted.
pub proof fn law_digest_check_ignores_item_order(
    ps: Seq<Seq<char>>,
    qs: Seq<Seq<char>>,
    password: Seq<char>,
    realm: Seq<char>,
    method: Seq<char>,
)
    requires
        ps.len() >= 1,
        forall|i: int| 0 <= i < ps.len() ==> !(#[trigger] ps[i]).contains(','),
        distinct_keys(ps),
        ps.to_multiset() == qs.to_multiset(),
        !(join_items(ps).len() >= 7 && join_items(ps).take(7) == digest_prefix()),
        !(join_items(qs).len() >= 7 && join_items(qs).take(7) == digest_prefix()),
    ensures
        digest_header_valid(digest_prefix() + join_items(ps), password, realm, method)
            == digest_header_valid(digest_prefix() + join_items(qs), password, realm, method),
{
    broadcast use vstd::seq_lib::to_multiset_contains;
    vstd::seq_lib::to_multiset_len(ps);
    vstd::seq_lib::to_multiset_len(qs);
    assert(qs.len() == ps.len());
    assert forall|j: int| 0 <= j < qs.len() implies !(#[trigger] qs[j]).contains(',') by {
        assert(qs.contains(qs[j]));
        let i = lemma_member_index(ps, qs[j]);
    }
    law_digest_header_reads_its_items(ps, key_username());
    law_digest_header_reads_its_items(qs, key_username());
    law_digest_header_reads_its_items(ps, key_nonce());
    law_digest_header_reads_its_items(qs, key_nonce());
    law_digest_header_reads_its_items(ps, key_uri());
    law_digest_header_reads_its_items(qs, key_uri());
    law_digest_header_reads_its_items(ps, key_response());
    law_digest_header_reads_its_items(qs, key_response());
    lemma_fields_permuted(ps, qs, key_username());
    lemma_fields_permuted(ps, qs, key_nonce());
    lemma_fields_permuted(ps, qs, key_uri());
    lemma_fields_permuted(ps, qs, key_response());
}

/// Adding a `realm="..."` item anywhere in the `Authorization` value (and so
/// removing or changing one) leaves the digest check's answer as it was: only the
/// server's realm counts.
pub proof fn law_digest_check_ignores_realm_items(
    ps: Seq<Seq<char>>,
    pos: int,
    value: Seq<char>,
    password: Seq<char>,
    realm: Seq<char>,
    method: Seq<char>,
)
    requires
        ps.len() >= 1,
        0 <= pos <= ps.len(),
        forall|i: int| 0 <= i < ps.len() ==> !(#[trigger] ps[i]).contains(','),
        plain_value(value),
        !(join_items(ps).len() >= 7 && join_items(ps).take(7) == digest_prefix()),
        ({
            let qs = ps.insert(pos, quoted_item(key_realm(), value));
            !(join_items(qs).len() >= 7 && join_items(qs).take(7) == digest_prefix())
        }),
    ensures
        digest_header_valid(digest_prefix() + join_items(ps), password, realm, method)
            == digest_header_valid(
            digest_prefix() + join_items(ps.insert(pos, quoted_item(key_realm(), value))),
            password,
            realm,
            method,
        ),
{
    let r = quoted_item(key_realm(), value);
    let qs = ps.insert(pos, r);
    assert(!key_realm().contains(',')) by {
        if key_realm().contains(',') {
            let j = choose|j: int| 0 <= j < key_realm().len() && key_realm()[j] == ',';
        }
    }
    lemma_no_comma_item(Seq::<char>::empty(), key_realm(), value);
    assert(Seq::<char>::empty() + r =~= r);
    assert forall|i: int| 0 <= i < qs.len() implies !(#[trigger] qs[i]).contains(',') by {
        if i < pos {
            assert(qs[i] == ps[i]);
        } else if i > pos {
            assert(qs[i] == ps[i - 1]);
        }
    }
    law_digest_realm_item_sets_no_checked_field(Seq::<char>::empty(), value);
    law_digest_other_items_ignored(ps, pos, r, key_username());
    law_digest_other_items_ignored(ps, pos, r, key_nonce());
    law_digest_other_items_ignored(ps, pos, r, key_uri());
    law_digest_other_items_ignored(ps, pos, r, key_response());
    law_digest_header_reads_its_items(ps, key_username());
    law_digest_header_reads_its_items(qs, key_username());
    law_digest_header_reads_its_items(ps, key_nonce());
    law_digest_header_reads_its_items(qs, key_nonce());
    law_digest_header_reads_its_items(ps, key_uri());
    law_digest_header_reads_its_items(qs, key_uri());
    law_digest_header_reads_its_items(ps, key_response());
    law_digest_header_reads_its_items(qs, key_response());
}

} // verus!
