//! Character-sequence helpers shared by the protocol and administration code.

use vstd::prelude::*;
use vstd::utf8::*;

verus! {

broadcast use vstd::seq_lib::group_seq_properties;

/// Whether `c` has the Unicode `White_Space` property (what `char::is_whitespace` tests).
pub open spec fn is_white_space(c: char) -> bool {
    ||| ('\u{9}' <= c && c <= '\u{d}')
    ||| c == ' '
    ||| c == '\u{85}'
    ||| c == '\u{a0}'
    ||| c == '\u{1680}'
    ||| ('\u{2000}' <= c && c <= '\u{200a}')
    ||| c == '\u{2028}'
    ||| c == '\u{2029}'
    ||| c == '\u{202f}'
    ||| c == '\u{205f}'
    ||| c == '\u{3000}'
}

pub fn char_is_white_space(c: char) -> (r: bool)
    ensures
        r == is_white_space(c),
{
    ('\u{9}' <= c && c <= '\u{d}') || c == ' ' || c == '\u{85}' || c == '\u{a0}' || c == '\u{1680}'
        || ('\u{2000}' <= c && c <= '\u{200a}') || c == '\u{2028}' || c == '\u{2029}' || c
        == '\u{202f}' || c == '\u{205f}' || c == '\u{3000}'
}

// ---------------------------------------------------------------------------
// Conversions between `str`/`String` and character vectors.
// ---------------------------------------------------------------------------

/// The characters of `s`, in order (`str::chars` collected into a vector).
#[verifier::external_body]
pub(crate) fn str_chars(s: &str) -> (res: Vec<char>)
    ensures
        res@ == s@,
{
    s.chars().collect()
}

/// The string made of the characters of `v` (`String: FromIterator<char>`).
#[verifier::external_body]
pub(crate) fn chars_to_string(v: &[char]) -> (res: String)
    ensures
        res@ == v@,
{
    v.iter().collect()
}

/// What `String::from_utf8_lossy` gives for `bytes`: the decoded text, with each
/// ill-formed subsequence replaced by U+FFFD.
pub uninterp spec fn utf8_lossy(bytes: Seq<u8>) -> Seq<char>;

/// `String::from_utf8_lossy`, made owned. Its documentation states that valid UTF-8
/// comes back unchanged; how ill-formed input is replaced is left to the name
/// `utf8_lossy`.
#[verifier::external_body]
pub(crate) fn lossy_text(bytes: &[u8]) -> (res: Vec<char>)
    ensures
        res@ == utf8_lossy(bytes@),
        valid_utf8(bytes@) ==> res@ == decode_utf8(bytes@),
{
    String::from_utf8_lossy(bytes).chars().collect()
}

/// `std::str::from_utf8`: the text of `bytes` when they are valid UTF-8.
#[verifier::external_body]
pub(crate) fn utf8_text(bytes: &[u8]) -> (r: Option<Vec<char>>)
    ensures
        r is Some <==> valid_utf8(bytes@),
        r matches Some(v) ==> v@ == decode_utf8(bytes@),
{
    match std::str::from_utf8(bytes) {
        Ok(s) => Some(s.chars().collect()),
        Err(_) => None,
    }
}

/// The UTF-8 encoding of `v`.
pub fn chars_utf8(v: &[char]) -> (res: Vec<u8>)
    ensures
        res@ == encode_utf8(v@),
{
    let s = chars_to_string(v);
    s.as_str().as_bytes_vec()
}

/// Appends `tail` to `v`.
pub fn push_all<T: Copy>(v: &mut Vec<T>, tail: &[T])
    ensures
        final(v)@ == old(v)@ + tail@,
{
    let mut t = vstd::slice::slice_to_vec(tail);
    v.append(&mut t);
}

/// Character-wise equality of two sequences.
pub fn chars_eq(a: &[char], b: &[char]) -> (r: bool)
    ensures
        r == (a@ == b@),
{
    if a.len() != b.len() {
        return false;
    }
    let mut i: usize = 0;
    while i < a.len()
        invariant
            a@.len() == b@.len(),
            i <= a@.len(),
            forall|j: int| 0 <= j < i ==> a@[j] == b@[j],
        decreases a@.len() - i,
    {
        if a[i] != b[i] {
            return false;
        }
        i = i + 1;
    }
    assert(a@ =~= b@);
    true
}

// ---------------------------------------------------------------------------
// Searching.
// ---------------------------------------------------------------------------

/// `p` occurs in `s` starting at index `i`.
pub open spec fn occurs_at<T>(s: Seq<T>, p: Seq<T>, i: int) -> bool {
    0 <= i && i + p.len() <= s.len() && s.subrange(i, i + p.len()) == p
}

/// The first index at or after `i` where `p` occurs in `s` (what `str::find` gives,
/// counted in characters, for `i == 0`).
pub open spec fn find_from<T>(s: Seq<T>, p: Seq<T>, i: int) -> Option<int>
    decreases s.len() + 1 - i,
{
    if i < 0 || i + p.len() > s.len() {
        None
    } else if occurs_at(s, p, i) {
        Some(i)
    } else {
        find_from(s, p, i + 1)
    }
}

pub open spec fn find_first<T>(s: Seq<T>, p: Seq<T>) -> Option<int> {
    find_from(s, p, 0)
}

pub proof fn lemma_find_from<T>(s: Seq<T>, p: Seq<T>, i: int)
    requires
        0 <= i,
    ensures
        find_from(s, p, i) matches Some(k) ==> i <= k && occurs_at(s, p, k) && forall|j: int|
            i <= j < k ==> !occurs_at(s, p, j),
        find_from(s, p, i) is None ==> forall|j: int| i <= j ==> !occurs_at(s, p, j),
    decreases s.len() + 1 - i,
{
    if i + p.len() > s.len() {
    } else if occurs_at(s, p, i) {
    } else {
        lemma_find_from(s, p, i + 1);
    }
}

/// The first index at or after `from` where `p` occurs in `s`.
pub fn find_seq(s: &[char], p: &[char], from: usize) -> (r: Option<usize>)
    ensures
        r matches Some(k) ==> find_from(s@, p@, from as int) == Some(k as int),
        r is None ==> find_from(s@, p@, from as int) is None,
{
    let mut i = from;
    if p.len() == 0 {
        if from <= s.len() {
            assert(occurs_at(s@, p@, from as int)) by {
                assert(s@.subrange(from as int, from as int) =~= p@);
            }
        }
        return if from <= s.len() { Some(from) } else { None };
    }
    let slen = s.len();
    while i <= slen && p.len() <= slen - i
        invariant
            slen == s@.len(),
            from <= i,
            p@.len() > 0,
            find_from(s@, p@, from as int) == find_from(s@, p@, i as int),
        decreases s@.len() + 1 - i,
    {
        let mut j: usize = 0;
        let mut matched = true;
        while j < p.len()
            invariant
                slen == s@.len(),
                i + p@.len() <= s@.len(),
                p@.len() > 0,
                j <= p@.len(),
                matched ==> forall|k: int| 0 <= k < j ==> s@[i + k] == p@[k],
                !matched ==> !occurs_at(s@, p@, i as int),
            decreases p@.len() - j,
        {
            if s[i + j] != p[j] {
                matched = false;
                assert(s@.subrange(i as int, i + p@.len())[j as int] != p@[j as int]);
            }
            j = j + 1;
        }
        if matched {
            assert(s@.subrange(i as int, i + p@.len()) =~= p@);
            return Some(i);
        }
        i = i + 1;
    }
    None
}

/// The first index at or after `from` where the bytes `p` occur in `s`.
pub fn find_bytes(s: &[u8], p: &[u8], from: usize) -> (r: Option<usize>)
    ensures
        r matches Some(k) ==> find_from(s@, p@, from as int) == Some(k as int),
        r is None ==> find_from(s@, p@, from as int) is None,
{
    let mut i = from;
    if p.len() == 0 {
        if from <= s.len() {
            assert(occurs_at(s@, p@, from as int)) by {
                assert(s@.subrange(from as int, from as int) =~= p@);
            }
        }
        return if from <= s.len() { Some(from) } else { None };
    }
    let slen = s.len();
    while i <= slen && p.len() <= slen - i
        invariant
            slen == s@.len(),
            from <= i,
            p@.len() > 0,
            find_from(s@, p@, from as int) == find_from(s@, p@, i as int),
        decreases s@.len() + 1 - i,
    {
        let mut j: usize = 0;
        let mut matched = true;
        while j < p.len()
            invariant
                slen == s@.len(),
                i + p@.len() <= s@.len(),
                p@.len() > 0,
                j <= p@.len(),
                matched ==> forall|k: int| 0 <= k < j ==> s@[i + k] == p@[k],
                !matched ==> !occurs_at(s@, p@, i as int),
            decreases p@.len() - j,
        {
            if s[i + j] != p[j] {
                matched = false;
                assert(s@.subrange(i as int, i + p@.len())[j as int] != p@[j as int]);
            }
            j = j + 1;
        }
        if matched {
            assert(s@.subrange(i as int, i + p@.len()) =~= p@);
            return Some(i);
        }
        i = i + 1;
    }
    None
}

/// The first index of character `c` in `s`.
pub open spec fn find_char(s: Seq<char>, c: char) -> Option<int> {
    find_first(s, seq![c])
}

// ---------------------------------------------------------------------------
// Trimming and splitting.
// ---------------------------------------------------------------------------

/// `s` with every leading `c` removed (`str::trim_start_matches` with a character).
pub open spec fn trim_start_char(s: Seq<char>, c: char) -> Seq<char>
    decreases s.len(),
{
    if s.len() > 0 && s[0] == c {
        trim_start_char(s.drop_first(), c)
    } else {
        s
    }
}

/// `s` with every trailing `c` removed (`str::trim_end_matches` with a character).
pub open spec fn trim_end_char(s: Seq<char>, c: char) -> Seq<char>
    decreases s.len(),
{
    if s.len() > 0 && s.last() == c {
        trim_end_char(s.drop_last(), c)
    } else {
        s
    }
}

/// `str::trim_matches` with a character: both ends.
pub open spec fn trim_char(s: Seq<char>, c: char) -> Seq<char> {
    trim_end_char(trim_start_char(s, c), c)
}

/// `s` without leading white space.
pub open spec fn trim_start_ws(s: Seq<char>) -> Seq<char>
    decreases s.len(),
{
    if s.len() > 0 && is_white_space(s[0]) {
        trim_start_ws(s.drop_first())
    } else {
        s
    }
}

/// `s` without trailing white space.
pub open spec fn trim_end_ws(s: Seq<char>) -> Seq<char>
    decreases s.len(),
{
    if s.len() > 0 && is_white_space(s.last()) {
        trim_end_ws(s.drop_last())
    } else {
        s
    }
}

/// `str::trim`: `s` without white space at either end.
pub open spec fn trim_ws(s: Seq<char>) -> Seq<char> {
    trim_end_ws(trim_start_ws(s))
}

/// `s` with every leading copy of `p` removed (`str::trim_start_matches` with a string).
pub open spec fn strip_prefix_all(s: Seq<char>, p: Seq<char>) -> Seq<char>
    decreases s.len(),
{
    if p.len() > 0 && p.len() <= s.len() && s.take(p.len() as int) == p {
        strip_prefix_all(s.skip(p.len() as int), p)
    } else {
        s
    }
}

/// The pieces of `s` between occurrences of `c` (`str::split` with a character).
pub open spec fn split_char<T>(s: Seq<T>, c: T) -> Seq<Seq<T>>
    decreases s.len(),
{
    if s.len() == 0 {
        seq![Seq::empty()]
    } else {
        let prev = split_char(s.drop_last(), c);
        if s.last() == c {
            prev.push(Seq::empty())
        } else {
            prev.update(prev.len() - 1, prev.last().push(s.last()))
        }
    }
}

pub proof fn lemma_split_char_nonempty<T>(s: Seq<T>, c: T)
    ensures
        split_char(s, c).len() >= 1,
    decreases s.len(),
{
    if s.len() > 0 {
        lemma_split_char_nonempty(s.drop_last(), c);
    }
}

/// Splitting `a`, `c`, `b` at `c` gives the pieces of `a`, then those of `b`.
pub proof fn lemma_split_join<T>(a: Seq<T>, b: Seq<T>, c: T)
    ensures
        split_char(a + seq![c] + b, c) == split_char(a, c) + split_char(b, c),
    decreases b.len(),
{
    if b.len() == 0 {
        assert(a + seq![c] + b =~= a.push(c));
        assert((a.push(c)).drop_last() =~= a);
        assert(split_char(b, c) =~= seq![Seq::<T>::empty()]);
        assert(split_char(a, c).push(Seq::empty()) =~= split_char(a, c) + split_char(b, c));
    } else {
        let s = a + seq![c] + b;
        let b2 = b.drop_last();
        assert(s.drop_last() =~= a + seq![c] + b2);
        assert(s.last() == b.last());
        lemma_split_join(a, b2, c);
        lemma_split_char_nonempty(b2, c);
        lemma_split_char_nonempty(a, c);
        let pa = split_char(a, c);
        let pb = split_char(b2, c);
        if b.last() == c {
            assert((pa + pb).push(Seq::empty()) =~= pa + pb.push(Seq::empty()));
        } else {
            let p = pa + pb;
            assert(p.update(p.len() - 1, p.last().push(b.last())) =~= pa + pb.update(
                pb.len() - 1,
                pb.last().push(b.last()),
            ));
        }
    }
}

/// A sequence without `c` is one piece.
pub proof fn lemma_split_none<T>(s: Seq<T>, c: T)
    requires
        !s.contains(c),
    ensures
        split_char(s, c) == seq![s],
    decreases s.len(),
{
    if s.len() > 0 {
        assert(s.drop_last().len() < s.len());
        assert(!s.drop_last().contains(c)) by {
            if s.drop_last().contains(c) {
                let i = choose|i: int| 0 <= i < s.drop_last().len() && s.drop_last()[i] == c;
                assert(s[i] == c);
            }
        }
        lemma_split_none(s.drop_last(), c);
        assert(s.last() != c) by {
            assert(s[s.len() - 1] == s.last());
        }
        assert(s.drop_last().push(s.last()) =~= s);
        assert(seq![s.drop_last()].update(0, s.drop_last().push(s.last())) =~= seq![s]);
    } else {
        assert(s =~= Seq::<T>::empty());
    }
}

/// The characters of `s` from `a` up to `b`.
pub fn copy_range(s: &[char], a: usize, b: usize) -> (res: Vec<char>)
    requires
        a <= b <= s@.len(),
    ensures
        res@ == s@.subrange(a as int, b as int),
{
    vstd::slice::slice_to_vec(vstd::slice::slice_subrange(s, a, b))
}

pub fn trim_start_char_exec(s: &[char], c: char) -> (res: Vec<char>)
    ensures
        res@ == trim_start_char(s@, c),
{
    let mut k: usize = 0;
    while k < s.len() && s[k] == c
        invariant
            k <= s@.len(),
            trim_start_char(s@, c) == trim_start_char(s@.skip(k as int), c),
        decreases s@.len() - k,
    {
        assert(s@.skip(k as int).drop_first() =~= s@.skip(k + 1));
        k = k + 1;
    }
    assert(s@.skip(k as int) =~= s@.subrange(k as int, s@.len() as int));
    copy_range(s, k, s.len())
}

pub fn trim_end_char_exec(s: &[char], c: char) -> (res: Vec<char>)
    ensures
        res@ == trim_end_char(s@, c),
{
    let mut k: usize = s.len();
    while k > 0 && s[k - 1] == c
        invariant
            k <= s@.len(),
            trim_end_char(s@, c) == trim_end_char(s@.take(k as int), c),
        decreases k,
    {
        assert(s@.take(k as int).drop_last() =~= s@.take(k - 1));
        k = k - 1;
    }
    assert(s@.take(k as int) =~= s@.subrange(0, k as int));
    copy_range(s, 0, k)
}

pub fn trim_char_exec(s: &[char], c: char) -> (res: Vec<char>)
    ensures
        res@ == trim_char(s@, c),
{
    let a = trim_start_char_exec(s, c);
    trim_end_char_exec(&a, c)
}

pub fn trim_ws_exec(s: &[char]) -> (res: Vec<char>)
    ensures
        res@ == trim_ws(s@),
{
    let mut k: usize = 0;
    while k < s.len() && char_is_white_space(s[k])
        invariant
            k <= s@.len(),
            trim_start_ws(s@) == trim_start_ws(s@.skip(k as int)),
        decreases s@.len() - k,
    {
        assert(s@.skip(k as int).drop_first() =~= s@.skip(k + 1));
        k = k + 1;
    }
    assert(s@.skip(k as int) =~= s@.subrange(k as int, s@.len() as int));
    let a = copy_range(s, k, s.len());
    let mut e: usize = a.len();
    while e > 0 && char_is_white_space(a[e - 1])
        invariant
            e <= a@.len(),
            trim_end_ws(a@) == trim_end_ws(a@.take(e as int)),
        decreases e,
    {
        assert(a@.take(e as int).drop_last() =~= a@.take(e - 1));
        e = e - 1;
    }
    assert(a@.take(e as int) =~= a@.subrange(0, e as int));
    copy_range(&a, 0, e)
}

pub fn strip_prefix_all_exec(s: &[char], p: &[char]) -> (res: Vec<char>)
    ensures
        res@ == strip_prefix_all(s@, p@),
{
    let mut k: usize = 0;
    let plen = p.len();
    if plen == 0 {
        assert(s@.subrange(0, s@.len() as int) =~= s@);
        return copy_range(s, 0, s.len());
    }
    loop
        invariant
            plen == p@.len(),
            plen > 0,
            k <= s@.len(),
            strip_prefix_all(s@, p@) == strip_prefix_all(s@.skip(k as int), p@),
        ensures
            k <= s@.len(),
            strip_prefix_all(s@, p@) == s@.skip(k as int),
        decreases s@.len() - k,
    {
        let rest = s.len() - k;
        if plen > rest {
            break;
        }
        let mut j: usize = 0;
        let mut same = true;
        while j < plen
            invariant
                plen == p@.len(),
                k + plen <= s@.len(),
                s@.len() == s.len(),
                j <= plen,
                same ==> forall|i: int| 0 <= i < j ==> s@[k + i] == p@[i],
                !same ==> s@.skip(k as int).take(plen as int) != p@,
            decreases plen - j,
        {
            if s[k + j] != p[j] {
                same = false;
                assert(s@.skip(k as int).take(plen as int)[j as int] != p@[j as int]);
            }
            j = j + 1;
        }
        if !same {
            break;
        }
        assert(s@.skip(k as int).take(plen as int) =~= p@);
        assert(s@.skip(k as int).skip(plen as int) =~= s@.skip(k + plen));
        k = k + plen;
    }
    assert(s@.skip(k as int) =~= s@.subrange(k as int, s@.len() as int));
    copy_range(s, k, s.len())
}

// ---------------------------------------------------------------------------
// Decimal text of numbers.
// ---------------------------------------------------------------------------

pub open spec fn digit_char(d: int) -> char {
    ((d + 48) as u8) as char
}

/// The decimal digits of `n`, most significant first, without leading zeros.
pub open spec fn decimal(n: nat) -> Seq<char>
    decreases n,
{
    if n < 10 {
        seq![digit_char(n as int)]
    } else {
        decimal(n / 10).push(digit_char((n % 10) as int))
    }
}

/// The decimal text of a signed number (`-` before negative ones).
pub open spec fn signed_decimal(n: int) -> Seq<char> {
    if n < 0 {
        seq!['-'] + decimal((-n) as nat)
    } else {
        decimal(n as nat)
    }
}

/// `n` in decimal, with zeros in front up to three digits (`{:03}`).
pub open spec fn decimal_pad3(n: nat) -> Seq<char> {
    if n < 10 {
        seq!['0', '0'] + decimal(n)
    } else if n < 100 {
        seq!['0'] + decimal(n)
    } else {
        decimal(n)
    }
}

fn digit_of(d: u128) -> (c: char)
    requires
        d < 10,
    ensures
        c == digit_char(d as int),
{
    ((d as u8) + 48u8) as char
}

/// Decimal text of an unsigned number (what `format!("{}", n)` writes).
pub fn decimal_u128(n: u128) -> (res: Vec<char>)
    ensures
        res@ == decimal(n as nat),
{
    let mut v: Vec<char> = Vec::new();
    let mut m = n;
    while m >= 10
        invariant
            decimal(n as nat) == decimal(m as nat) + v@,
        decreases m,
    {
        let d = digit_of(m % 10);
        let ghost old_v = v@;
        v.insert(0, d);
        assert(decimal(m as nat) == decimal((m / 10) as nat).push(digit_char((m % 10) as int)));
        assert(decimal(m as nat) + old_v =~= decimal((m / 10) as nat) + v@);
        m = m / 10;
    }
    let d = digit_of(m);
    v.insert(0, d);
    v
}

/// Decimal text of a signed number.
pub fn decimal_i64(n: i64) -> (res: Vec<char>)
    ensures
        res@ == signed_decimal(n as int),
{
    if n < 0 {
        let mag: u128 = (0i128 - (n as i128)) as u128;
        let digits = decimal_u128(mag);
        let mut v: Vec<char> = Vec::new();
        v.push('-');
        push_all(&mut v, &digits);
        assert(v@ =~= seq!['-'] + decimal((-n) as nat));
        v
    } else {
        decimal_u128(n as u128)
    }
}

/// Decimal text with zeros in front up to three digits.
pub fn decimal_pad3_exec(n: u128) -> (res: Vec<char>)
    ensures
        res@ == decimal_pad3(n as nat),
{
    let digits = decimal_u128(n);
    let mut v: Vec<char> = Vec::new();
    if n < 10 {
        v.push('0');
        v.push('0');
    } else if n < 100 {
        v.push('0');
    }
    push_all(&mut v, &digits);
    assert(n < 10 ==> v@ =~= seq!['0', '0'] + decimal(n as nat));
    assert(10 <= n < 100 ==> v@ =~= seq!['0'] + decimal(n as nat));
    v
}

} // verus!
