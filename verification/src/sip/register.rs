//! What the engine answers to `REGISTER`.

use vstd::prelude::*;
use crate::text::{
    utf8_lossy, lossy_text, chars_to_string, chars_eq, str_chars, find_first, find_bytes, decimal,
    decimal_u128, push_all, occurs_at,
};
use crate::sip::wire::{trim_start_ows, trim_end_ows, trim_ows_bytes};
use crate::sip::message::{SourceAddr, SipMessage, SipMessageView, HeaderName, HeaderNameView, header_value, get_header};
use crate::sip::response::{
    simple_response, digest_challenge, register_ok, build_simple_response, build_digest_challenge,
    build_register_ok,
};
use crate::sip::utils::{extension_user, extract_extension_user};
use crate::sip::digest::{digest_header_valid, verify_digest_header};
use crate::engine::config::SipConfig;
use crate::engine::store::Extension;

verus! {

/// A registration to store: who registered, with what user agent and contact, from
/// where, and for how long.
pub struct RegistrationUpdate {
    pub extension_number: String,
    pub user_agent: Option<String>,
    pub contact_uri: String,
    pub source_ip: String,
    pub source_port: i32,
    pub expires_secs: i64,
}

pub struct RegistrationUpdateView {
    pub extension_number: Seq<char>,
    pub user_agent: Option<Seq<char>>,
    pub contact_uri: Seq<char>,
    pub source_ip: Seq<char>,
    pub source_port: i32,
    pub expires_secs: i64,
}

impl View for RegistrationUpdate {
    type V = RegistrationUpdateView;

    open spec fn view(&self) -> RegistrationUpdateView {
        RegistrationUpdateView {
            extension_number: self.extension_number@,
            user_agent: match self.user_agent {
                Some(s) => Some(s@),
                None => None,
            },
            contact_uri: self.contact_uri@,
            source_ip: self.source_ip@,
            source_port: self.source_port,
            expires_secs: self.expires_secs,
        }
    }
}

/// What a `REGISTER` changes in the store.
pub enum RegistrationChange {
    /// Store (or refresh) this registration.
    Store(RegistrationUpdate),
    /// The extension unregisters (`Expires: 0`): forget its registration.
    Remove { extension_number: String },
}

pub enum RegistrationChangeView {
    Store(RegistrationUpdateView),
    Remove { extension_number: Seq<char> },
}

impl View for RegistrationChange {
    type V = RegistrationChangeView;

    open spec fn view(&self) -> RegistrationChangeView {
        match self {
            RegistrationChange::Store(u) => RegistrationChangeView::Store(u@),
            RegistrationChange::Remove { extension_number } => RegistrationChangeView::Remove {
                extension_number: extension_number@,
            },
        }
    }
}

/// The answer to a `REGISTER`, the change to make to the store before sending it,
/// and the record for the authentication audit log, when digest authentication
/// took part.
pub struct RegisterOutcome {
    pub response: SipMessage,
    pub change: Option<RegistrationChange>,
    pub audit: Option<String>,
}

pub struct RegisterOutcomeView {
    pub response: SipMessageView,
    pub change: Option<RegistrationChangeView>,
    pub audit: Option<Seq<char>>,
}

impl View for RegisterOutcome {
    type V = RegisterOutcomeView;

    open spec fn view(&self) -> RegisterOutcomeView {
        RegisterOutcomeView {
            response: self.response@,
            change: match self.change {
                Some(c) => Some(c@),
                None => None,
            },
            audit: match self.audit {
                Some(a) => Some(a@),
                None => None,
            },
        }
    }
}

/// The index of the first extension whose number is `user`.
pub open spec fn find_extension(exts: Seq<Extension>, user: Seq<char>) -> Option<int>
    decreases exts.len(),
{
    if exts.len() == 0 {
        None
    } else if exts[0].extension_number@ == user {
        Some(0)
    } else {
        match find_extension(exts.drop_first(), user) {
            Some(i) => Some(i + 1),
            None => None,
        }
    }
}

/// The longest registration an extension is granted: its `max_expires`, clamped to
/// `[min_expires, 86400]` (one day at most).
pub open spec fn expires_ceiling(e: Extension) -> i64 {
    if e.max_expires < e.min_expires {
        e.min_expires
    } else if e.max_expires > 86400 {
        86400
    } else {
        e.max_expires
    }
}

pub open spec fn is_ascii_digit(b: u8) -> bool {
    48u8 <= b && b <= 57u8
}

/// The number written by decimal digits.
pub open spec fn digits_value(ds: Seq<u8>) -> nat
    decreases ds.len(),
{
    if ds.len() == 0 {
        0
    } else {
        digits_value(ds.drop_last()) * 10 + (ds.last() - 48) as nat
    }
}

/// The number a value gives: decimal digits, with spaces and tabs around them
/// allowed.
pub open spec fn expiry_value(v: Seq<u8>) -> Option<nat> {
    let t = trim_end_ows(trim_start_ows(v));
    if t.len() > 0 && forall|i: int| 0 <= i < t.len() ==> is_ascii_digit(#[trigger] t[i]) {
        Some(digits_value(t))
    } else {
        None
    }
}

/// `;expires=`.
pub open spec fn expires_param_key() -> Seq<u8> {
    seq![59u8, 101u8, 120u8, 112u8, 105u8, 114u8, 101u8, 115u8, 61u8]
}

/// `;` or `,`: where a parameter value ends.
pub open spec fn is_param_end(b: u8) -> bool {
    b == 59u8 || b == 44u8
}

/// The length of what precedes the first `;` or `,` of `s`.
pub open spec fn param_len(s: Seq<u8>) -> nat
    decreases s.len(),
{
    if s.len() == 0 {
        0
    } else if is_param_end(s[0]) {
        0
    } else {
        1 + param_len(s.drop_first())
    }
}

/// The `expires` parameter of a `Contact` value: what follows its first
/// `;expires=`, up to the next `;` or `,`.
pub open spec fn contact_expires_param(v: Seq<u8>) -> Option<Seq<u8>> {
    match find_first(v, expires_param_key()) {
        Some(i) => {
            let rest = v.skip(i + 9);
            Some(rest.take(param_len(rest) as int))
        },
        None => None,
    }
}

/// The registration time a request asks for: the `expires` parameter of its
/// `Contact` when that is a decimal number, which takes precedence (RFC 3261,
/// section 10.2.1.1); otherwise its `Expires` header when that is one.
pub open spec fn requested_expires(m: SipMessageView) -> Option<nat> {
    let from_contact = match header_value(m, HeaderNameView::Contact) {
        Some(v) => match contact_expires_param(v) {
            Some(p) => expiry_value(p),
            None => None,
        },
        None => None,
    };
    match from_contact {
        Some(n) => Some(n),
        None => match header_value(m, HeaderNameView::Expires) {
            Some(v) => expiry_value(v),
            None => None,
        },
    }
}

/// The registration time granted: the ceiling when none is asked for; 0 when 0 is
/// asked for (the extension unregisters); otherwise what is asked, clamped to
/// `[min_expires, ceiling]`.
pub open spec fn granted_expires(e: Extension, requested: Option<nat>) -> i64 {
    match requested {
        None => expires_ceiling(e),
        Some(r) => if r == 0 {
            0
        } else if r < e.min_expires {
            e.min_expires
        } else if r > expires_ceiling(e) {
            expires_ceiling(e)
        } else {
            r as i64
        },
    }
}

pub open spec fn answer_only(response: SipMessageView) -> RegisterOutcomeView {
    RegisterOutcomeView { response, change: None, audit: None }
}

pub open spec fn register_method() -> Seq<char> {
    seq!['R', 'E', 'G', 'I', 'S', 'T', 'E', 'R']
}

/// The registration stored after a successful authentication.
pub open spec fn registration_of(
    m: SipMessageView,
    src: SourceAddr,
    e: Extension,
    granted: i64,
) -> RegistrationUpdateView {
    RegistrationUpdateView {
        extension_number: e.extension_number@,
        user_agent: match header_value(m, HeaderNameView::UserAgent) {
            Some(v) => Some(utf8_lossy(v)),
            None => None,
        },
        contact_uri: match header_value(m, HeaderNameView::Contact) {
            Some(v) => utf8_lossy(v),
            None => src.text@,
        },
        source_ip: src.ip@,
        source_port: src.port as i32,
        expires_secs: granted,
    }
}

/// What an accepted `REGISTER` changes in the store: the registration is removed
/// when the request asks for 0 (the extension logs out), and stored for the granted
/// time otherwise, even when that time comes out as 0.
pub open spec fn register_change(
    m: SipMessageView,
    src: SourceAddr,
    e: Extension,
    granted: i64,
) -> RegistrationChangeView {
    if requested_expires(m) == Some(0nat) {
        RegistrationChangeView::Remove { extension_number: e.extension_number@ }
    } else {
        RegistrationChangeView::Store(registration_of(m, src, e, granted))
    }
}

/// What the authentication audit log records of a `REGISTER`.
pub enum AuditKind {
    /// A `401` challenge was sent.
    Challenged,
    /// The credentials verified (`200 OK`).
    Accepted,
    /// The credentials did not verify (`403`).
    Refused,
}

pub open spec fn audit_prefix(kind: AuditKind) -> Seq<char> {
    match kind {
        AuditKind::Challenged => "REGISTER challenged (401) for extension "@,
        AuditKind::Accepted => "REGISTER accepted (200) for extension "@,
        AuditKind::Refused => "REGISTER refused (403) for extension "@,
    }
}

/// The audit record: what happened, to which extension, and the source IP and
/// port, e.g. `REGISTER refused (403) for extension 100 from 10.0.0.2:5060`.
pub open spec fn audit_text(kind: AuditKind, extension_number: Seq<char>, src: SourceAddr) -> Seq<char> {
    audit_prefix(kind) + extension_number + " from "@ + src.ip@ + seq![':'] + decimal(src.port as nat)
}

/// A `REGISTER` for `e` is accepted when digest authentication is off (in the
/// configuration or for the extension), or when its `Authorization` verifies
/// against the extension's password.
pub open spec fn register_accepted(m: SipMessageView, e: Extension, cfg: SipConfig) -> bool {
    !(cfg.require_digest_auth && e.auth_required == 1) || (header_value(
        m,
        HeaderNameView::Authorization,
    ) matches Some(v) && digest_header_valid(utf8_lossy(v), e.password@, cfg.domain@, register_method()))
}

/// What a `REGISTER` is answered, given the extensions read from the store (none
/// when reading failed); `stamp` makes the challenge nonce and the `To` tag:
/// - `500` when the store could not be read;
/// - `400` when no extension number can be read from the request;
/// - `404` when no extension has that number;
/// - when digest authentication is on, both in the configuration and for the
///   extension: a `401` challenge without `Authorization`, `403` when it does not
///   verify, each with an audit record; otherwise the request is accepted, with
///   an audit record;
/// - when it is off, the request is accepted.
/// An accepted request is answered `200 OK` with the granted time, and stores the
/// registration (or removes it when the request asks for 0).
pub open spec fn register_outcome(
    m: SipMessageView,
    src: SourceAddr,
    exts: Option<Seq<Extension>>,
    cfg: SipConfig,
    stamp: u128,
) -> RegisterOutcomeView {
    match exts {
        None => answer_only(simple_response(m, 500, stamp)),
        Some(es) => match extension_user(m) {
            None => answer_only(simple_response(m, 400, stamp)),
            Some(user) => match find_extension(es, user) {
                None => answer_only(simple_response(m, 404, stamp)),
                Some(i) => {
                    let e = es[i];
                    let granted = granted_expires(e, requested_expires(m));
                    let digest_on = cfg.require_digest_auth && e.auth_required == 1;
                    if digest_on && header_value(m, HeaderNameView::Authorization) is None {
                        RegisterOutcomeView {
                            response: digest_challenge(m, cfg.domain@, stamp),
                            change: None,
                            audit: Some(audit_text(AuditKind::Challenged, e.extension_number@, src)),
                        }
                    } else if register_accepted(m, e, cfg) {
                        RegisterOutcomeView {
                            response: register_ok(m, granted, stamp),
                            change: Some(register_change(m, src, e, granted)),
                            audit: if digest_on {
                                Some(audit_text(AuditKind::Accepted, e.extension_number@, src))
                            } else {
                                None
                            },
                        }
                    } else {
                        RegisterOutcomeView {
                            response: simple_response(m, 403, stamp),
                            change: None,
                            audit: Some(audit_text(AuditKind::Refused, e.extension_number@, src)),
                        }
                    }
                },
            },
        },
    }
}

/// An accepted `REGISTER` is for an extension whose `min_expires` is at most one
/// day, so that clamping the granted time is defined.
pub open spec fn register_clamp_defined(
    m: SipMessageView,
    exts: Option<Seq<Extension>>,
    cfg: SipConfig,
) -> bool {
    match exts {
        Some(es) => match extension_user(m) {
            Some(user) => match find_extension(es, user) {
                Some(i) => register_accepted(m, es[i], cfg) ==> es[i].min_expires <= 86400,
                None => true,
            },
            None => true,
        },
        None => true,
    }
}

proof fn lemma_find_extension_step(exts: Seq<Extension>, user: Seq<char>, i: int)
    requires
        0 <= i < exts.len(),
        forall|j: int| 0 <= j < i ==> exts[j].extension_number@ != user,
    ensures
        exts[i].extension_number@ == user ==> find_extension(exts, user) == Some(i),
    decreases i,
{
    if i > 0 {
        lemma_find_extension_step(exts.drop_first(), user, i - 1);
    }
}

proof fn lemma_find_extension_none(exts: Seq<Extension>, user: Seq<char>)
    requires
        forall|j: int| 0 <= j < exts.len() ==> exts[j].extension_number@ != user,
    ensures
        find_extension(exts, user) is None,
    decreases exts.len(),
{
    if exts.len() > 0 {
        lemma_find_extension_none(exts.drop_first(), user);
    }
}

/// The first extension whose number is `user`.
pub fn lookup_extension<'a>(exts: &'a Vec<Extension>, user: &String) -> (r: Option<&'a Extension>)
    ensures
        r matches Some(e) ==> find_extension(exts@, user@) matches Some(i) && exts@[i] == *e,
        r is None ==> find_extension(exts@, user@) is None,
{
    let target = str_chars(user.as_str());
    let mut i: usize = 0;
    while i < exts.len()
        invariant
            target@ == user@,
            i <= exts@.len(),
            forall|j: int| 0 <= j < i ==> exts@[j].extension_number@ != user@,
        decreases exts@.len() - i,
    {
        let number = str_chars(exts[i].extension_number.as_str());
        if chars_eq(&number, &target) {
            proof {
                lemma_find_extension_step(exts@, user@, i as int);
            }
            return Some(&exts[i]);
        }
        i = i + 1;
    }
    proof {
        lemma_find_extension_none(exts@, user@);
    }
    None
}

/// The cap above which every asked registration time is cut to the ceiling.
pub open spec fn saturation() -> nat {
    1_000_000
}

pub open spec fn saturated(v: nat) -> nat {
    if v < saturation() { v } else { saturation() }
}

proof fn lemma_digits_step(ds: Seq<u8>, i: int)
    requires
        0 <= i < ds.len(),
    ensures
        digits_value(ds.take(i + 1)) == digits_value(ds.take(i)) * 10 + (ds[i] - 48) as nat,
{
    assert(ds.take(i + 1).drop_last() =~= ds.take(i));
}

/// The number a value gives (see `expiry_value`), cut at the saturation cap.
fn expiry_digits(v: &[u8]) -> (r: Option<u64>)
    ensures
        match expiry_value(v@) {
            Some(n) => r == Some(saturated(n) as u64),
            None => r is None,
        },
{
    let t = trim_ows_bytes(v);
    if t.len() == 0 {
        return None;
    }
    let mut acc: u64 = 0;
    let mut i: usize = 0;
    while i < t.len()
        invariant
            i <= t@.len(),
            t@.len() > 0,
            t@ == trim_end_ows(trim_start_ows(v@)),
            forall|k: int| 0 <= k < i ==> is_ascii_digit(#[trigger] t@[k]),
            acc == saturated(digits_value(t@.take(i as int))),
        decreases t@.len() - i,
    {
        let b = t[i];
        if b < 48u8 || b > 57u8 {
            assert(!is_ascii_digit(t@[i as int]));
            return None;
        }
        proof {
            lemma_digits_step(t@, i as int);
        }
        if acc >= 1_000_000 {
            acc = 1_000_000;
        } else {
            let next = acc * 10 + ((b - 48u8) as u64);
            acc = if next >= 1_000_000 { 1_000_000 } else { next };
        }
        i = i + 1;
    }
    assert(t@.take(i as int) =~= t@);
    Some(acc)
}

/// The `expires` parameter of a `Contact` value (see `contact_expires_param`).
fn contact_param(v: &[u8]) -> (r: Option<Vec<u8>>)
    ensures
        r matches Some(p) ==> contact_expires_param(v@) == Some(p@),
        r is None ==> contact_expires_param(v@) is None,
{
    let key: Vec<u8> = vec![59u8, 101u8, 120u8, 112u8, 105u8, 114u8, 101u8, 115u8, 61u8];
    assert(key@ =~= expires_param_key());
    match find_bytes(v, key.as_slice(), 0) {
        None => None,
        Some(i) => {
            proof {
                crate::text::lemma_find_from(v@, key@, 0);
            }
            assert(occurs_at(v@, key@, i as int));
            assert(key@.len() == 9);
            let n = v.len();
            assert(i + 9 <= n);
            let ghost rest = v@.skip(i + 9);
            let mut out: Vec<u8> = Vec::new();
            let mut j: usize = i + 9;
            assert(rest.skip(0) =~= rest);
            while j < v.len() && !(v[j] == 59u8 || v[j] == 44u8)
                invariant
                    i + 9 <= j <= v@.len(),
                    rest == v@.skip(i + 9),
                    out@ == rest.take(j - i - 9),
                    param_len(rest) == (j - i - 9) + param_len(rest.skip(j - i - 9)),
                decreases v@.len() - j,
            {
                let k = j - i - 9;
                assert(rest.skip(k as int)[0] == v@[j as int]);
                assert(rest.skip(k as int).drop_first() =~= rest.skip(k + 1));
                out.push(v[j]);
                assert(out@ =~= rest.take(k + 1));
                j = j + 1;
            }
            let k = j - i - 9;
            if j < v.len() {
                assert(rest.skip(k as int)[0] == v@[j as int]);
            } else {
                assert(rest.skip(k as int) =~= Seq::<u8>::empty());
            }
            assert(param_len(rest) == k);
            Some(out)
        },
    }
}

/// The registration time asked for, cut at the saturation cap.
fn requested_expires_exec(msg: &SipMessage) -> (r: Option<u64>)
    ensures
        match requested_expires(msg@) {
            Some(v) => r == Some(saturated(v) as u64),
            None => r is None,
        },
{
    let from_contact = match get_header(&msg.headers, &HeaderName::Contact) {
        Some(h) => match contact_param(h.raw_value.as_slice()) {
            Some(p) => expiry_digits(p.as_slice()),
            None => None,
        },
        None => None,
    };
    match from_contact {
        Some(n) => Some(n),
        None => match get_header(&msg.headers, &HeaderName::Expires) {
            Some(h) => expiry_digits(h.raw_value.as_slice()),
            None => None,
        },
    }
}

/// The registration time granted (see `granted_expires`), from the saturated
/// request.
pub fn grant_expires(e: &Extension, requested: Option<u64>) -> (g: i64)
    requires
        e.min_expires <= 86400,
        requested matches Some(r) ==> r <= saturation(),
    ensures
        forall|v: nat|
            requested == Some(saturated(v) as u64) ==> g == #[trigger] granted_expires(*e, Some(v)),
        requested is None ==> g == granted_expires(*e, None),
{
    let ceiling = if e.max_expires < e.min_expires {
        e.min_expires
    } else if e.max_expires > 86400 {
        86400
    } else {
        e.max_expires
    };
    match requested {
        None => ceiling,
        Some(r) => {
            if r == 0 {
                0
            } else if (r as i128) < (e.min_expires as i128) {
                e.min_expires
            } else if (r as i128) > (ceiling as i128) {
                ceiling
            } else {
                r as i64
            }
        },
    }
}

fn copy_string(s: &String) -> (r: String)
    ensures
        r@ == s@,
{
    s.clone()
}

/// The store change of an accepted `REGISTER` (see `register_change`).
fn build_change(
    msg: &SipMessage,
    src: &SourceAddr,
    ext: &Extension,
    requested: Option<u64>,
    granted: i64,
) -> (c: RegistrationChange)
    requires
        match requested_expires(msg@) {
            Some(v) => requested == Some(saturated(v) as u64),
            None => requested is None,
        },
    ensures
        c@ == register_change(msg@, *src, *ext, granted),
{
    if requested == Some(0u64) {
        RegistrationChange::Remove { extension_number: copy_string(&ext.extension_number) }
    } else {
        let user_agent = match get_header(&msg.headers, &HeaderName::UserAgent) {
            Some(h) => Some(chars_to_string(&lossy_text(h.raw_value.as_slice()))),
            None => None,
        };
        let contact = match get_header(&msg.headers, &HeaderName::Contact) {
            Some(h) => chars_to_string(&lossy_text(h.raw_value.as_slice())),
            None => copy_string(&src.text),
        };
        RegistrationChange::Store(
            RegistrationUpdate {
                extension_number: copy_string(&ext.extension_number),
                user_agent,
                contact_uri: contact,
                source_ip: copy_string(&src.ip),
                source_port: src.port as i32,
                expires_secs: granted,
            },
        )
    }
}

/// The audit record (see `audit_text`).
fn build_audit(kind: AuditKind, ext: &Extension, src: &SourceAddr) -> (r: String)
    ensures
        r@ == audit_text(kind, ext.extension_number@, *src),
{
    let mut v = match kind {
        AuditKind::Challenged => str_chars("REGISTER challenged (401) for extension "),
        AuditKind::Accepted => str_chars("REGISTER accepted (200) for extension "),
        AuditKind::Refused => str_chars("REGISTER refused (403) for extension "),
    };
    push_all(&mut v, &str_chars(ext.extension_number.as_str()));
    push_all(&mut v, &str_chars(" from "));
    push_all(&mut v, &str_chars(src.ip.as_str()));
    v.push(':');
    push_all(&mut v, &decimal_u128(src.port as u128));
    assert(v@ =~= audit_text(kind, ext.extension_number@, *src));
    chars_to_string(&v)
}

/// Whether the `Authorization` of `msg` verifies for a `REGISTER` of `ext`.
fn register_digest_valid(msg: &SipMessage, ext: &Extension, cfg: &SipConfig) -> (r: bool)
    ensures
        r == (header_value(msg@, HeaderNameView::Authorization) matches Some(v) && digest_header_valid(
            utf8_lossy(v),
            ext.password@,
            cfg.domain@,
            register_method(),
        )),
{
    match get_header(&msg.headers, &HeaderName::Authorization) {
        None => false,
        Some(header) => {
            let header_text = chars_to_string(&lossy_text(header.raw_value.as_slice()));
            let method = chars_to_string(&vec!['R', 'E', 'G', 'I', 'S', 'T', 'E', 'R']);
            verify_digest_header(
                header_text.as_str(),
                ext.password.as_str(),
                cfg.domain.as_str(),
                method.as_str(),
            )
        },
    }
}

/// Whether `handle_register` may be called: an accepted `REGISTER` is for an
/// extension whose `min_expires` is at most one day (see `register_clamp_defined`).
pub fn register_clamp_ok(msg: &SipMessage, extensions: Option<&Vec<Extension>>, cfg: &SipConfig) -> (r: bool)
    ensures
        r == register_clamp_defined(
            msg@,
            match extensions {
                Some(v) => Some(v@),
                None => None,
            },
            *cfg,
        ),
{
    let exts = match extensions {
        Some(v) => v,
        None => {
            return true;
        },
    };
    let target = match extract_extension_user(msg) {
        Some(u) => u,
        None => {
            return true;
        },
    };
    match lookup_extension(exts, &target) {
        None => true,
        Some(ext) => {
            let accepted = !(cfg.require_digest_auth && ext.is_auth_required())
                || register_digest_valid(msg, ext, cfg);
            !accepted || ext.min_expires <= 86400
        },
    }
}

/// Decides what a `REGISTER` is answered (see `register_outcome`).
pub fn handle_register(
    msg: &SipMessage,
    src: &SourceAddr,
    extensions: Option<&Vec<Extension>>,
    cfg: &SipConfig,
    stamp: u128,
) -> (out: RegisterOutcome)
    requires
        register_clamp_defined(
            msg@,
            match extensions {
                Some(v) => Some(v@),
                None => None,
            },
            *cfg,
        ),
    ensures
        out@ == register_outcome(
            msg@,
            *src,
            match extensions {
                Some(v) => Some(v@),
                None => None,
            },
            *cfg,
            stamp,
        ),
{
    let exts = match extensions {
        Some(v) => v,
        None => {
            return RegisterOutcome {
                response: build_simple_response(msg, 500, stamp),
                change: None,
                audit: None,
            };
        },
    };
    let target = match extract_extension_user(msg) {
        Some(u) => u,
        None => {
            return RegisterOutcome {
                response: build_simple_response(msg, 400, stamp),
                change: None,
                audit: None,
            };
        },
    };
    let ext = match lookup_extension(exts, &target) {
        Some(e) => e,
        None => {
            return RegisterOutcome {
                response: build_simple_response(msg, 404, stamp),
                change: None,
                audit: None,
            };
        },
    };
    let digest_on = cfg.require_digest_auth && ext.is_auth_required();
    if digest_on && get_header(&msg.headers, &HeaderName::Authorization).is_none() {
        return RegisterOutcome {
            response: build_digest_challenge(msg, cfg.domain.as_str(), stamp),
            change: None,
            audit: Some(build_audit(AuditKind::Challenged, ext, src)),
        };
    }
    if !digest_on || register_digest_valid(msg, ext, cfg) {
        let requested = requested_expires_exec(msg);
        let granted = grant_expires(ext, requested);
        assert(granted == granted_expires(*ext, requested_expires(msg@)));
        let audit = if digest_on {
            Some(build_audit(AuditKind::Accepted, ext, src))
        } else {
            None
        };
        RegisterOutcome {
            response: build_register_ok(msg, granted, stamp),
            change: Some(build_change(msg, src, ext, requested, granted)),
            audit,
        }
    } else {
        RegisterOutcome {
            response: build_simple_response(msg, 403, stamp),
            change: None,
            audit: Some(build_audit(AuditKind::Refused, ext, src)),
        }
    }
}

} // verus!
