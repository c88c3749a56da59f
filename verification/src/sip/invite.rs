//! What the engine answers to `INVITE`, `BYE` and `CANCEL`.
//!
//! An `INVITE` is handled in steps, because the store is consulted in between:
//! `handle_invite` first, then `invite_caller_checked` once the caller's extensions
//! are read (when it asks for them), then `callee_address` and `invite_routed` once
//! the callee's registration is looked up.

use vstd::prelude::*;
use crate::text::{
    utf8_lossy, lossy_text, chars_to_string, signed_decimal, decimal_i64, push_all, str_chars,
};
use crate::sip::message::{SipMessage, SipMessageView, HeaderName, HeaderNameView, header_value, get_header};
use crate::sip::response::{simple_response, digest_challenge, build_simple_response, build_digest_challenge};
use crate::sip::utils::{extension_user, extract_extension_user};
use crate::sip::digest::{
    digest_header_valid, verify_digest_header, digest_field, key_username, digest_username,
};
use crate::sip::register::{find_extension, lookup_extension};
use crate::engine::config::SipConfig;
use crate::engine::store::{Extension, Registration};

verus! {

/// What to do after a step of `INVITE` handling.
pub enum InviteNext {
    /// Nothing more.
    Done,
    /// Read the extensions and check the caller's credentials with `invite_caller_checked`.
    CheckCaller { target: String, caller: String, authorization: String },
    /// Look up where `target` is registered, then call `callee_address`.
    LookupRegistration { target: String },
}

pub enum InviteNextView {
    Done,
    CheckCaller { target: Seq<char>, caller: Seq<char>, authorization: Seq<char> },
    LookupRegistration { target: Seq<char> },
}

impl View for InviteNext {
    type V = InviteNextView;

    open spec fn view(&self) -> InviteNextView {
        match self {
            InviteNext::Done => InviteNextView::Done,
            InviteNext::CheckCaller { target, caller, authorization } => InviteNextView::CheckCaller {
                target: target@,
                caller: caller@,
                authorization: authorization@,
            },
            InviteNext::LookupRegistration { target } => InviteNextView::LookupRegistration {
                target: target@,
            },
        }
    }
}

/// One step: forward the `INVITE` to the callee first if `forward` is set, then send
/// `responses` back to the caller in order, then go on with `next`.
pub struct InviteStep {
    pub forward: bool,
    pub responses: Vec<SipMessage>,
    pub next: InviteNext,
}

pub struct InviteStepView {
    pub forward: bool,
    pub responses: Seq<SipMessageView>,
    pub next: InviteNextView,
}

impl View for InviteStep {
    type V = InviteStepView;

    open spec fn view(&self) -> InviteStepView {
        InviteStepView {
            forward: self.forward,
            responses: self.responses@.map_values(|m: SipMessage| m@),
            next: self.next@,
        }
    }
}

pub open spec fn invite_method() -> Seq<char> {
    seq!['I', 'N', 'V', 'I', 'T', 'E']
}

pub open spec fn step(responses: Seq<SipMessageView>, next: InviteNextView) -> InviteStepView {
    InviteStepView { forward: false, responses, next }
}

/// The first step of an `INVITE`: `100 Trying` always; then `400` when no target
/// extension can be read; then, when digest authentication is on, a `401`
/// challenge without `Authorization`, `403` when its Digest `username` is empty,
/// and otherwise a check of the caller it names; then the lookup of the target's
/// registration.
pub open spec fn invite_start(m: SipMessageView, cfg: SipConfig, stamp: u128) -> InviteStepView {
    let trying = simple_response(m, 100, stamp);
    match extension_user(m) {
        None => step(seq![trying, simple_response(m, 400, stamp)], InviteNextView::Done),
        Some(target) => if cfg.require_digest_auth {
            match header_value(m, HeaderNameView::Authorization) {
                None => step(
                    seq![trying, digest_challenge(m, cfg.domain@, stamp)],
                    InviteNextView::Done,
                ),
                Some(v) => {
                    let auth = utf8_lossy(v);
                    let caller = digest_field(auth, key_username());
                    if caller.len() > 0 {
                        step(
                            seq![trying],
                            InviteNextView::CheckCaller { target, caller, authorization: auth },
                        )
                    } else {
                        step(seq![trying, simple_response(m, 403, stamp)], InviteNextView::Done)
                    }
                },
            }
        } else {
            step(seq![trying], InviteNextView::LookupRegistration { target })
        },
    }
}

/// Whether the caller's credentials hold: the extensions were read, one has the
/// caller's number, and the `Authorization` value verifies against its password
/// for `INVITE`.
pub open spec fn invite_caller_verified(
    cfg: SipConfig,
    caller: Seq<char>,
    authorization: Seq<char>,
    exts: Option<Seq<Extension>>,
) -> bool {
    match exts {
        Some(es) => match find_extension(es, caller) {
            Some(i) => digest_header_valid(authorization, es[i].password@, cfg.domain@, invite_method()),
            None => false,
        },
        None => false,
    }
}

/// The caller check: the lookup of the target's registration when the caller's
/// credentials hold (see `invite_caller_verified`); `403` otherwise, also when the
/// caller is unknown or the store could not be read.
pub open spec fn invite_check(
    m: SipMessageView,
    cfg: SipConfig,
    target: Seq<char>,
    caller: Seq<char>,
    authorization: Seq<char>,
    exts: Option<Seq<Extension>>,
    stamp: u128,
) -> InviteStepView {
    if invite_caller_verified(cfg, caller, authorization, exts) {
        step(Seq::empty(), InviteNextView::LookupRegistration { target })
    } else {
        step(seq![simple_response(m, 403, stamp)], InviteNextView::Done)
    }
}

/// The socket address text `ip:port` of a registration.
pub open spec fn registration_address(r: Registration) -> Seq<char> {
    r.source_ip@ + seq![':'] + signed_decimal(r.source_port as int)
}

/// The routing step: with the callee's address, forward the `INVITE` there and
/// answer `180 Ringing`; without one, `480 Temporarily Unavailable`.
pub open spec fn invite_route(m: SipMessageView, reachable: bool, stamp: u128) -> InviteStepView {
    if reachable {
        InviteStepView {
            forward: true,
            responses: seq![simple_response(m, 180, stamp)],
            next: InviteNextView::Done,
        }
    } else {
        step(seq![simple_response(m, 480, stamp)], InviteNextView::Done)
    }
}

fn one(m: SipMessage) -> (v: Vec<SipMessage>)
    ensures
        v@.map_values(|x: SipMessage| x@) == seq![m@],
{
    let mut v = Vec::new();
    v.push(m);
    assert(v@.map_values(|x: SipMessage| x@) =~= seq![m@]);
    v
}

fn two(a: SipMessage, b: SipMessage) -> (v: Vec<SipMessage>)
    ensures
        v@.map_values(|x: SipMessage| x@) == seq![a@, b@],
{
    let mut v = Vec::new();
    v.push(a);
    v.push(b);
    assert(v@.map_values(|x: SipMessage| x@) =~= seq![a@, b@]);
    v
}

/// The first step of handling an `INVITE` (see `invite_start`).
pub fn handle_invite(msg: &SipMessage, cfg: &SipConfig, stamp: u128) -> (s: InviteStep)
    ensures
        s@ == invite_start(msg@, *cfg, stamp),
{
    let trying = build_simple_response(msg, 100, stamp);
    let target = match extract_extension_user(msg) {
        Some(u) => u,
        None => {
            return InviteStep {
                forward: false,
                responses: two(trying, build_simple_response(msg, 400, stamp)),
                next: InviteNext::Done,
            };
        },
    };
    if cfg.require_digest_auth {
        match get_header(&msg.headers, &HeaderName::Authorization) {
            None => InviteStep {
                forward: false,
                responses: two(trying, build_digest_challenge(msg, cfg.domain.as_str(), stamp)),
                next: InviteNext::Done,
            },
            Some(h) => {
                let auth = chars_to_string(&lossy_text(h.raw_value.as_slice()));
                let caller = digest_username(auth.as_str());
                if caller.as_str().unicode_len() > 0 {
                    InviteStep {
                        forward: false,
                        responses: one(trying),
                        next: InviteNext::CheckCaller { target, caller, authorization: auth },
                    }
                } else {
                    InviteStep {
                        forward: false,
                        responses: two(trying, build_simple_response(msg, 403, stamp)),
                        next: InviteNext::Done,
                    }
                }
            },
        }
    } else {
        InviteStep {
            forward: false,
            responses: one(trying),
            next: InviteNext::LookupRegistration { target },
        }
    }
}

/// The caller check of an `INVITE`, given the extensions read from the store (none
/// when reading failed); see `invite_check`.
pub fn invite_caller_checked(
    msg: &SipMessage,
    cfg: &SipConfig,
    target: String,
    caller: &String,
    authorization: &String,
    extensions: Option<&Vec<Extension>>,
    stamp: u128,
) -> (s: InviteStep)
    ensures
        s@ == invite_check(
            msg@,
            *cfg,
            target@,
            caller@,
            authorization@,
            match extensions {
                Some(v) => Some(v@),
                None => None,
            },
            stamp,
        ),
{
    let verified = match extensions {
        Some(exts) => match lookup_extension(exts, caller) {
            Some(e) => {
                let method = chars_to_string(&vec!['I', 'N', 'V', 'I', 'T', 'E']);
                verify_digest_header(
                    authorization.as_str(),
                    e.password.as_str(),
                    cfg.domain.as_str(),
                    method.as_str(),
                )
            },
            None => false,
        },
        None => false,
    };
    if !verified {
        InviteStep {
            forward: false,
            responses: one(build_simple_response(msg, 403, stamp)),
            next: InviteNext::Done,
        }
    } else {
        let v: Vec<SipMessage> = Vec::new();
        assert(v@.map_values(|x: SipMessage| x@) =~= Seq::<SipMessageView>::empty());
        InviteStep { forward: false, responses: v, next: InviteNext::LookupRegistration { target } }
    }
}

/// The address text to reach a registered callee, when the lookup found one.
pub fn callee_address(registration: Option<&Registration>) -> (r: Option<String>)
    ensures
        r matches Some(a) ==> registration matches Some(reg) && a@ == registration_address(*reg),
        r is None ==> registration is None,
{
    match registration {
        Some(reg) => {
            let mut text = str_chars(reg.source_ip.as_str());
            text.push(':');
            push_all(&mut text, &decimal_i64(reg.source_port));
            assert(text@ =~= registration_address(*reg));
            Some(chars_to_string(&text))
        },
        None => None,
    }
}

/// The routing step of an `INVITE`: `reachable` tells whether the callee's address
/// was found and understood (see `invite_route`).
pub fn invite_routed(msg: &SipMessage, reachable: bool, stamp: u128) -> (s: InviteStep)
    ensures
        s@ == invite_route(msg@, reachable, stamp),
{
    if reachable {
        InviteStep { forward: true, responses: one(build_simple_response(msg, 180, stamp)), next: InviteNext::Done }
    } else {
        InviteStep { forward: false, responses: one(build_simple_response(msg, 480, stamp)), next: InviteNext::Done }
    }
}

/// The answer to `BYE`: `200 OK`.
pub fn handle_bye(msg: &SipMessage, stamp: u128) -> (r: SipMessage)
    ensures
        r@ == simple_response(msg@, 200, stamp),
{
    build_simple_response(msg, 200, stamp)
}

/// The answers to `CANCEL`: `200 OK`, then `487 Request Terminated`.
pub fn handle_cancel(msg: &SipMessage, stamp: u128) -> (r: Vec<SipMessage>)
    ensures
        r@.map_values(|x: SipMessage| x@) == seq![simple_response(msg@, 200, stamp), simple_response(msg@, 487, stamp)],
{
    two(build_simple_response(msg, 200, stamp), build_simple_response(msg, 487, stamp))
}

} // verus!
