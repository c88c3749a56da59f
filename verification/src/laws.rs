//! Properties that hold across the library's operations.

use vstd::prelude::*;

pub mod admin;
pub mod digest;
pub mod wire;

use crate::text::{find_first, find_char, trim_start_char, occurs_at, lemma_find_from};
use crate::sip::message::{SipMessageView, StartLineView, MethodView, HeaderView, HeaderNameView, first_header};
use crate::sip::response::{simple_response, response_base, tagged_to, tag_param, opt_seq, opt_tagged, closing_headers};
use crate::sip::dispatch::{SipRoute, route_of};
use crate::sip::register::{
    register_outcome, granted_expires, expires_ceiling, RegisterOutcomeView, RegistrationChangeView,
    register_method, find_extension, requested_expires, registration_of, register_accepted,
};
use crate::sip::response::register_ok;
use crate::sip::digest::{digest_header_valid, digest_field, key_username};
use crate::sip::invite::{invite_start, InviteNextView, invite_route, invite_check, invite_caller_verified};
use crate::sip::message::{SourceAddr, header_value};
use crate::text::utf8_lossy;
use crate::sip::utils::{extension_user, sip_user_in, sip_scheme};
use crate::engine::config::SipConfig;
use crate::engine::store::Extension;
use crate::media::relay::{PeerAddr, relay_rule};
use crate::media::service::next_port;

verus! {

broadcast use vstd::seq_lib::group_seq_properties;

/// The first header with a name lies in a prefix that lacks it.
proof fn lemma_first_header_concat(a: Seq<HeaderView>, b: Seq<HeaderView>, name: HeaderNameView)
    requires
        forall|i: int| 0 <= i < a.len() ==> a[i].name != name,
    ensures
        first_header(a + b, name) == first_header(b, name),
    decreases a.len(),
{
    if a.len() > 0 {
        assert((a + b).drop_first() =~= a.drop_first() + b);
        lemma_first_header_concat(a.drop_first(), b, name);
    } else {
        assert(a + b =~= b);
    }
}

proof fn lemma_first_header_head(h: HeaderView, b: Seq<HeaderView>)
    ensures
        first_header(seq![h] + b, h.name) == Some(h),
{
    assert((seq![h] + b)[0] == h);
}

/// A request's `To` header, as every response other than `100 Trying` carries it,
/// has a tag; and when the request's `To` already had one, it is carried unchanged
/// (RFC 3261, section 8.2.6.2).
pub proof fn law_responses_tag_to(req: SipMessageView, code: u16, stamp: u128)
    requires
        code != 100,
        first_header(req.headers, HeaderNameView::To) is Some,
    ensures
        ({
            let to = first_header(req.headers, HeaderNameView::To)->0;
            let resp_to = first_header(simple_response(req, code, stamp).headers, HeaderNameView::To);
            &&& resp_to == Some(tagged_to(to, stamp))
            &&& find_first(resp_to->0.value, tag_param()) is Some
            &&& find_first(to.value, tag_param()) is Some ==> resp_to == Some(to)
        }),
{
    let to = first_header(req.headers, HeaderNameView::To)->0;
    lemma_first_header_is_named(req.headers, HeaderNameView::To);
    lemma_first_header_is_named(req.headers, HeaderNameView::Via);
    lemma_first_header_is_named(req.headers, HeaderNameView::From);
    let via = opt_seq(first_header(req.headers, HeaderNameView::Via));
    let from = opt_seq(first_header(req.headers, HeaderNameView::From));
    let rest = opt_seq(first_header(req.headers, HeaderNameView::CallId)) + opt_seq(
        first_header(req.headers, HeaderNameView::CSeq),
    ) + closing_headers();
    let t = tagged_to(to, stamp);
    assert(opt_tagged(first_header(req.headers, HeaderNameView::To), stamp) =~= seq![t]);
    let hs = simple_response(req, code, stamp).headers;
    assert(hs =~= (via + from) + (seq![t] + rest));
    assert forall|i: int| 0 <= i < (via + from).len() implies (via + from)[i].name != HeaderNameView::To by {}
    lemma_first_header_concat(via + from, seq![t] + rest, HeaderNameView::To);
    lemma_first_header_head(t, rest);
    assert(first_header(hs, HeaderNameView::To) == Some(t));
    if find_first(to.value, tag_param()) is None {
        let v = t.value;
        assert(v.subrange(to.value.len() as int, (to.value.len() + 5) as int) =~= tag_param());
        assert(crate::text::occurs_at(v, tag_param(), to.value.len() as int));
        crate::text::lemma_find_from(v, tag_param(), 0);
        assert(find_first(v, tag_param()) is Some);
    }
}

/// The first header called `name` is called `name`.
proof fn lemma_first_header_is_named(hs: Seq<HeaderView>, name: HeaderNameView)
    ensures
        first_header(hs, name) matches Some(h) ==> h.name == name,
    decreases hs.len(),
{
    if hs.len() > 0 && hs[0].name != name {
        lemma_first_header_is_named(hs.drop_first(), name);
    }
}

/// An `ACK` is never answered (RFC 3261, section 17.2.2).
pub proof fn law_ack_not_answered(m: SipMessageView)
    requires
        m.start matches StartLineView::Request { method, .. } && method == MethodView::Ack,
    ensures
        route_of(m) == SipRoute::Ack,
{
}

/// The registration time granted is 0 when 0 is asked for (the extension
/// unregisters); otherwise it lies between the extension's `min_expires` and its
/// ceiling, which is at most one day.
pub proof fn law_granted_expires_bounds(e: Extension, requested: Option<nat>)
    requires
        e.min_expires <= 86400,
    ensures
        requested == Some(0nat) ==> granted_expires(e, requested) == 0,
        requested != Some(0nat) ==> e.min_expires <= granted_expires(e, requested) <= expires_ceiling(e),
        expires_ceiling(e) <= 86400,
{
}

/// With digest authentication on, for the configuration and the extension, a
/// registration is stored or removed only after the request's `Authorization`
/// verifies against the extension's password.
pub proof fn law_registration_needs_authentication(
    m: SipMessageView,
    src: SourceAddr,
    exts: Seq<Extension>,
    cfg: SipConfig,
    stamp: u128,
)
    ensures
        register_outcome(m, src, Some(exts), cfg, stamp).change is Some ==> {
            &&& extension_user(m) matches Some(user)
            &&& find_extension(exts, user) matches Some(i)
            &&& (cfg.require_digest_auth && exts[i].auth_required == 1) ==> (header_value(
                m,
                HeaderNameView::Authorization,
            ) matches Some(v) && digest_header_valid(
                utf8_lossy(v),
                exts[i].password@,
                cfg.domain@,
                register_method(),
            ))
        },
{
}

/// With digest authentication on, an `INVITE` reaches the callee's lookup (and so
/// can be forwarded) only through the caller check, which lets it on exactly when
/// the extension named by the Digest `username` exists and the credentials verify
/// for `INVITE`; every other `INVITE` is challenged (without `Authorization`) or
/// answered `403`.
pub proof fn law_invite_needs_credentials(
    m: SipMessageView,
    cfg: SipConfig,
    stamp: u128,
    target: Seq<char>,
    caller: Seq<char>,
    authorization: Seq<char>,
    exts: Option<Seq<Extension>>,
)
    requires
        cfg.require_digest_auth,
    ensures
        !(invite_start(m, cfg, stamp).next is LookupRegistration),
        !invite_start(m, cfg, stamp).forward,
        header_value(m, HeaderNameView::Authorization) is None ==> invite_start(m, cfg, stamp).next
            == InviteNextView::Done,
        invite_start(m, cfg, stamp).next matches InviteNextView::CheckCaller { caller: c, authorization: a, .. }
            ==> header_value(m, HeaderNameView::Authorization) matches Some(v) && a == utf8_lossy(v)
            && c == digest_field(a, key_username()) && c.len() > 0,
        invite_check(m, cfg, target, caller, authorization, exts, stamp).next is LookupRegistration
            <==> invite_caller_verified(cfg, caller, authorization, exts),
        !invite_caller_verified(cfg, caller, authorization, exts) ==> invite_check(
            m,
            cfg,
            target,
            caller,
            authorization,
            exts,
            stamp,
        ).responses == seq![simple_response(m, 403, stamp)],
{
}

/// An `INVITE` is forwarded only when the callee is reachable, and the caller then
/// hears `180 Ringing`; an unreachable callee is answered `480 Temporarily
/// Unavailable`.
pub proof fn law_invite_forwarded_only_when_reachable(m: SipMessageView, reachable: bool, stamp: u128)
    ensures
        invite_route(m, reachable, stamp).forward == reachable,
        reachable ==> invite_route(m, reachable, stamp).responses == seq![simple_response(m, 180, stamp)],
        !reachable ==> invite_route(m, reachable, stamp).responses == seq![simple_response(m, 480, stamp)],
{
}

/// Once learned, the remote RTP target never changes; a packet is never sent back
/// to where it came from; and a packet from any other socket address (another
/// host, another port, or both) is forwarded to the target. The first packet,
/// which teaches the target, is not forwarded.
pub proof fn law_relay_target_fixed(target: Option<PeerAddr>, src: PeerAddr)
    ensures
        target matches Some(t) ==> relay_rule(target, src).target == Some(t),
        target is None ==> relay_rule(target, src).target == Some(src),
        relay_rule(target, src).forward_to != Some(src),
        target matches Some(t) ==> (src != t ==> relay_rule(target, src).forward_to == Some(t)),
        target is None ==> relay_rule(target, src).forward_to is None,
{
}

/// Two phones on different hosts may use the same RTP port: a packet from one is
/// still forwarded to the other.
pub proof fn law_relay_tells_hosts_apart(t_ip: u32, s_ip: u32, port: u16)
    requires
        t_ip != s_ip,
    ensures
        relay_rule(Some(PeerAddr::V4 { ip: t_ip, port }), PeerAddr::V4 { ip: s_ip, port }).forward_to
            == Some(PeerAddr::V4 { ip: t_ip, port }),
{
}

/// Port pairs stay inside the configured range: from a port whose pair fits, the
/// next port's pair fits too, and allocation starts over at the range start.
pub proof fn law_ports_stay_in_range(p: u16, start: u16, end: u16)
    requires
        start <= p,
        p as int + 1 <= end as int,
        start as int + 1 <= end as int,
    ensures
        start <= next_port(p, start, end),
        next_port(p, start, end) as int + 1 <= end as int,
        next_port(p, start, end) == start || next_port(p, start, end) == p + 2,
{
}

/// Allocation advances by two ports while the next pair fits below `end`, and only
/// then starts over at `start`.
pub proof fn law_ports_advance_by_two(p: u16, start: u16, end: u16)
    ensures
        p as int + 3 <= end as int ==> next_port(p, start, end) == p + 2,
        p as int + 3 > end as int ==> next_port(p, start, end) == start,
{
}

/// The port handed out by the `k`-th allocation (counting from 0) of a fresh
/// allocator over `[start, end]`.
pub open spec fn port_after(start: u16, end: u16, k: nat) -> u16
    decreases k,
{
    if k == 0 {
        start
    } else {
        next_port(port_after(start, end, (k - 1) as nat), start, end)
    }
}

/// A fresh allocator hands out `start`, `start + 2`, `start + 4`, ... for as long
/// as the pair fits in the range: the `k`-th port is `start + 2k` whenever
/// `start + 2k + 1 <= end`.
pub proof fn law_fresh_allocator_counts_up(start: u16, end: u16, k: nat)
    requires
        start as int + 2 * k + 1 <= end as int,
    ensures
        port_after(start, end, k) == start as int + 2 * k,
    decreases k,
{
    if k > 0 {
        law_fresh_allocator_counts_up(start, end, (k - 1) as nat);
    }
}

/// Hanging up a call that was just added undoes the addition: the call was
/// active (answered `204 No Content`), the table is back to what it was, and a
/// second hang-up finds nothing (`404 Not Found`).
pub proof fn law_hangup_undoes_insert(active: Map<Seq<char>, Seq<char>>, call_id: Seq<char>)
    requires
        active.dom().finite(),
        !active.contains_key(call_id),
    ensures
        active.insert(call_id, call_id).contains_key(call_id),
        active.insert(call_id, call_id).len() == active.len() + 1,
        active.insert(call_id, call_id).remove(call_id) == active,
        !active.insert(call_id, call_id).remove(call_id).contains_key(call_id),
{
    assert(active.insert(call_id, call_id).remove(call_id) =~= active);
}

/// An accepted `REGISTER` (digest authentication off, or credentials verified)
/// removes the extension's registration exactly when it asks for 0 (by `Expires`
/// or the `Contact` parameter), and is then granted 0; otherwise it stores the
/// registration for the granted time, whatever that time is (positive when the
/// extension's `min_expires` is). Either way the answer is `200 OK` carrying the
/// granted time (RFC 3261, section 10.2.2).
pub proof fn law_register_expiry_decides_store_or_remove(
    m: SipMessageView,
    src: SourceAddr,
    exts: Seq<Extension>,
    cfg: SipConfig,
    stamp: u128,
)
    requires
        extension_user(m) matches Some(user) && find_extension(exts, user) matches Some(i)
            && register_accepted(m, exts[i], cfg),
    ensures
        ({
            let i = find_extension(exts, extension_user(m)->0)->0;
            let e = exts[i];
            let out = register_outcome(m, src, Some(exts), cfg, stamp);
            let granted = granted_expires(e, requested_expires(m));
            &&& requested_expires(m) == Some(0nat) ==> granted == 0
            &&& requested_expires(m) != Some(0nat) && e.min_expires > 0 ==> granted > 0
            &&& out.response == register_ok(m, granted, stamp)
            &&& requested_expires(m) == Some(0nat) ==> out.change == Some(
                RegistrationChangeView::Remove { extension_number: e.extension_number@ },
            )
            &&& requested_expires(m) != Some(0nat) ==> out.change == Some(
                RegistrationChangeView::Store(registration_of(m, src, e, granted)),
            )
        }),
{
}

/// Trimming leading `c`s drops a prefix, after which `c` no longer leads.
proof fn lemma_trim_start_suffix(s: Seq<char>, c: char) -> (n: int)
    ensures
        0 <= n <= s.len(),
        trim_start_char(s, c) == s.skip(n),
        trim_start_char(s, c).len() > 0 ==> trim_start_char(s, c)[0] != c,
    decreases s.len(),
{
    if s.len() > 0 && s[0] == c {
        let k = lemma_trim_start_suffix(s.drop_first(), c);
        assert(s.drop_first().skip(k) =~= s.skip(k + 1));
        k + 1
    } else {
        assert(s.skip(0) =~= s);
        0
    }
}

/// The user read out of a `sip:` URI is a non-empty part of the text, holds no `@`
/// and does not start with `<`.
#[verifier::spinoff_prover]
pub proof fn law_sip_user_shape(input: Seq<char>)
    ensures
        sip_user_in(input) matches Some(u) ==> {
            &&& u.len() > 0
            &&& !u.contains('@')
            &&& u[0] != '<'
            &&& exists|k: int| 0 <= k && k + u.len() <= input.len() && #[trigger] input.subrange(k, k + u.len()) == u
        },
{
    if let Some(u) = sip_user_in(input) {
        let start = find_first(input, sip_scheme())->0;
        lemma_find_from(input, sip_scheme(), 0);
        let rest = input.skip(start + 4);
        let at = find_char(rest, '@')->0;
        lemma_find_from(rest, seq!['@'], 0);
        let head = rest.take(at);
        let n1 = lemma_trim_start_suffix(head, '"');
        let mid = trim_start_char(head, '"');
        let n2 = lemma_trim_start_suffix(mid, '<');
        assert(u == mid.skip(n2));
        assert forall|j: int| 0 <= j < u.len() implies u[j] != '@' by {
            let p = n1 + n2 + j;
            assert(u[j] == head[p]);
            assert(!occurs_at(rest, seq!['@'], p));
            assert(rest.subrange(p, p + 1) =~= seq![rest[p]]);
        }
        let k = start + 4 + n1 + n2;
        assert(input.subrange(k, k + u.len()) =~= u);
    }
}

} // verus!
