//! Answers of the engine's REST control API.

use vstd::prelude::*;
use crate::text::{decimal, decimal_u128, push_all, str_chars, chars_to_string};
use crate::engine::b2bua::CallManager;

verus! {

/// A request to start a call from one party to another.
pub struct OriginateRequest {
    pub from: String,
    pub to: String,
}

/// The answer to a call request: the new call's id and its status.
pub struct CallResponse {
    pub call_id: String,
    pub status: String,
}

/// The engine's version and how many calls are active.
pub struct SystemInfo {
    pub active_calls: usize,
    pub version: &'static str,
}

/// The id of a call started at `stamp`: `call-` and the stamp in decimal.
pub open spec fn call_id_text(stamp: u128) -> Seq<char> {
    seq!['c', 'a', 'l', 'l', '-'] + decimal(stamp as nat)
}

pub open spec fn initiating_text() -> Seq<char> {
    seq!['i', 'n', 'i', 't', 'i', 'a', 't', 'i', 'n', 'g']
}

/// Accepts a call request: the call gets the id made from `stamp` and is
/// `initiating`.
pub fn originate_call(payload: &OriginateRequest, stamp: u128) -> (r: CallResponse)
    ensures
        r.call_id@ == call_id_text(stamp),
        r.status@ == initiating_text(),
{
    let mut id = vec!['c', 'a', 'l', 'l', '-'];
    push_all(&mut id, &decimal_u128(stamp));
    assert(id@ =~= call_id_text(stamp));
    let status = vec!['i', 'n', 'i', 't', 'i', 'a', 't', 'i', 'n', 'g'];
    assert(status@ =~= initiating_text());
    CallResponse { call_id: chars_to_string(&id), status: chars_to_string(&status) }
}

/// The number of active calls.
pub fn list_calls(manager: &CallManager) -> (n: usize)
    ensures
        n == manager.active().len(),
{
    manager.active_call_count()
}

/// Hangs up the call with `call_id`: `204` when it was active (it is removed),
/// `404` when it was not.
pub fn hangup_call(manager: &mut CallManager, call_id: &str) -> (status: u16)
    ensures
        status == (if old(manager).active().contains_key(call_id@) { 204u16 } else { 404u16 }),
        final(manager).active() == old(manager).active().remove(call_id@),
{
    if manager.remove_call(call_id).is_some() {
        204
    } else {
        404
    }
}

/// The system information: the active call count and the given version.
pub fn system_info(manager: &CallManager, version: &'static str) -> (r: SystemInfo)
    ensures
        r.active_calls == manager.active().len(),
        r.version == version,
{
    SystemInfo { active_calls: manager.active_call_count(), version }
}

} // verus!
