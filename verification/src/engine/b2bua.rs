//! Back-to-back user agent bookkeeping: call legs, bridged calls and the table of
//! active calls.

use std::sync::Arc;
use std::time::Instant;
use dashmap::DashMap;
use vstd::prelude::*;
use crate::clock::{instant_now, elapsed, duration_secs};

verus! {

/// The state of a bridged call.
#[derive(Debug, Clone, Copy, PartialEq, Eq, Structural)]
pub enum CallState {
    Initiating,
    Ringing,
    Connected,
    Terminated,
}

/// Which side of a dialog the engine plays.
#[derive(Debug, Clone, Copy, PartialEq, Eq, Structural)]
pub enum DialogRole {
    /// User agent client: the engine sent the `INVITE`.
    Uac,
    /// User agent server: the engine received the `INVITE`.
    Uas,
}

/// The dialog of one call leg, as far as the engine reads it.
pub struct InviteDialog {
    pub role: DialogRole,
}

/// One leg of a bridged call: its dialog and the URI it targets.
pub struct CallLeg {
    pub dialog: InviteDialog,
    pub target_uri: String,
}

impl CallLeg {
    pub fn new(dialog: InviteDialog, target_uri: String) -> (l: CallLeg)
        ensures
            l.dialog == dialog,
            l.target_uri == target_uri,
    {
        CallLeg { dialog, target_uri }
    }

    /// The role the engine plays in this leg's dialog.
    pub fn role(&self) -> (r: DialogRole)
        ensures
            r == self.dialog.role,
    {
        self.dialog.role
    }
}

/// A call bridged between an incoming leg (`leg_a`, where the engine is the server)
/// and an outgoing leg (`leg_b`, where it is the client).
pub struct CallBridge {
    pub call_id: String,
    pub leg_a: CallLeg,
    pub leg_b: CallLeg,
    pub state: CallState,
    pub started_at: Instant,
    pub answered_at: Option<Instant>,
}

impl CallBridge {
    /// A call that starts now, initiating and not answered.
    pub fn new(call_id: String, leg_a: CallLeg, leg_b: CallLeg) -> (b: CallBridge)
        ensures
            b.call_id == call_id,
            b.leg_a == leg_a,
            b.leg_b == leg_b,
            b.state == CallState::Initiating,
            b.answered_at is None,
    {
        CallBridge {
            call_id,
            leg_a,
            leg_b,
            state: CallState::Initiating,
            started_at: instant_now(),
            answered_at: None,
        }
    }

    /// The call is answered now: it becomes connected and records the moment.
    pub fn mark_answered(&mut self)
        ensures
            final(self).state == CallState::Connected,
            final(self).answered_at is Some,
            final(self).call_id == old(self).call_id,
            final(self).leg_a == old(self).leg_a,
            final(self).leg_b == old(self).leg_b,
            final(self).started_at == old(self).started_at,
    {
        self.state = CallState::Connected;
        self.answered_at = Some(instant_now());
    }

    /// Whole seconds since the call was answered; 0 while it is not.
    pub fn duration_secs(&self) -> (d: u64)
        ensures
            self.answered_at is None ==> d == 0,
    {
        match &self.answered_at {
            Some(t) => duration_secs(&elapsed(t)),
            None => 0,
        }
    }
}

#[verifier::external_type_specification]
#[verifier::external_body]
#[verifier::reject_recursive_types(K)]
#[verifier::reject_recursive_types(V)]
#[verifier::reject_recursive_types(S)]
pub struct ExDashMap<K, V, S>(DashMap<K, V, S>);

/// What a table of calls holds: for each key, the call id of the bridge stored
/// under it.
pub uninterp spec fn call_table(m: DashMap<String, Arc<CallBridge>>) -> Map<Seq<char>, Seq<char>>;

/// `DashMap::new`: an empty map.
#[verifier::external_body]
fn call_table_new() -> (table: DashMap<String, Arc<CallBridge>>)
    ensures
        call_table(table).is_empty(),
{
    DashMap::new()
}

/// `DashMap::insert`: `key` now maps to `value`, replacing what it mapped to.
#[verifier::external_body]
fn call_table_insert(m: &mut DashMap<String, Arc<CallBridge>>, key: String, value: Arc<CallBridge>)
    ensures
        call_table(*final(m)) == call_table(*old(m)).insert(key@, value.call_id@),
{
    m.insert(key, value);
}

/// `DashMap::remove`: the entry for `key` leaves the map, and its value is returned
/// when there was one.
#[verifier::external_body]
fn call_table_remove(m: &mut DashMap<String, Arc<CallBridge>>, key: &str) -> (r: Option<Arc<CallBridge>>)
    ensures
        r is Some <==> call_table(*old(m)).contains_key(key@),
        r matches Some(b) ==> b.call_id@ == call_table(*old(m))[key@],
        call_table(*final(m)) == call_table(*old(m)).remove(key@),
{
    m.remove(key).map(|(_, b)| b)
}

/// `DashMap::len`: the number of entries.
#[verifier::external_body]
fn call_table_len(m: &DashMap<String, Arc<CallBridge>>) -> (n: usize)
    ensures
        n == call_table(*m).len(),
{
    m.len()
}

/// The active calls, by call id.
pub struct CallManager {
    calls: DashMap<String, Arc<CallBridge>>,
}

impl CallManager {
    /// The call ids of the active calls, each mapped to the id of its bridge.
    pub closed spec fn active(&self) -> Map<Seq<char>, Seq<char>> {
        call_table(self.calls)
    }

    /// Each active call is stored under its own call id.
    pub open spec fn keyed_by_call_id(&self) -> bool {
        forall|k: Seq<char>| #[trigger] self.active().contains_key(k) ==> self.active()[k] == k
    }

    /// No active calls.
    pub fn new() -> (m: CallManager)
        ensures
            m.active() == Map::<Seq<char>, Seq<char>>::empty(),
            m.keyed_by_call_id(),
    {
        CallManager::default()
    }

    /// Adds a bridged call under its call id (replacing one with the same id).
    pub fn insert_call(&mut self, bridge: CallBridge)
        ensures
            final(self).active() == old(self).active().insert(bridge.call_id@, bridge.call_id@),
            old(self).keyed_by_call_id() ==> final(self).keyed_by_call_id(),
    {
        let key = bridge.call_id.clone();
        let ghost id = bridge.call_id@;
        call_table_insert(&mut self.calls, key, Arc::new(bridge));
        assert(old(self).keyed_by_call_id() ==> self.keyed_by_call_id()) by {
            if old(self).keyed_by_call_id() {
                assert forall|k: Seq<char>| #[trigger] self.active().contains_key(k) implies self.active()[k] == k by {
                    if k != id {
                        assert(old(self).active().contains_key(k));
                    }
                }
            }
        }
    }

    /// Removes the call with `call_id`, returning it when it was active.
    pub fn remove_call(&mut self, call_id: &str) -> (r: Option<Arc<CallBridge>>)
        ensures
            r is Some <==> old(self).active().contains_key(call_id@),
            r matches Some(b) ==> b.call_id@ == old(self).active()[call_id@],
            old(self).keyed_by_call_id() ==> final(self).keyed_by_call_id(),
            final(self).active() == old(self).active().remove(call_id@),
    {
        let r = call_table_remove(&mut self.calls, call_id);
        assert(old(self).keyed_by_call_id() ==> self.keyed_by_call_id()) by {
            if old(self).keyed_by_call_id() {
                assert forall|k: Seq<char>| #[trigger] self.active().contains_key(k) implies self.active()[k] == k by {
                    assert(old(self).active().contains_key(k));
                }
            }
        }
        r
    }

    /// The number of active calls.
    pub fn active_call_count(&self) -> (n: usize)
        ensures
            n == self.active().len(),
    {
        call_table_len(&self.calls)
    }
}

impl Default for CallManager {
    fn default() -> (m: CallManager)
        ensures
            m.active() == Map::<Seq<char>, Seq<char>>::empty(),
            m.keyed_by_call_id(),
    {
        let m = CallManager { calls: call_table_new() };
        assert(m.active() =~= Map::<Seq<char>, Seq<char>>::empty());
        m
    }
}

} // verus!
