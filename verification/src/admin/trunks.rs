//! SIP trunks as the administration service manages them.

use vstd::prelude::*;

verus! {

/// A trunk to an outside SIP server.
pub struct Trunk {
    pub id: i64,
    pub trunk_name: String,
    pub sip_server: String,
    pub port: i64,
    pub auth_username: Option<String>,
    pub auth_password: Option<String>,
    pub is_active: i64,
}

pub struct CreateTrunkRequest {
    pub trunk_name: String,
    pub sip_server: String,
    pub port: Option<i64>,
    pub auth_username: Option<String>,
    pub auth_password: Option<String>,
}

/// The values stored for a new trunk.
pub struct NewTrunk {
    pub trunk_name: String,
    pub sip_server: String,
    pub port: i64,
    pub auth_username: Option<String>,
    pub auth_password: Option<String>,
}

/// The values stored for a new trunk: those requested, port 5060 when none is given.
pub fn new_trunk_from(payload: CreateTrunkRequest) -> (t: NewTrunk)
    ensures
        t.trunk_name == payload.trunk_name,
        t.sip_server == payload.sip_server,
        t.port == match payload.port {
            Some(p) => p,
            None => 5060,
        },
        t.auth_username == payload.auth_username,
        t.auth_password == payload.auth_password,
{
    let port = match payload.port {
        Some(p) => p,
        None => 5060,
    };
    NewTrunk {
        trunk_name: payload.trunk_name,
        sip_server: payload.sip_server,
        port,
        auth_username: payload.auth_username,
        auth_password: payload.auth_password,
    }
}

} // verus!
