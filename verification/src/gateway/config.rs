//! Configuration of the WebRTC gateway.

use vstd::prelude::*;

verus! {

pub struct Config {
    pub server: ServerConfig,
    pub sip_engine: SipEngineConfig,
}

pub struct ServerConfig {
    pub wss_bind_addr: String,
}

pub struct SipEngineConfig {
    pub sip_udp_target: String,
}

impl Default for Config {
    /// WebSocket signaling on port 8089, bridged to the SIP engine on local UDP 5060.
    fn default() -> (c: Self)
        ensures
            c.server.wss_bind_addr@ == "0.0.0.0:8089"@,
            c.sip_engine.sip_udp_target@ == "127.0.0.1:5060"@,
    {
        Config {
            server: ServerConfig { wss_bind_addr: String::from_str("0.0.0.0:8089") },
            sip_engine: SipEngineConfig { sip_udp_target: String::from_str("127.0.0.1:5060") },
        }
    }
}

} // verus!
