//! Configuration of the SIP engine.

use vstd::prelude::*;

verus! {

pub struct Config {
    pub sip: SipConfig,
    pub api: ApiConfig,
    pub database: DatabaseConfig,
    pub media_node: MediaNodeConfig,
}

pub struct DatabaseConfig {
    pub db_path: String,
}

pub struct SipConfig {
    pub udp_bind_addr: String,
    pub domain: String,
    pub require_digest_auth: bool,
}

pub struct ApiConfig {
    pub http_bind_addr: String,
    pub secret_key: String,
}

pub struct MediaNodeConfig {
    pub grpc_target_url: String,
}

impl Default for Config {
    /// SIP on UDP 5060 for domain `pbx.local` with digest authentication, the REST
    /// API on 8085, the SQLite store under `data/`, the media node on local port 50051.
    fn default() -> (c: Self)
        ensures
            c.sip.udp_bind_addr@ == "0.0.0.0:5060"@,
            c.sip.domain@ == "pbx.local"@,
            c.sip.require_digest_auth,
            c.api.http_bind_addr@ == "0.0.0.0:8085"@,
            c.api.secret_key@ == "change-me-in-production"@,
            c.database.db_path@ == "sqlite:data/rustpbx.db"@,
            c.media_node.grpc_target_url@ == "http://127.0.0.1:50051"@,
    {
        Config {
            sip: SipConfig {
                udp_bind_addr: String::from_str("0.0.0.0:5060"),
                domain: String::from_str("pbx.local"),
                require_digest_auth: true,
            },
            api: ApiConfig {
                http_bind_addr: String::from_str("0.0.0.0:8085"),
                secret_key: String::from_str("change-me-in-production"),
            },
            database: DatabaseConfig { db_path: String::from_str("sqlite:data/rustpbx.db") },
            media_node: MediaNodeConfig {
                grpc_target_url: String::from_str("http://127.0.0.1:50051"),
            },
        }
    }
}

} // verus!
