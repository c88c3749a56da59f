//! Configuration of the media node.

use vstd::prelude::*;

verus! {

pub struct Config {
    pub server: ServerConfig,
    pub rtp: RtpConfig,
    pub storage: StorageConfig,
}

pub struct ServerConfig {
    pub grpc_bind_addr: String,
}

pub struct RtpConfig {
    pub bind_ip: String,
    pub port_range_start: u16,
    pub port_range_end: u16,
}

pub struct StorageConfig {
    pub recording_dir: String,
}

impl Default for Config {
    /// gRPC on local port 50051, RTP on all addresses in ports 10000 to 20000,
    /// recordings under `/var/lib/rustpbx/recordings`.
    fn default() -> (c: Self)
        ensures
            c.server.grpc_bind_addr@ == "127.0.0.1:50051"@,
            c.rtp.bind_ip@ == "0.0.0.0"@,
            c.rtp.port_range_start == 10000,
            c.rtp.port_range_end == 20000,
            c.storage.recording_dir@ == "/var/lib/rustpbx/recordings"@,
    {
        Config {
            server: ServerConfig { grpc_bind_addr: String::from_str("127.0.0.1:50051") },
            rtp: RtpConfig {
                bind_ip: String::from_str("0.0.0.0"),
                port_range_start: 10000,
                port_range_end: 20000,
            },
            storage: StorageConfig { recording_dir: String::from_str("/var/lib/rustpbx/recordings") },
        }
    }
}

} // verus!
