//! The dashboard: registrations and the state of each service.

use vstd::prelude::*;

verus! {

/// One service on the dashboard.
pub struct ServiceStatus {
    pub name: &'static str,
    pub port: &'static str,
    pub status: &'static str,
}

/// What the dashboard shows.
pub struct DashboardMetrics {
    pub total_registered_subscribers: i64,
    pub active_calls: u64,
    pub database_status: &'static str,
    pub services: Vec<ServiceStatus>,
}

pub open spec fn running_or(running: bool, otherwise: Seq<char>) -> Seq<char> {
    if running { "running"@ } else { otherwise }
}

fn status_text(running: bool, otherwise: &'static str) -> (r: &'static str)
    ensures
        r@ == running_or(running, otherwise@),
{
    if running { "running" } else { otherwise }
}

/// The dashboard, given the number of unexpired registrations and which services
/// answered their probes: the SIP engine and the media node are `running` or
/// `stopped`, the web administration (which is answering) is `running`, the WebRTC
/// gateway is `running` or `standby`; no active calls are counted, and the
/// database is reported healthy.
pub fn dashboard_metrics(
    registered: i64,
    sip_engine_running: bool,
    media_node_running: bool,
    webrtc_gateway_running: bool,
) -> (d: DashboardMetrics)
    ensures
        d.total_registered_subscribers == registered,
        d.active_calls == 0,
        d.database_status@ == "Healthy (SQLite WAL)"@,
        d.services@.len() == 4,
        d.services@[0].name@ == "sip-engine (Core B2BUA)"@,
        d.services@[0].port@ == "5060 UDP / 8085 HTTP"@,
        d.services@[0].status@ == running_or(sip_engine_running, "stopped"@),
        d.services@[1].name@ == "media-node (RTP Engine)"@,
        d.services@[1].port@ == "50051 gRPC"@,
        d.services@[1].status@ == running_or(media_node_running, "stopped"@),
        d.services@[2].name@ == "web-admin (Management UI)"@,
        d.services@[2].port@ == "8088 HTTP"@,
        d.services@[2].status@ == "running"@,
        d.services@[3].name@ == "webrtc-gateway (WSS Edge)"@,
        d.services@[3].port@ == "8089 WSS"@,
        d.services@[3].status@ == running_or(webrtc_gateway_running, "standby"@),
{
    let mut services: Vec<ServiceStatus> = Vec::new();
    services.push(ServiceStatus {
        name: "sip-engine (Core B2BUA)",
        port: "5060 UDP / 8085 HTTP",
        status: status_text(sip_engine_running, "stopped"),
    });
    services.push(ServiceStatus {
        name: "media-node (RTP Engine)",
        port: "50051 gRPC",
        status: status_text(media_node_running, "stopped"),
    });
    services.push(ServiceStatus {
        name: "web-admin (Management UI)",
        port: "8088 HTTP",
        status: status_text(true, "stopped"),
    });
    services.push(ServiceStatus {
        name: "webrtc-gateway (WSS Edge)",
        port: "8089 WSS",
        status: status_text(webrtc_gateway_running, "standby"),
    });
    DashboardMetrics {
        total_registered_subscribers: registered,
        active_calls: 0,
        database_status: "Healthy (SQLite WAL)",
        services,
    }
}

} // verus!
