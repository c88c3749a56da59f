//! Symmetric RTP relaying: where each received packet goes.

use vstd::prelude::*;

verus! {

/// A socket address, compared as `std::net::SocketAddr` compares them.
#[derive(Debug, Clone, Copy, PartialEq, Eq, Structural)]
pub enum PeerAddr {
    V4 { ip: u32, port: u16 },
    V6 { ip: u128, port: u16, flowinfo: u32, scope_id: u32 },
}

/// Where a received packet goes, and the remote target after it.
#[derive(Debug, Clone, Copy, PartialEq, Eq, Structural)]
pub struct RelayDecision {
    pub target: Option<PeerAddr>,
    pub forward_to: Option<PeerAddr>,
}

/// The relay rule for a packet from `src` while the remote target is `target`: an
/// unset target is learned from the packet's source; the packet is then sent to the
/// target unless it came from there.
pub open spec fn relay_rule(target: Option<PeerAddr>, src: PeerAddr) -> RelayDecision {
    let learned = match target {
        Some(t) => t,
        None => src,
    };
    RelayDecision {
        target: Some(learned),
        forward_to: if learned != src { Some(learned) } else { None },
    }
}

/// Decides where a packet received from `src` goes (see `relay_rule`).
pub fn relay_packet(target: Option<PeerAddr>, src: PeerAddr) -> (d: RelayDecision)
    ensures
        d == relay_rule(target, src),
{
    let learned = match target {
        Some(t) => t,
        None => src,
    };
    RelayDecision { target: Some(learned), forward_to: if learned != src { Some(learned) } else { None } }
}

/// A remote target is configured up front only when both an address and a port
/// are given.
pub fn wants_remote_target(remote_ip: &str, remote_port: u16) -> (r: bool)
    ensures
        r == (remote_ip@.len() > 0 && remote_port > 0),
{
    remote_ip.unicode_len() > 0 && remote_port > 0
}

} // verus!
