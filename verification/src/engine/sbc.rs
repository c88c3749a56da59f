//! Session border controller hooks. Both only inspect messages for now: neither
//! changes the message it is given.

use vstd::prelude::*;
use crate::sip::message::{SipMessage, SourceAddr};

verus! {

/// NAT traversal of inbound messages.
pub struct NatTraversal;

impl NatTraversal {
    /// Looks at an inbound message from `src_addr`; the message is left as it is.
    pub fn process_inbound(&self, msg: &mut SipMessage, src_addr: &SourceAddr)
        ensures
            *final(msg) == *old(msg),
    {
    }
}

/// Topology hiding between the inside and the outside of the border.
pub struct TopologyHiding;

impl TopologyHiding {
    /// Looks at an inbound message; the message is left as it is.
    pub fn mask_inbound(&self, msg: &mut SipMessage)
        ensures
            *final(msg) == *old(msg),
    {
    }

    /// Looks at an outbound message leaving through `public_sbc_addr`; the message
    /// is left as it is.
    pub fn mask_outbound(&self, msg: &mut SipMessage, public_sbc_addr: &SourceAddr)
        ensures
            *final(msg) == *old(msg),
    {
    }
}

/// The border controller's processing stages.
pub struct SbcPipeline {
    pub topology_hiding: TopologyHiding,
    pub nat_traversal: NatTraversal,
}

impl Default for SbcPipeline {
    fn default() -> (p: SbcPipeline)
        ensures
            p.topology_hiding == TopologyHiding,
            p.nat_traversal == NatTraversal,
    {
        SbcPipeline { topology_hiding: TopologyHiding, nat_traversal: NatTraversal }
    }
}

} // verus!
