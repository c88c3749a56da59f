//! What the gateway does with each WebSocket frame from a browser.

use vstd::prelude::*;

verus! {

/// The kind of a frame received from a browser.
#[derive(Debug, Clone, Copy, PartialEq, Eq, Structural)]
pub enum FrameKind {
    Text,
    Binary,
    Ping,
    Pong,
    Close,
}

/// What to do with a frame.
#[derive(Debug, Clone, Copy, PartialEq, Eq, Structural)]
pub enum GatewayAction {
    /// Acknowledge the signaling message.
    Acknowledge,
    /// The browser left: stop serving it.
    Stop,
    /// Nothing.
    Ignore,
}

/// Text frames are acknowledged, a close frame ends the session, the rest is ignored.
pub open spec fn frame_action(kind: FrameKind) -> GatewayAction {
    match kind {
        FrameKind::Text => GatewayAction::Acknowledge,
        FrameKind::Close => GatewayAction::Stop,
        _ => GatewayAction::Ignore,
    }
}

pub fn handle_frame(kind: FrameKind) -> (a: GatewayAction)
    ensures
        a == frame_action(kind),
{
    match kind {
        FrameKind::Text => GatewayAction::Acknowledge,
        FrameKind::Close => GatewayAction::Stop,
        _ => GatewayAction::Ignore,
    }
}

/// The acknowledgement sent for a signaling message (JSON).
pub open spec fn acknowledgement_text() -> Seq<char> {
    "{\"message\":\"RustPBX WebRTC Gateway ready for SDP offer\",\"status\":\"connected\",\"type\":\"ack\"}"@
}

/// The acknowledgement sent for a signaling message (see `acknowledgement_text`).
pub fn acknowledgement() -> (r: String)
    ensures
        r@ == acknowledgement_text(),
{
    String::from_str("{\"message\":\"RustPBX WebRTC Gateway ready for SDP offer\",\"status\":\"connected\",\"type\":\"ack\"}")
}

} // verus!
