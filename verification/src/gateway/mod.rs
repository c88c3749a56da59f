//! The WebRTC edge gateway.

pub mod config;
pub mod signaling;
