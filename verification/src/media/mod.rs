//! The media node: RTP relaying, port allocation and recording.

pub mod config;
pub mod recorder;
pub mod relay;
pub mod service;
