//! Verified core of a SIP PBX: message handling decisions, digest
//! authentication, configuration defaults and administration rules.

pub mod text;
pub mod clock;
pub mod sip;
pub mod engine;
pub mod media;
pub mod gateway;
pub mod admin;
pub mod laws;
