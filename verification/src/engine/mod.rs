//! The core SIP engine: its configuration, stored extensions, call bookkeeping,
//! border controller hooks, log records and REST answers.

pub mod config;
pub mod store;
pub mod logger;
pub mod b2bua;
pub mod sbc;
pub mod rest;
