//! The web administration service: its records, the defaults and SQL it derives
//! from requests, the dashboard, and the embedded user interface's paths.

pub mod config;
pub mod extensions;
pub mod dialplan;
pub mod trunks;
pub mod system;
pub mod static_files;
