//! Configuration of the web administration service.

use vstd::prelude::*;

verus! {

pub struct Config {
    pub server: ServerConfig,
    pub database: DatabaseConfig,
}

pub struct ServerConfig {
    pub http_bind_addr: String,
}

pub struct DatabaseConfig {
    pub db_path: String,
}

impl Default for Config {
    /// HTTP on port 8088, the shared SQLite store under `data/`.
    fn default() -> (c: Self)
        ensures
            c.server.http_bind_addr@ == "0.0.0.0:8088"@,
            c.database.db_path@ == "sqlite:data/rustpbx.db"@,
    {
        Config {
            server: ServerConfig { http_bind_addr: String::from_str("0.0.0.0:8088") },
            database: DatabaseConfig { db_path: String::from_str("sqlite:data/rustpbx.db") },
        }
    }
}

} // verus!
