//! The settings read at start-up, and the choice of backend they make.

use vstd::prelude::*;

verus! {

/// All settings of the service.
#[derive(Clone, Debug)]
pub struct Configuration {
    pub http_server: HttpServerConfiguration,
    pub database: DatabaseConfiguration,
}

/// Where the HTTP layer listens.
#[derive(Clone, Debug)]
pub struct HttpServerConfiguration {
    pub host: String,
    pub port: u16,
}

/// How the relational backend connects, and which backend to use.
#[derive(Clone, Debug)]
pub struct DatabaseConfiguration {
    pub database_url: String,
    pub log_level: String,
    pub max_open_connections: u16,
    pub store_type: String,
}

/// The backend that serves the process for its whole lifetime.
#[derive(Clone, Copy, Debug, PartialEq, Eq, Structural)]
pub enum StoreKind {
    Sql,
    Memory,
}

impl DatabaseConfiguration {
    /// `store_type` "sql" selects the relational backend; any other value the
    /// in-memory one.
    pub fn store_kind(&self) -> (r: StoreKind)
        ensures
            r == (if self.store_type@ == "sql"@ {
                StoreKind::Sql
            } else {
                StoreKind::Memory
            }),
    {
        let sql = "sql".to_owned();
        if self.store_type.eq(&sql) {
            StoreKind::Sql
        } else {
            StoreKind::Memory
        }
    }
}

} // verus!
