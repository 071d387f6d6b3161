//! Resolution of database pool configuration from a snapshot of named
//! environment variables.
//!
//! The resolver reads a fixed set of variables, applies defaults and numeric
//! parsing, and assembles an immutable [`database_pools::DatabasePools`] value
//! through a decision procedure keyed on the `DB_OFFLINE` override.

pub mod database_pools;
pub mod decimal;
pub mod environment;
pub mod secret;
