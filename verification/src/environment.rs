//! A snapshot of the environment variables the resolver reads, together with
//! the deployment environment of the running service.
//!
//! Resolution never touches ambient process state: the caller captures the
//! relevant variables once, at startup, and hands the snapshot in. For every
//! variable, absence (`None`) and presence (`Some`) are distinguished, since
//! several settings key on presence alone.

use vstd::prelude::*;

verus! {

/// The deployment environment of the running service.
#[derive(Clone, Copy, PartialEq, Eq, Structural)]
pub enum Env {
    Development,
    Test,
    Production,
}

/// Base configuration shared by the whole service; resolution only reads the
/// deployment environment from it.
pub struct Base {
    pub env: Env,
}

/// The value of an optional environment variable, as a sequence of characters.
pub open spec fn opt_string_view(o: Option<String>) -> Option<Seq<char>> {
    match o {
        Some(s) => Some(s@),
        None => None,
    }
}

/// A snapshot of every environment variable the resolver consumes.
///
/// Each field holds the value of the variable of the same (upper-case) name,
/// or `None` when that variable was not set.
pub struct Environment {
    pub database_url: Option<String>,
    pub read_only_replica_url: Option<String>,
    pub read_only_mode: Option<String>,
    pub db_primary_pool_size: Option<String>,
    pub db_replica_pool_size: Option<String>,
    pub db_primary_min_idle: Option<String>,
    pub db_replica_min_idle: Option<String>,
    pub db_tcp_timeout_ms: Option<String>,
    pub db_timeout: Option<String>,
    pub db_helper_threads: Option<String>,
    pub db_offline: Option<String>,
}

/// The mathematical content of an [`Environment`] snapshot.
pub struct EnvironmentView {
    pub database_url: Option<Seq<char>>,
    pub read_only_replica_url: Option<Seq<char>>,
    pub read_only_mode: Option<Seq<char>>,
    pub db_primary_pool_size: Option<Seq<char>>,
    pub db_replica_pool_size: Option<Seq<char>>,
    pub db_primary_min_idle: Option<Seq<char>>,
    pub db_replica_min_idle: Option<Seq<char>>,
    pub db_tcp_timeout_ms: Option<Seq<char>>,
    pub db_timeout: Option<Seq<char>>,
    pub db_helper_threads: Option<Seq<char>>,
    pub db_offline: Option<Seq<char>>,
}

impl View for Environment {
    type V = EnvironmentView;

    open spec fn view(&self) -> EnvironmentView {
        EnvironmentView {
            database_url: opt_string_view(self.database_url),
            read_only_replica_url: opt_string_view(self.read_only_replica_url),
            read_only_mode: opt_string_view(self.read_only_mode),
            db_primary_pool_size: opt_string_view(self.db_primary_pool_size),
            db_replica_pool_size: opt_string_view(self.db_replica_pool_size),
            db_primary_min_idle: opt_string_view(self.db_primary_min_idle),
            db_replica_min_idle: opt_string_view(self.db_replica_min_idle),
            db_tcp_timeout_ms: opt_string_view(self.db_tcp_timeout_ms),
            db_timeout: opt_string_view(self.db_timeout),
            db_helper_threads: opt_string_view(self.db_helper_threads),
            db_offline: opt_string_view(self.db_offline),
        }
    }
}

impl Default for Environment {
    /// A snapshot in which no variable is set.
    fn default() -> (e: Self)
        ensures
            e@.database_url is None,
            e@.read_only_replica_url is None,
            e@.read_only_mode is None,
            e@.db_primary_pool_size is None,
            e@.db_replica_pool_size is None,
            e@.db_primary_min_idle is None,
            e@.db_replica_min_idle is None,
            e@.db_tcp_timeout_ms is None,
            e@.db_timeout is None,
            e@.db_helper_threads is None,
            e@.db_offline is None,
    {
        Environment {
            database_url: None,
            read_only_replica_url: None,
            read_only_mode: None,
            db_primary_pool_size: None,
            db_replica_pool_size: None,
            db_primary_min_idle: None,
            db_replica_min_idle: None,
            db_tcp_timeout_ms: None,
            db_timeout: None,
            db_helper_threads: None,
            db_offline: None,
        }
    }
}

} // verus!
