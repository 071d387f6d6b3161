//! Resolution of database pool configuration.
//!
//! - `DATABASE_URL`: the URL of the primary database.
//! - `READ_ONLY_REPLICA_URL`: the URL of an optional read-only replica database.
//! - `DB_PRIMARY_POOL_SIZE`: the number of connections of the primary database.
//! - `DB_REPLICA_POOL_SIZE`: the number of connections of the replica database.
//! - `DB_PRIMARY_MIN_IDLE`: the primary pool will maintain at least this number
//!   of connections.
//! - `DB_REPLICA_MIN_IDLE`: the replica pool will maintain at least this number
//!   of connections.
//! - `DB_TCP_TIMEOUT_MS`: TCP timeout in milliseconds.
//! - `DB_TIMEOUT`: connection and statement timeout in seconds.
//! - `DB_HELPER_THREADS`: the number of threads for asynchronous pool work.
//! - `DB_OFFLINE`: if set to `leader` then use the read-only replica as if it
//!   was the leader. If set to `follower` then act as if
//!   `READ_ONLY_REPLICA_URL` was unset.
//! - `READ_ONLY_MODE`: if present (even empty) then force all connections to be
//!   read-only.

use vstd::prelude::*;
use vstd::string::StringExecFns;
use crate::decimal::{decimal_value, is_decimal_string, parse_u32, parse_u64, parse_usize};
use crate::environment::{opt_string_view, Base, Env, Environment, EnvironmentView};
use crate::secret::SecretString;

verus! {

/// Pool size used when the corresponding variable is not set.
pub const DEFAULT_POOL_SIZE: u32 = 3;

/// TCP timeout in milliseconds used when `DB_TCP_TIMEOUT_MS` is not set.
pub const DEFAULT_TCP_TIMEOUT_MS: u64 = 15 * 1000;

/// Timeout in seconds used when `DB_TIMEOUT` is not set.
pub const DEFAULT_TIMEOUT_SECS: u64 = 30;

/// Helper thread count used when `DB_HELPER_THREADS` is not set.
pub const DEFAULT_HELPER_THREADS: usize = 3;

/// The environment variables that can appear in a configuration error.
#[derive(Clone, Copy, Debug, PartialEq, Eq, Structural)]
pub enum ConfigVar {
    DatabaseUrl,
    ReadOnlyReplicaUrl,
    DbPrimaryPoolSize,
    DbReplicaPoolSize,
    DbPrimaryMinIdle,
    DbReplicaMinIdle,
    DbTcpTimeoutMs,
    DbTimeout,
    DbHelperThreads,
}

impl ConfigVar {
    /// The name of the environment variable.
    pub open spec fn spec_name(self) -> Seq<char> {
        match self {
            ConfigVar::DatabaseUrl => "DATABASE_URL"@,
            ConfigVar::ReadOnlyReplicaUrl => "READ_ONLY_REPLICA_URL"@,
            ConfigVar::DbPrimaryPoolSize => "DB_PRIMARY_POOL_SIZE"@,
            ConfigVar::DbReplicaPoolSize => "DB_REPLICA_POOL_SIZE"@,
            ConfigVar::DbPrimaryMinIdle => "DB_PRIMARY_MIN_IDLE"@,
            ConfigVar::DbReplicaMinIdle => "DB_REPLICA_MIN_IDLE"@,
            ConfigVar::DbTcpTimeoutMs => "DB_TCP_TIMEOUT_MS"@,
            ConfigVar::DbTimeout => "DB_TIMEOUT"@,
            ConfigVar::DbHelperThreads => "DB_HELPER_THREADS"@,
        }
    }

    /// The name of the environment variable.
    pub fn name(&self) -> (r: &'static str)
        ensures
            r@ == self.spec_name(),
    {
        match self {
            ConfigVar::DatabaseUrl => "DATABASE_URL",
            ConfigVar::ReadOnlyReplicaUrl => "READ_ONLY_REPLICA_URL",
            ConfigVar::DbPrimaryPoolSize => "DB_PRIMARY_POOL_SIZE",
            ConfigVar::DbReplicaPoolSize => "DB_REPLICA_POOL_SIZE",
            ConfigVar::DbPrimaryMinIdle => "DB_PRIMARY_MIN_IDLE",
            ConfigVar::DbReplicaMinIdle => "DB_REPLICA_MIN_IDLE",
            ConfigVar::DbTcpTimeoutMs => "DB_TCP_TIMEOUT_MS",
            ConfigVar::DbTimeout => "DB_TIMEOUT",
            ConfigVar::DbHelperThreads => "DB_HELPER_THREADS",
        }
    }
}

/// A fatal configuration error. Resolution either fully succeeds or the
/// process must not start; no error is recoverable or retried.
#[derive(Clone, Copy, Debug, PartialEq, Eq, Structural)]
pub enum ConfigError {
    /// A variable that the selected mode requires was not set.
    MissingRequiredValue(ConfigVar),
    /// A numeric variable was set but could not be parsed.
    InvalidNumericValue(ConfigVar),
}

impl ConfigError {
    /// The error message, naming the offending variable. Secret values never
    /// appear in error text.
    pub open spec fn spec_message(self) -> Seq<char> {
        match self {
            ConfigError::MissingRequiredValue(var) => "missing required environment variable: "@
                + var.spec_name(),
            ConfigError::InvalidNumericValue(var) => "couldn't parse environment variable: "@
                + var.spec_name(),
        }
    }

    /// Renders the error message, naming the offending variable.
    pub fn message(&self) -> (m: String)
        ensures
            m@ == self.spec_message(),
    {
        match self {
            ConfigError::MissingRequiredValue(var) => "missing required environment variable: ".to_owned().concat(var.name()),
            ConfigError::InvalidNumericValue(var) => "couldn't parse environment variable: ".to_owned().concat(var.name()),
        }
    }
}

/// The failover mode, selected once at startup by `DB_OFFLINE` and fixed for
/// the lifetime of the process.
#[derive(Clone, Copy, Debug, PartialEq, Eq, Structural)]
pub enum Mode {
    /// No override: primary from `DATABASE_URL`, replica if a URL is supplied.
    Normal,
    /// `DB_OFFLINE=leader`: the leader is down; the replica URL backs the
    /// primary pool, read-only.
    ForcedLeaderOffline,
    /// `DB_OFFLINE=follower`: the replica is down; no replica pool is built.
    ForcedFollowerOffline,
}

/// The mode selected by a `DB_OFFLINE` value: `leader` and `follower` choose
/// an override; absence or any other value selects normal operation.
pub open spec fn spec_mode(db_offline: Option<Seq<char>>) -> Mode {
    match db_offline {
        Some(s) => if s == "leader"@ {
            Mode::ForcedLeaderOffline
        } else if s == "follower"@ {
            Mode::ForcedFollowerOffline
        } else {
            Mode::Normal
        },
        None => Mode::Normal,
    }
}

impl Mode {
    /// Selects the mode from the value of `DB_OFFLINE`.
    pub fn from_db_offline(db_offline: &Option<String>) -> (m: Mode)
        ensures
            m == spec_mode(opt_string_view(*db_offline)),
    {
        match db_offline {
            Some(value) => {
                if *value == "leader".to_owned() {
                    Mode::ForcedLeaderOffline
                } else if *value == "follower".to_owned() {
                    Mode::ForcedFollowerOffline
                } else {
                    Mode::Normal
                }
            },
            None => Mode::Normal,
        }
    }
}

/// Settings for one connection pool.
pub struct DbPoolConfig {
    /// The connection string. Secret: never rendered in log or error output.
    pub url: SecretString,
    /// Whether connections opened from this pool must be restricted to
    /// read-only transactions.
    pub read_only_mode: bool,
    /// Maximum number of concurrent connections.
    pub pool_size: u32,
    /// Connections to keep warm; `None` means the pool implementation's
    /// default.
    pub min_idle: Option<u32>,
}

/// The mathematical content of a [`DbPoolConfig`].
pub struct DbPoolConfigView {
    pub url: Seq<char>,
    pub read_only_mode: bool,
    pub pool_size: u32,
    pub min_idle: Option<u32>,
}

impl View for DbPoolConfig {
    type V = DbPoolConfigView;

    open spec fn view(&self) -> DbPoolConfigView {
        DbPoolConfigView {
            url: self.url@,
            read_only_mode: self.read_only_mode,
            pool_size: self.pool_size,
            min_idle: self.min_idle,
        }
    }
}

/// The resolved, immutable configuration for one or two database pools.
pub struct DatabasePools {
    /// Settings for the primary database. This is usually writeable, but will
    /// be read-only in some configurations.
    pub primary: DbPoolConfig,
    /// An optional follower database. Always read-only.
    pub replica: Option<DbPoolConfig>,
    /// Number of milliseconds to wait for unacknowledged TCP packets before
    /// treating the connection as broken.
    pub tcp_timeout_ms: u64,
    /// Number of seconds to wait for a connection to become available from the
    /// connection pool before returning an error.
    pub connection_timeout: u64,
    /// Number of seconds to wait for a query response before canceling the
    /// query and returning an error.
    pub statement_timeout: u64,
    /// Number of threads to use for asynchronous operations such as connection
    /// creation.
    pub helper_threads: usize,
    /// Whether to enforce that all the database connections are encrypted with
    /// TLS.
    pub enforce_tls: bool,
}

/// The mathematical content of a [`DatabasePools`] value.
pub struct DatabasePoolsView {
    pub primary: DbPoolConfigView,
    pub replica: Option<DbPoolConfigView>,
    pub tcp_timeout_ms: u64,
    pub connection_timeout: u64,
    pub statement_timeout: u64,
    pub helper_threads: usize,
    pub enforce_tls: bool,
}

impl View for DatabasePools {
    type V = DatabasePoolsView;

    open spec fn view(&self) -> DatabasePoolsView {
        DatabasePoolsView {
            primary: self.primary@,
            replica: match self.replica {
                Some(rep) => Some(rep@),
                None => None,
            },
            tcp_timeout_ms: self.tcp_timeout_ms,
            connection_timeout: self.connection_timeout,
            statement_timeout: self.statement_timeout,
            helper_threads: self.helper_threads,
            enforce_tls: self.enforce_tls,
        }
    }
}

impl DatabasePoolsView {
    /// The invariants every resolved configuration satisfies: a replica, when
    /// present, is read-only, and the statement timeout equals the connection
    /// timeout.
    pub open spec fn wf(self) -> bool {
        &&& (self.replica matches Some(rep) ==> rep.read_only_mode)
        &&& self.statement_timeout == self.connection_timeout
    }
}

/// The value of an optional `u32` variable: the default when absent, its
/// parsed value when well formed, and `None` when malformed.
pub open spec fn spec_u32_setting(v: Option<Seq<char>>, default: u32) -> Option<u32> {
    match v {
        None => Some(default),
        Some(s) => if is_decimal_string(s) && decimal_value(s) <= u32::MAX {
            Some(decimal_value(s) as u32)
        } else {
            None
        },
    }
}

/// The value of an optional `u64` variable: the default when absent, its
/// parsed value when well formed, and `None` when malformed.
pub open spec fn spec_u64_setting(v: Option<Seq<char>>, default: u64) -> Option<u64> {
    match v {
        None => Some(default),
        Some(s) => if is_decimal_string(s) && decimal_value(s) <= u64::MAX {
            Some(decimal_value(s) as u64)
        } else {
            None
        },
    }
}

/// The value of an optional `usize` variable: the default when absent, its
/// parsed value when well formed, and `None` when malformed.
pub open spec fn spec_usize_setting(v: Option<Seq<char>>, default: usize) -> Option<usize> {
    match v {
        None => Some(default),
        Some(s) => if is_decimal_string(s) && decimal_value(s) <= usize::MAX {
            Some(decimal_value(s) as usize)
        } else {
            None
        },
    }
}

/// The value of an optional min-idle variable: unset when absent, its parsed
/// value when well formed, and `None` (outer) when malformed.
pub open spec fn spec_min_idle_setting(v: Option<Seq<char>>) -> Option<Option<u32>> {
    match v {
        None => Some(None),
        Some(s) => if is_decimal_string(s) && decimal_value(s) <= u32::MAX {
            Some(Some(decimal_value(s) as u32))
        } else {
            None
        },
    }
}

/// What resolution returns for a deployment environment and a snapshot.
///
/// Scalar settings are checked first, in the order of the variable list above;
/// the first malformed one decides the error. The mode is then selected by
/// `DB_OFFLINE`, and the URL that the mode requires must be present.
pub open spec fn spec_resolve(base_env: Env, e: EnvironmentView) -> Result<
    DatabasePoolsView,
    ConfigError,
> {
    if spec_u32_setting(e.db_primary_pool_size, DEFAULT_POOL_SIZE) is None {
        Err(ConfigError::InvalidNumericValue(ConfigVar::DbPrimaryPoolSize))
    } else if spec_u32_setting(e.db_replica_pool_size, DEFAULT_POOL_SIZE) is None {
        Err(ConfigError::InvalidNumericValue(ConfigVar::DbReplicaPoolSize))
    } else if spec_min_idle_setting(e.db_primary_min_idle) is None {
        Err(ConfigError::InvalidNumericValue(ConfigVar::DbPrimaryMinIdle))
    } else if spec_min_idle_setting(e.db_replica_min_idle) is None {
        Err(ConfigError::InvalidNumericValue(ConfigVar::DbReplicaMinIdle))
    } else if spec_u64_setting(e.db_tcp_timeout_ms, DEFAULT_TCP_TIMEOUT_MS) is None {
        Err(ConfigError::InvalidNumericValue(ConfigVar::DbTcpTimeoutMs))
    } else if spec_u64_setting(e.db_timeout, DEFAULT_TIMEOUT_SECS) is None {
        Err(ConfigError::InvalidNumericValue(ConfigVar::DbTimeout))
    } else if spec_usize_setting(e.db_helper_threads, DEFAULT_HELPER_THREADS) is None {
        Err(ConfigError::InvalidNumericValue(ConfigVar::DbHelperThreads))
    } else {
        let primary_pool_size = spec_u32_setting(e.db_primary_pool_size, DEFAULT_POOL_SIZE).unwrap();
        let replica_pool_size = spec_u32_setting(e.db_replica_pool_size, DEFAULT_POOL_SIZE).unwrap();
        let primary_min_idle = spec_min_idle_setting(e.db_primary_min_idle).unwrap();
        let replica_min_idle = spec_min_idle_setting(e.db_replica_min_idle).unwrap();
        let tcp_timeout_ms = spec_u64_setting(e.db_tcp_timeout_ms, DEFAULT_TCP_TIMEOUT_MS).unwrap();
        let connection_timeout = spec_u64_setting(e.db_timeout, DEFAULT_TIMEOUT_SECS).unwrap();
        let helper_threads = spec_usize_setting(e.db_helper_threads, DEFAULT_HELPER_THREADS).unwrap();
        let read_only_mode = e.read_only_mode is Some;
        let enforce_tls = base_env == Env::Production;
        match spec_mode(e.db_offline) {
            Mode::ForcedLeaderOffline => match e.read_only_replica_url {
                None => Err(ConfigError::MissingRequiredValue(ConfigVar::ReadOnlyReplicaUrl)),
                Some(replica_url) => Ok(
                    DatabasePoolsView {
                        primary: DbPoolConfigView {
                            url: replica_url,
                            read_only_mode: true,
                            pool_size: primary_pool_size,
                            min_idle: primary_min_idle,
                        },
                        replica: None,
                        tcp_timeout_ms,
                        connection_timeout,
                        statement_timeout: connection_timeout,
                        helper_threads,
                        enforce_tls,
                    },
                ),
            },
            Mode::ForcedFollowerOffline => match e.database_url {
                None => Err(ConfigError::MissingRequiredValue(ConfigVar::DatabaseUrl)),
                Some(leader_url) => Ok(
                    DatabasePoolsView {
                        primary: DbPoolConfigView {
                            url: leader_url,
                            read_only_mode,
                            pool_size: primary_pool_size,
                            min_idle: primary_min_idle,
                        },
                        replica: None,
                        tcp_timeout_ms,
                        connection_timeout,
                        statement_timeout: connection_timeout,
                        helper_threads,
                        enforce_tls,
                    },
                ),
            },
            Mode::Normal => match e.database_url {
                None => Err(ConfigError::MissingRequiredValue(ConfigVar::DatabaseUrl)),
                Some(leader_url) => Ok(
                    DatabasePoolsView {
                        primary: DbPoolConfigView {
                            url: leader_url,
                            read_only_mode,
                            pool_size: primary_pool_size,
                            min_idle: primary_min_idle,
                        },
                        replica: match e.read_only_replica_url {
                            Some(replica_url) => Some(
                                DbPoolConfigView {
                                    url: replica_url,
                                    read_only_mode: true,
                                    pool_size: replica_pool_size,
                                    min_idle: replica_min_idle,
                                },
                            ),
                            None => None,
                        },
                        tcp_timeout_ms,
                        connection_timeout,
                        statement_timeout: connection_timeout,
                        helper_threads,
                        enforce_tls,
                    },
                ),
            },
        }
    }
}

impl DatabasePools {
    /// Whether every configured pool is read-only. The primary's flag alone
    /// decides, because a replica is always read-only when present.
    pub fn are_all_read_only(&self) -> (r: bool)
        ensures
            r == self@.primary.read_only_mode,
    {
        self.primary.read_only_mode
    }

    /// Load settings for one or more database pools from an environment
    /// snapshot.
    ///
    /// Returns exactly what [`spec_resolve`] states: every scalar setting is
    /// computed once, independent of the mode, with its declared default when
    /// the variable is absent and a fatal error when it is present but
    /// malformed; the `DB_OFFLINE` mode then selects which URL backs the
    /// primary pool and whether a replica pool is configured.
    pub fn full_from_environment(base: &Base, environment: &Environment) -> (r: Result<
        DatabasePools,
        ConfigError,
    >)
        ensures
            r is Ok <==> spec_resolve(base.env, environment@) is Ok,
            r matches Ok(pools) ==> pools@ == spec_resolve(base.env, environment@)->Ok_0,
            r matches Ok(pools) ==> pools@.wf(),
            r matches Err(err) ==> err == spec_resolve(base.env, environment@)->Err_0,
    {
        let primary_pool_size: u32 = match &environment.db_primary_pool_size {
            Some(value) => match parse_u32(value.as_str()) {
                Some(num) => num,
                None => {
                    return Err(ConfigError::InvalidNumericValue(ConfigVar::DbPrimaryPoolSize));
                },
            },
            None => DEFAULT_POOL_SIZE,
        };

        let replica_pool_size: u32 = match &environment.db_replica_pool_size {
            Some(value) => match parse_u32(value.as_str()) {
                Some(num) => num,
                None => {
                    return Err(ConfigError::InvalidNumericValue(ConfigVar::DbReplicaPoolSize));
                },
            },
            None => DEFAULT_POOL_SIZE,
        };

        let primary_min_idle: Option<u32> = match &environment.db_primary_min_idle {
            Some(value) => match parse_u32(value.as_str()) {
                Some(num) => Some(num),
                None => {
                    return Err(ConfigError::InvalidNumericValue(ConfigVar::DbPrimaryMinIdle));
                },
            },
            None => None,
        };

        let replica_min_idle: Option<u32> = match &environment.db_replica_min_idle {
            Some(value) => match parse_u32(value.as_str()) {
                Some(num) => Some(num),
                None => {
                    return Err(ConfigError::InvalidNumericValue(ConfigVar::DbReplicaMinIdle));
                },
            },
            None => None,
        };

        let tcp_timeout_ms: u64 = match &environment.db_tcp_timeout_ms {
            Some(value) => match parse_u64(value.as_str()) {
                Some(num) => num,
                None => {
                    return Err(ConfigError::InvalidNumericValue(ConfigVar::DbTcpTimeoutMs));
                },
            },
            None => DEFAULT_TCP_TIMEOUT_MS,
        };

        // `DB_TIMEOUT` configures both the connection timeout and the
        // statement timeout, so the statement timeout copies the parsed value.
        let connection_timeout: u64 = match &environment.db_timeout {
            Some(value) => match parse_u64(value.as_str()) {
                Some(num) => num,
                None => {
                    return Err(ConfigError::InvalidNumericValue(ConfigVar::DbTimeout));
                },
            },
            None => DEFAULT_TIMEOUT_SECS,
        };
        let statement_timeout: u64 = connection_timeout;

        let helper_threads: usize = match &environment.db_helper_threads {
            Some(value) => match parse_usize(value.as_str()) {
                Some(num) => num,
                None => {
                    return Err(ConfigError::InvalidNumericValue(ConfigVar::DbHelperThreads));
                },
            },
            None => DEFAULT_HELPER_THREADS,
        };

        let read_only_mode = environment.read_only_mode.is_some();
        let enforce_tls = base.env == Env::Production;

        match Mode::from_db_offline(&environment.db_offline) {
            // The actual leader is down, use the follower in read-only mode as
            // the primary and don't configure a replica.
            Mode::ForcedLeaderOffline => {
                let replica_url = match &environment.read_only_replica_url {
                    Some(url) => url.clone(),
                    None => {
                        return Err(ConfigError::MissingRequiredValue(ConfigVar::ReadOnlyReplicaUrl));
                    },
                };
                Ok(
                    DatabasePools {
                        primary: DbPoolConfig {
                            url: SecretString::new(replica_url),
                            read_only_mode: true,
                            pool_size: primary_pool_size,
                            min_idle: primary_min_idle,
                        },
                        replica: None,
                        tcp_timeout_ms,
                        connection_timeout,
                        statement_timeout,
                        helper_threads,
                        enforce_tls,
                    },
                )
            },
            // The follower is down, don't configure the replica.
            Mode::ForcedFollowerOffline => {
                let leader_url = match &environment.database_url {
                    Some(url) => url.clone(),
                    None => {
                        return Err(ConfigError::MissingRequiredValue(ConfigVar::DatabaseUrl));
                    },
                };
                Ok(
                    DatabasePools {
                        primary: DbPoolConfig {
                            url: SecretString::new(leader_url),
                            read_only_mode,
                            pool_size: primary_pool_size,
                            min_idle: primary_min_idle,
                        },
                        replica: None,
                        tcp_timeout_ms,
                        connection_timeout,
                        statement_timeout,
                        helper_threads,
                        enforce_tls,
                    },
                )
            },
            Mode::Normal => {
                let leader_url = match &environment.database_url {
                    Some(url) => url.clone(),
                    None => {
                        return Err(ConfigError::MissingRequiredValue(ConfigVar::DatabaseUrl));
                    },
                };
                let replica = match &environment.read_only_replica_url {
                    Some(url) => Some(
                        DbPoolConfig {
                            url: SecretString::new(url.clone()),
                            // Always enable read-only mode for the follower:
                            // where the same writable URL backs both variables,
                            // the replica connection must still be opened
                            // read-only.
                            read_only_mode: true,
                            pool_size: replica_pool_size,
                            min_idle: replica_min_idle,
                        },
                    ),
                    None => None,
                };
                Ok(
                    DatabasePools {
                        primary: DbPoolConfig {
                            url: SecretString::new(leader_url),
                            read_only_mode,
                            pool_size: primary_pool_size,
                            min_idle: primary_min_idle,
                        },
                        replica,
                        tcp_timeout_ms,
                        connection_timeout,
                        statement_timeout,
                        helper_threads,
                        enforce_tls,
                    },
                )
            },
        }
    }
}

/// Resolution is pure and deterministic: it is a function of the deployment
/// environment and the snapshot alone, so identical snapshots resolve to
/// identical configurations.
pub proof fn lemma_resolve_deterministic(base_env: Env, e1: EnvironmentView, e2: EnvironmentView)
    requires
        e1 == e2,
    ensures
        spec_resolve(base_env, e1) == spec_resolve(base_env, e2),
{
}

/// Every successfully resolved configuration is well formed: a replica, when
/// present, is read-only, and the statement timeout equals the connection
/// timeout.
pub proof fn lemma_resolve_well_formed(base_env: Env, e: EnvironmentView)
    ensures
        spec_resolve(base_env, e) matches Ok(pools) ==> pools.wf(),
{
}

/// A replica pool is configured exactly in normal mode with a replica URL
/// supplied; in both offline override modes the primary is the only pool.
pub proof fn lemma_replica_presence(base_env: Env, e: EnvironmentView)
    ensures
        spec_resolve(base_env, e) matches Ok(pools) ==> (pools.replica is Some <==> (spec_mode(
            e.db_offline,
        ) == Mode::Normal && e.read_only_replica_url is Some)),
{
}

/// TLS is enforced exactly in the production deployment environment, never
/// from a direct variable.
pub proof fn lemma_enforce_tls(base_env: Env, e: EnvironmentView)
    ensures
        spec_resolve(base_env, e) matches Ok(pools) ==> (pools.enforce_tls <==> base_env
            == Env::Production),
{
}

/// Resolution succeeds exactly when every numeric variable that is present
/// parses, and the URL that the selected mode requires is present.
pub proof fn lemma_resolve_success(base_env: Env, e: EnvironmentView)
    ensures
        spec_resolve(base_env, e) is Ok <==> ({
            &&& spec_u32_setting(e.db_primary_pool_size, DEFAULT_POOL_SIZE) is Some
            &&& spec_u32_setting(e.db_replica_pool_size, DEFAULT_POOL_SIZE) is Some
            &&& spec_min_idle_setting(e.db_primary_min_idle) is Some
            &&& spec_min_idle_setting(e.db_replica_min_idle) is Some
            &&& spec_u64_setting(e.db_tcp_timeout_ms, DEFAULT_TCP_TIMEOUT_MS) is Some
            &&& spec_u64_setting(e.db_timeout, DEFAULT_TIMEOUT_SECS) is Some
            &&& spec_usize_setting(e.db_helper_threads, DEFAULT_HELPER_THREADS) is Some
            &&& match spec_mode(e.db_offline) {
                Mode::ForcedLeaderOffline => e.read_only_replica_url is Some,
                Mode::ForcedFollowerOffline => e.database_url is Some,
                Mode::Normal => e.database_url is Some,
            }
        }),
{
}

/// In a well-formed configuration the primary's read-only flag alone decides
/// whether every configured pool is read-only.
pub proof fn lemma_primary_flag_covers_all_pools(pools: DatabasePoolsView)
    requires
        pools.wf(),
    ensures
        pools.primary.read_only_mode <==> (pools.primary.read_only_mode && (pools.replica matches
            Some(rep) ==> rep.read_only_mode)),
{
}

} // verus!
