//! Typed configuration assembled from the values of named environment
//! variables.  The process's entry point snapshots the variables into an
//! [`EnvValues`] record; everything after that — defaulting, parsing and
//! the fail-fast checks for the required secrets — is decided here.

use vstd::prelude::*;
use vstd::string::StrSliceExecFns;
use vstd::string::StringExecFns;

use crate::text::dec_str;
use crate::text::parse_i64;
use crate::text::parse_int;
use crate::text::parse_u16;
use crate::text::parse_u32;
use crate::text::parse_u64;
use crate::text::parse_uint;
use crate::text::push_u64_dec;

verus! {

/// The deployment flavour a server runs as.
#[derive(Clone, Debug, PartialEq, Eq, Structural)]
pub enum Environment {
    Development,
    Production,
    Staging,
}

/// Where and how the server listens.
#[derive(Clone, Debug)]
pub struct ServerConfig {
    pub host: String,
    pub port: u16,
    pub environment: Environment,
}

/// Connection-pool settings for the database.
#[derive(Clone, Debug)]
pub struct DatabaseConfig {
    pub url: String,
    pub max_connections: u32,
    pub min_connections: u32,
    pub connect_timeout: u64,
}

/// Sink settings for structured logging.
#[derive(Clone, Debug)]
pub struct LoggingConfig {
    pub level: String,
    pub directory: String,
    pub file_name: String,
}

/// Token-signing settings.
#[derive(Clone, Debug)]
pub struct JwtConfig {
    pub secret: String,
    pub expiration: i64,
}

/// The full configuration record, immutable after loading.
#[derive(Clone, Debug)]
pub struct Config {
    pub server: ServerConfig,
    pub database: DatabaseConfig,
    pub logging: LoggingConfig,
    pub jwt: JwtConfig,
}

/// The fully-resolved settings a database connection pool is opened with:
/// the configured values, plus the fixed acquire, idle and lifetime bounds.
#[derive(Clone, Debug)]
pub struct PoolOptions {
    pub url: String,
    pub max_connections: u32,
    pub min_connections: u32,
    pub connect_timeout_secs: u64,
    pub acquire_timeout_secs: u64,
    pub idle_timeout_secs: u64,
    pub max_lifetime_secs: u64,
}

/// Resolves the pool settings for a database configuration.  The caller
/// hands these to the driver unchanged; only the connect call itself is an
/// effect.
pub fn pool_options(config: &DatabaseConfig) -> (r: PoolOptions)
    ensures
        r.url@ == config.url@,
        r.max_connections == config.max_connections,
        r.min_connections == config.min_connections,
        r.connect_timeout_secs == config.connect_timeout,
        r.acquire_timeout_secs == 30,
        r.idle_timeout_secs == 8,
        r.max_lifetime_secs == 8,
{
    PoolOptions {
        url: config.url.clone(),
        max_connections: config.max_connections,
        min_connections: config.min_connections,
        connect_timeout_secs: config.connect_timeout,
        acquire_timeout_secs: 30,
        idle_timeout_secs: 8,
        max_lifetime_secs: 8,
    }
}

/// Why configuration loading failed.
#[derive(Debug, PartialEq, Eq, Structural)]
pub enum ConfigError {
    InvalidPort,
    MissingDatabaseUrl,
    MissingJwtSecret,
}

/// A snapshot of the environment variables the configuration reads,
/// `None` where a variable is unset.
#[derive(Clone, Debug)]
pub struct EnvValues {
    pub host: Option<String>,
    pub port: Option<String>,
    pub environment: Option<String>,
    pub database_url: Option<String>,
    pub db_max_connections: Option<String>,
    pub db_min_connections: Option<String>,
    pub db_connect_timeout: Option<String>,
    pub log_level: Option<String>,
    pub log_dir: Option<String>,
    pub log_file: Option<String>,
    pub jwt_secret: Option<String>,
    pub jwt_expiration: Option<String>,
}

/// The lower-cased code point of `c`, folding only the ASCII letters.
pub open spec fn lower_code(c: char) -> int {
    if 65 <= c as u32 <= 90 {
        c as u32 + 32
    } else {
        c as u32 as int
    }
}

/// Equality of two strings up to ASCII case.
pub open spec fn ci_eq(a: Seq<char>, b: Seq<char>) -> bool {
    a.len() == b.len() && forall|i: int| 0 <= i < a.len() ==> lower_code(a[i]) == lower_code(b[i])
}

/// Compares two strings for equality up to ASCII case.
fn eq_ignore_ascii(s: &str, t: &str) -> (r: bool)
    ensures
        r == ci_eq(s@, t@),
{
    let n = s.unicode_len();
    if n != t.unicode_len() {
        return false;
    }
    let mut i: usize = 0;
    while i < n
        invariant
            0 <= i <= n,
            n == s@.len() == t@.len(),
            forall|j: int| 0 <= j < i ==> lower_code(s@[j]) == lower_code(t@[j]),
        decreases n - i,
    {
        let a = s.get_char(i) as u32;
        let b = t.get_char(i) as u32;
        let la = if 65 <= a && a <= 90 {
            a + 32
        } else {
            a
        };
        let lb = if 65 <= b && b <= 90 {
            b + 32
        } else {
            b
        };
        if la != lb {
            return false;
        }
        i = i + 1;
    }
    true
}

impl Environment {
    /// The environment named by `s`, compared case-insensitively, with the
    /// long and the short spelling both accepted; `None` for anything else.
    pub open spec fn spec_of_label(s: Seq<char>) -> Option<Environment> {
        if ci_eq(s, "development"@) || ci_eq(s, "dev"@) {
            Some(Environment::Development)
        } else if ci_eq(s, "production"@) || ci_eq(s, "prod"@) {
            Some(Environment::Production)
        } else if ci_eq(s, "staging"@) || ci_eq(s, "stage"@) {
            Some(Environment::Staging)
        } else {
            None
        }
    }

    /// Parses an environment label, case-insensitively.
    pub fn from_str(s: &str) -> (r: Option<Environment>)
        ensures
            r == Environment::spec_of_label(s@),
    {
        if eq_ignore_ascii(s, "development") || eq_ignore_ascii(s, "dev") {
            Some(Environment::Development)
        } else if eq_ignore_ascii(s, "production") || eq_ignore_ascii(s, "prod") {
            Some(Environment::Production)
        } else if eq_ignore_ascii(s, "staging") || eq_ignore_ascii(s, "stage") {
            Some(Environment::Staging)
        } else {
            None
        }
    }
}

/// The string value of an optional variable, or the default `d`.
pub open spec fn str_or(v: Option<String>, d: Seq<char>) -> Seq<char> {
    match v {
        Some(s) => s@,
        None => d,
    }
}

/// The port: 3000 when unset, else the value of the variable, which must
/// parse as a 16-bit unsigned integer.
pub open spec fn spec_port(v: Option<String>) -> Option<u16> {
    match v {
        None => Some(3000u16),
        Some(s) => match parse_uint(s@) {
            Some(n) => if n <= u16::MAX {
                Some(n as u16)
            } else {
                None
            },
            None => None,
        },
    }
}

/// The environment: development when unset or unrecognised.
pub open spec fn spec_environment(v: Option<String>) -> Environment {
    match v {
        None => Environment::Development,
        Some(s) => match Environment::spec_of_label(s@) {
            Some(e) => e,
            None => Environment::Development,
        },
    }
}

/// A numeric variable that falls back to its default `d` silently, both
/// when unset and when malformed or out of range for `u32`.
pub open spec fn spec_u32_or(v: Option<String>, d: u32) -> u32 {
    match v {
        None => d,
        Some(s) => match parse_uint(s@) {
            Some(n) => if n <= u32::MAX {
                n as u32
            } else {
                d
            },
            None => d,
        },
    }
}

/// As [`spec_u32_or`], for `u64`.
pub open spec fn spec_u64_or(v: Option<String>, d: u64) -> u64 {
    match v {
        None => d,
        Some(s) => match parse_uint(s@) {
            Some(n) => if n <= u64::MAX {
                n as u64
            } else {
                d
            },
            None => d,
        },
    }
}

/// As [`spec_u32_or`], for `i64`.
pub open spec fn spec_i64_or(v: Option<String>, d: i64) -> i64 {
    match v {
        None => d,
        Some(s) => match parse_int(s@) {
            Some(n) => if i64::MIN <= n <= i64::MAX {
                n as i64
            } else {
                d
            },
            None => d,
        },
    }
}

impl Config {
    /// Builds the configuration from an environment snapshot.
    ///
    /// The port hard-fails when malformed while the pool sizes and timeouts
    /// fall back to their defaults silently; that asymmetry is deliberate.
    /// The two required variables are reported each by its own error, the
    /// database URL taking precedence, and an invalid port before either.
    ///
    /// Loading has no effect besides reading the snapshot it is given: the
    /// whole call graph is verified code with no trusted item in it, so on
    /// success and on failure alike no file, socket or global state is
    /// created or changed.  The caller snapshots the environment and, on an
    /// error, stops before any networking starts.
    pub fn from_env(env: &EnvValues) -> (r: Result<Config, ConfigError>)
        ensures
            (r matches Err(e) && e == ConfigError::InvalidPort) <==> spec_port(env.port) is None,
            (r matches Err(e) && e == ConfigError::MissingDatabaseUrl) <==> (spec_port(env.port) is Some
                && env.database_url is None),
            (r matches Err(e) && e == ConfigError::MissingJwtSecret) <==> (spec_port(env.port) is Some
                && env.database_url is Some && env.jwt_secret is None),
            r is Ok <==> (spec_port(env.port) is Some && env.database_url is Some
                && env.jwt_secret is Some),
            r matches Ok(c) ==> {
                &&& c.server.host@ == str_or(env.host, "127.0.0.1"@)
                &&& c.server.port == spec_port(env.port).unwrap()
                &&& c.server.environment == spec_environment(env.environment)
                &&& c.database.url@ == env.database_url.unwrap()@
                &&& c.database.max_connections == spec_u32_or(env.db_max_connections, 10)
                &&& c.database.min_connections == spec_u32_or(env.db_min_connections, 2)
                &&& c.database.connect_timeout == spec_u64_or(env.db_connect_timeout, 30)
                &&& c.logging.level@ == str_or(env.log_level, "info"@)
                &&& c.logging.directory@ == str_or(env.log_dir, "logs"@)
                &&& c.logging.file_name@ == str_or(env.log_file, "server.log"@)
                &&& c.jwt.secret@ == env.jwt_secret.unwrap()@
                &&& c.jwt.expiration == spec_i64_or(env.jwt_expiration, 86400)
            },
    {
        let port: u16 = match &env.port {
            None => 3000,
            Some(s) => match parse_u16(s.as_str()) {
                Some(p) => p,
                None => {
                    return Err(ConfigError::InvalidPort);
                },
            },
        };
        let host: String = match &env.host {
            Some(h) => h.clone(),
            None => String::from_str("127.0.0.1"),
        };
        let environment: Environment = match &env.environment {
            None => Environment::Development,
            Some(s) => match Environment::from_str(s.as_str()) {
                Some(e) => e,
                None => Environment::Development,
            },
        };
        let server = ServerConfig { host, port, environment };

        let url: String = match &env.database_url {
            Some(u) => u.clone(),
            None => {
                return Err(ConfigError::MissingDatabaseUrl);
            },
        };
        let max_connections: u32 = match &env.db_max_connections {
            None => 10,
            Some(s) => match parse_u32(s.as_str()) {
                Some(n) => n,
                None => 10,
            },
        };
        let min_connections: u32 = match &env.db_min_connections {
            None => 2,
            Some(s) => match parse_u32(s.as_str()) {
                Some(n) => n,
                None => 2,
            },
        };
        let connect_timeout: u64 = match &env.db_connect_timeout {
            None => 30,
            Some(s) => match parse_u64(s.as_str()) {
                Some(n) => n,
                None => 30,
            },
        };
        let database = DatabaseConfig { url, max_connections, min_connections, connect_timeout };

        let level: String = match &env.log_level {
            Some(s) => s.clone(),
            None => String::from_str("info"),
        };
        let directory: String = match &env.log_dir {
            Some(s) => s.clone(),
            None => String::from_str("logs"),
        };
        let file_name: String = match &env.log_file {
            Some(s) => s.clone(),
            None => String::from_str("server.log"),
        };
        let logging = LoggingConfig { level, directory, file_name };

        let secret: String = match &env.jwt_secret {
            Some(s) => s.clone(),
            None => {
                return Err(ConfigError::MissingJwtSecret);
            },
        };
        let expiration: i64 = match &env.jwt_expiration {
            None => 86400,
            Some(s) => match parse_i64(s.as_str()) {
                Some(n) => n,
                None => 86400,
            },
        };
        let jwt = JwtConfig { secret, expiration };

        Ok(Config { server, database, logging, jwt })
    }

    /// The listen address, `host:port`.
    pub fn server_address(&self) -> (r: String)
        ensures
            r@ == self.server.host@ + ":"@ + dec_str(self.server.port as nat),
    {
        let mut s = self.server.host.clone();
        s.append(":");
        push_u64_dec(&mut s, self.server.port as u64);
        proof {
            assert(self.server.host@ + ":"@ + dec_str(self.server.port as nat) =~= (
            self.server.host@ + ":"@) + dec_str(self.server.port as nat));
        }
        s
    }

    /// Whether the server runs as production.
    pub fn is_production(&self) -> (r: bool)
        ensures
            r == (self.server.environment == Environment::Production),
    {
        self.server.environment == Environment::Production
    }

    /// Whether the server runs as development.
    pub fn is_development(&self) -> (r: bool)
        ensures
            r == (self.server.environment == Environment::Development),
    {
        self.server.environment == Environment::Development
    }
}

impl ConfigError {
    /// The human-readable description of this error.
    pub open spec fn spec_message(self) -> Seq<char> {
        match self {
            ConfigError::InvalidPort => "Invalid port number"@,
            ConfigError::MissingDatabaseUrl => "DATABASE_URL environment variable is required"@,
            ConfigError::MissingJwtSecret => "JWT_SECRET environment variable is required"@,
        }
    }

    /// Renders the error for display.
    pub fn message(&self) -> (r: String)
        ensures
            r@ == self.spec_message(),
    {
        match self {
            ConfigError::InvalidPort => String::from_str("Invalid port number"),
            ConfigError::MissingDatabaseUrl => String::from_str(
                "DATABASE_URL environment variable is required",
            ),
            ConfigError::MissingJwtSecret => String::from_str(
                "JWT_SECRET environment variable is required",
            ),
        }
    }
}

} // verus!
