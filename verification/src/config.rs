//! Configuration consumed by the services: the authentication policy
//! (signing secret and lifetimes), plus the environment, database and
//! logging settings read at startup.  Loading from the process environment
//! or a file is the embedding application's job; this module holds the
//! parsed values and the verified lookups over them.

use vstd::prelude::*;

use crate::codec::{dec_digits_of, is_canonical_dec, dec_val, parse_dec_u64, str_eq, u64_to_dec_string};

verus! {

/// Signing secret and token lifetimes for the token issuer.
pub struct AuthenticationConfiguration {
    pub jwt_secret: String,
    pub jwt_expiration_seconds: u64,
    pub refresh_token_expiration_days: u64,
}

/// The mode a deployment runs in.
#[derive(Debug, Clone)]
pub enum Environment {
    Development,
    Staging,
    Production,
    Custom(String),
}

impl Default for Environment {
    fn default() -> (r: Self)
        ensures
            r is Development,
    {
        Environment::Development
    }
}

/// Key/value settings taken from the process environment, with the
/// deployment mode.  Entries are kept in the order they were collected;
/// a lookup returns the first match.
pub struct EnviromentConfiguration {
    pub env_mode: Environment,
    pub vars: Vec<(String, String)>,
}

/// First-match lookup over collected environment entries.
pub open spec fn env_lookup(vars: Seq<(String, String)>, key: Seq<char>) -> Option<Seq<char>>
    decreases vars.len(),
{
    if vars.len() == 0 {
        None
    } else if vars[0].0@ == key {
        Some(vars[0].1@)
    } else {
        env_lookup(vars.skip(1), key)
    }
}

impl EnviromentConfiguration {
    /// The first value recorded under `key`, if any.
    pub fn get_var(&self, key: &str) -> (r: Option<String>)
        ensures
            match r {
                Some(v) => env_lookup(self.vars@, key@) == Some(v@),
                None => env_lookup(self.vars@, key@) is None,
            },
    {
        let mut i: usize = 0;
        proof {
            assert(self.vars@.skip(0) =~= self.vars@);
        }
        while i < self.vars.len()
            invariant
                0 <= i <= self.vars@.len(),
                env_lookup(self.vars@, key@) == env_lookup(self.vars@.skip(i as int), key@),
            decreases self.vars@.len() - i,
        {
            proof {
                assert(self.vars@.skip(i as int)[0] == self.vars@[i as int]);
                assert(self.vars@.skip(i as int).skip(1) =~= self.vars@.skip(i + 1));
            }
            if str_eq(self.vars[i].0.as_str(), key) {
                return Some(self.vars[i].1.clone());
            }
            i = i + 1;
        }
        proof {
            assert(self.vars@.skip(i as int) =~= Seq::<(String, String)>::empty());
        }
        None
    }
}

/// How the storage engine authenticates the service.
#[derive(Debug, Clone, Copy, PartialEq, Eq, Structural)]
pub enum AuthenticationMethod {
    Root,
    Namespace,
    Database,
}

/// Connection settings for the record storage engine.
pub struct DatabaseConfiguration {
    pub host: String,
    pub port: u16,
    pub namespace: String,
    pub database: String,
    pub username: String,
    pub password: String,
    pub authentication_method: AuthenticationMethod,
}

/// The environment entry under `key`, when it parses as a canonical decimal
/// port number.
pub open spec fn env_port(vars: Seq<(String, String)>, key: Seq<char>) -> Option<u16> {
    match env_lookup(vars, key) {
        Some(v) => if is_canonical_dec(v) && dec_val(v) <= u16::MAX {
            Some(dec_val(v) as u16)
        } else {
            None
        },
        None => None,
    }
}

/// The environment entry under `key`, read as an authentication method name.
pub open spec fn env_auth_method(vars: Seq<(String, String)>, key: Seq<char>) -> Option<
    AuthenticationMethod,
> {
    match env_lookup(vars, key) {
        Some(v) => if v == "Root"@ {
            Some(AuthenticationMethod::Root)
        } else if v == "Namespace"@ {
            Some(AuthenticationMethod::Namespace)
        } else if v == "Database"@ {
            Some(AuthenticationMethod::Database)
        } else {
            None
        },
        None => None,
    }
}

impl DatabaseConfiguration {
    /// Collects the connection settings from environment entries; `None` when
    /// an entry is missing, the port is not a canonical decimal in range, or
    /// the authentication method is not a recognized name.
    pub fn try_from_env(env_config: &EnviromentConfiguration) -> (r: Option<Self>)
        ensures
            match r {
                Some(c) => {
                    &&& env_lookup(env_config.vars@, "DB_HOST"@) == Some(c.host@)
                    &&& env_port(env_config.vars@, "DB_PORT"@) == Some(c.port)
                    &&& env_lookup(env_config.vars@, "DB_NAMESPACE"@) == Some(c.namespace@)
                    &&& env_lookup(env_config.vars@, "DB_DATABASE"@) == Some(c.database@)
                    &&& env_lookup(env_config.vars@, "DB_USERNAME"@) == Some(c.username@)
                    &&& env_lookup(env_config.vars@, "DB_PASSWORD"@) == Some(c.password@)
                    &&& env_auth_method(env_config.vars@, "DB_AUTH_METHOD"@) == Some(
                        c.authentication_method,
                    )
                },
                None => {
                    ||| env_lookup(env_config.vars@, "DB_HOST"@) is None
                    ||| env_port(env_config.vars@, "DB_PORT"@) is None
                    ||| env_lookup(env_config.vars@, "DB_NAMESPACE"@) is None
                    ||| env_lookup(env_config.vars@, "DB_DATABASE"@) is None
                    ||| env_lookup(env_config.vars@, "DB_USERNAME"@) is None
                    ||| env_lookup(env_config.vars@, "DB_PASSWORD"@) is None
                    ||| env_auth_method(env_config.vars@, "DB_AUTH_METHOD"@) is None
                },
            },
    {
        let host = match env_config.get_var("DB_HOST") {
            Some(v) => v,
            None => { return None; },
        };
        let port_str = match env_config.get_var("DB_PORT") {
            Some(v) => v,
            None => { return None; },
        };
        let port_wide = match parse_dec_u64(port_str.as_str()) {
            Some(v) => v,
            None => { return None; },
        };
        if port_wide > u16::MAX as u64 {
            return None;
        }
        let port: u16 = port_wide as u16;
        let namespace = match env_config.get_var("DB_NAMESPACE") {
            Some(v) => v,
            None => { return None; },
        };
        let database = match env_config.get_var("DB_DATABASE") {
            Some(v) => v,
            None => { return None; },
        };
        let username = match env_config.get_var("DB_USERNAME") {
            Some(v) => v,
            None => { return None; },
        };
        let password = match env_config.get_var("DB_PASSWORD") {
            Some(v) => v,
            None => { return None; },
        };
        let method_str = match env_config.get_var("DB_AUTH_METHOD") {
            Some(v) => v,
            None => { return None; },
        };
        let authentication_method = if str_eq(method_str.as_str(), "Root") {
            AuthenticationMethod::Root
        } else if str_eq(method_str.as_str(), "Namespace") {
            AuthenticationMethod::Namespace
        } else if str_eq(method_str.as_str(), "Database") {
            AuthenticationMethod::Database
        } else {
            return None;
        };
        Some(
            DatabaseConfiguration {
                host,
                port,
                namespace,
                database,
                username,
                password,
                authentication_method,
            },
        )
    }

    /// The `host:port` address of the storage engine.
    pub fn get_connection_string(&self) -> (r: String)
        ensures
            r@ == self.host@ + ":"@ + dec_digits_of(self.port as nat),
    {
        let mut s = self.host.clone();
        s.append(":");
        let digits = u64_to_dec_string(self.port as u64);
        s.append(digits.as_str());
        s
    }
}

/// The log level configured in the environment, `INFO` when none is set.
pub fn get_log_level(env_config: &EnviromentConfiguration) -> (r: String)
    ensures
        match env_lookup(env_config.vars@, "log_level"@) {
            Some(v) => r@ == v,
            None => r@ == "INFO"@,
        },
{
    match env_config.get_var("log_level") {
        Some(v) => v,
        None => String::from_str("INFO"),
    }
}

/// Switches for the log subscriber, everything on by default.
pub struct LoggingConfiguration {
    pub with_colors: bool,
    pub with_file: bool,
    pub with_line_number: bool,
    pub with_thread_ids: bool,
    pub with_thread_names: bool,
    pub with_target: bool,
    pub with_level: bool,
}

impl Default for LoggingConfiguration {
    fn default() -> (r: Self)
        ensures
            r.with_colors && r.with_file && r.with_line_number && r.with_thread_ids
                && r.with_thread_names && r.with_target && r.with_level,
    {
        LoggingConfiguration {
            with_colors: true,
            with_file: true,
            with_line_number: true,
            with_thread_ids: true,
            with_thread_names: true,
            with_target: true,
            with_level: true,
        }
    }
}

} // verus!
