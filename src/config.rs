use vstd::prelude::*;

verus! {

pub const DEFAULT_RPC_ADDR: &'static str = "http://0.0.0.0:8899";

pub const DEFAULT_WS_ADDR: &'static str = "ws://0.0.0.0:8900";

pub const DEFAULT_GRPC_ADDR: &'static str = "http://127.0.0.0:10000";

pub const DEFAULT_FANOUT_SIZE: u64 = 10;

pub const DEFAULT_RETRY_TIMEOUT: u64 = 2;

pub const MAX_RETRIES: usize = 40;

/// Command-line arguments: an optional path to a JSON configuration file.
#[derive(Clone, Debug)]
pub struct Args {
    pub config: Option<String>,
}

/// The relay's configuration.
#[derive(Clone, Debug)]
pub struct Config {
    pub rpc_addr: String,
    pub ws_addr: String,
    pub lite_rpc_http_addr: String,
    pub lite_rpc_ws_addr: String,
    pub fanout_size: u64,
    pub enable_postgres: bool,
    pub identity_keypair: Option<String>,
    pub prometheus_addr: String,
    pub maximum_retries_per_tx: usize,
    pub transaction_retry_after_secs: u64,
    pub quic_proxy_addr: Option<String>,
    pub use_grpc: bool,
    pub grpc_addr: String,
    pub grpc_x_token: Option<String>,
}

/// The values of the environment variables that override a configuration,
/// `None` (or `false`) for a variable that is not set.
#[derive(Clone, Debug)]
pub struct EnvOverrides {
    pub rpc_addr: Option<String>,
    pub ws_addr: Option<String>,
    pub lite_rpc_http_addr: Option<String>,
    pub lite_rpc_ws_addr: Option<String>,
    pub fanout_size: Option<String>,
    pub pg_enabled: bool,
    pub identity: Option<String>,
    pub prometheus_addr: Option<String>,
    pub max_retries: Option<String>,
    pub retry_timeout: Option<String>,
    pub quic_proxy_addr: Option<String>,
    pub use_grpc: bool,
    pub grpc_addr: Option<String>,
    pub grpc_x_token: Option<String>,
}

/// A numeric environment variable that does not hold a number.
#[derive(Clone, Copy, Debug, PartialEq, Eq, Structural)]
pub enum ConfigError {
    InvalidFanoutSize,
    InvalidMaxRetries,
    InvalidRetryTimeout,
}

pub open spec fn is_digit(c: char) -> bool {
    '0' <= c && c <= '9'
}

/// The number that a string of decimal digits writes.
pub open spec fn digits_value(s: Seq<char>) -> int
    decreases s.len(),
{
    if s.len() == 0 {
        0
    } else {
        digits_value(s.drop_last()) * 10 + (s.last() as u32 - '0' as u32)
    }
}

/// A decimal number with an optional leading `+`, at most `max`.
pub open spec fn decimal_of(s: Seq<char>, max: int) -> Option<int> {
    let d = if s.len() > 0 && s[0] == '+' { s.drop_first() } else { s };
    if d.len() > 0 && (forall|i: int| 0 <= i < d.len() ==> is_digit(#[trigger] d[i])) && digits_value(d) <= max {
        Some(digits_value(d))
    } else {
        None
    }
}

pub open spec fn as_u64(o: Option<int>) -> Option<u64> {
    match o {
        Some(v) => Some(v as u64),
        None => None,
    }
}

pub open spec fn as_usize(o: Option<int>) -> Option<usize> {
    match o {
        Some(v) => Some(v as usize),
        None => None,
    }
}

/// Relies on `str::parse::<u64>`: an optional `+` and decimal digits, in range.
#[verifier::external_body]
fn parse_u64(s: &str) -> (r: Option<u64>)
    ensures
        r == as_u64(decimal_of(s@, u64::MAX as int)),
{
    s.parse::<u64>().ok()
}

/// Relies on `str::parse::<usize>`: an optional `+` and decimal digits, in range.
#[verifier::external_body]
fn parse_usize(s: &str) -> (r: Option<usize>)
    ensures
        r == as_usize(decimal_of(s@, usize::MAX as int)),
{
    s.parse::<usize>().ok()
}

pub open spec fn string_or(o: Option<String>, d: String) -> String {
    match o {
        Some(v) => v,
        None => d,
    }
}

pub open spec fn option_or(o: Option<String>, d: Option<String>) -> Option<String> {
    match o {
        Some(v) => Some(v),
        None => d,
    }
}

fn pick(o: Option<String>, d: String) -> (r: String)
    ensures
        r == string_or(o, d),
{
    match o {
        Some(v) => v,
        None => d,
    }
}

impl Config {
    /// Overrides the configuration with the environment: a variable that is
    /// set replaces its field (a flag variable sets its flag), except the
    /// QUIC proxy address, which is always taken from the environment. A
    /// numeric variable that is set but not a number is an error.
    pub fn with_env_overrides(self, env: EnvOverrides) -> (r: Result<Config, ConfigError>)
        ensures
            env.fanout_size is Some && decimal_of(env.fanout_size->Some_0@, u64::MAX as int) is None
                ==> r == Err::<Config, ConfigError>(ConfigError::InvalidFanoutSize),
            !(env.fanout_size is Some && decimal_of(env.fanout_size->Some_0@, u64::MAX as int) is None)
                && env.max_retries is Some && decimal_of(env.max_retries->Some_0@, usize::MAX as int) is None
                ==> r == Err::<Config, ConfigError>(ConfigError::InvalidMaxRetries),
            !(env.fanout_size is Some && decimal_of(env.fanout_size->Some_0@, u64::MAX as int) is None)
                && !(env.max_retries is Some && decimal_of(env.max_retries->Some_0@, usize::MAX as int) is None)
                && env.retry_timeout is Some && decimal_of(env.retry_timeout->Some_0@, u64::MAX as int) is None
                ==> r == Err::<Config, ConfigError>(ConfigError::InvalidRetryTimeout),
            r is Ok <==> (!(env.fanout_size is Some && decimal_of(env.fanout_size->Some_0@, u64::MAX as int) is None)
                && !(env.max_retries is Some && decimal_of(env.max_retries->Some_0@, usize::MAX as int) is None)
                && !(env.retry_timeout is Some && decimal_of(env.retry_timeout->Some_0@, u64::MAX as int) is None)),
            r is Ok ==> ({
                let c = r->Ok_0;
                &&& c.rpc_addr == string_or(env.rpc_addr, self.rpc_addr)
                &&& c.ws_addr == string_or(env.ws_addr, self.ws_addr)
                &&& c.lite_rpc_http_addr == string_or(env.lite_rpc_http_addr, self.lite_rpc_http_addr)
                &&& c.lite_rpc_ws_addr == string_or(env.lite_rpc_ws_addr, self.lite_rpc_ws_addr)
                &&& c.fanout_size == match env.fanout_size {
                    Some(v) => decimal_of(v@, u64::MAX as int)->Some_0 as u64,
                    None => self.fanout_size,
                }
                &&& c.enable_postgres == (env.pg_enabled || self.enable_postgres)
                &&& c.identity_keypair == option_or(env.identity, self.identity_keypair)
                &&& c.prometheus_addr == string_or(env.prometheus_addr, self.prometheus_addr)
                &&& c.maximum_retries_per_tx == match env.max_retries {
                    Some(v) => decimal_of(v@, usize::MAX as int)->Some_0 as usize,
                    None => self.maximum_retries_per_tx,
                }
                &&& c.transaction_retry_after_secs == match env.retry_timeout {
                    Some(v) => decimal_of(v@, u64::MAX as int)->Some_0 as u64,
                    None => self.transaction_retry_after_secs,
                }
                &&& c.quic_proxy_addr == env.quic_proxy_addr
                &&& c.use_grpc == (env.use_grpc || self.use_grpc)
                &&& c.grpc_addr == string_or(env.grpc_addr, self.grpc_addr)
                &&& c.grpc_x_token == option_or(env.grpc_x_token, self.grpc_x_token)
            }),
    {
        let fanout_size = match env.fanout_size {
            Some(v) => match parse_u64(v.as_str()) {
                Some(n) => n,
                None => return Err(ConfigError::InvalidFanoutSize),
            },
            None => self.fanout_size,
        };
        let maximum_retries_per_tx = match env.max_retries {
            Some(v) => match parse_usize(v.as_str()) {
                Some(n) => n,
                None => return Err(ConfigError::InvalidMaxRetries),
            },
            None => self.maximum_retries_per_tx,
        };
        let transaction_retry_after_secs = match env.retry_timeout {
            Some(v) => match parse_u64(v.as_str()) {
                Some(n) => n,
                None => return Err(ConfigError::InvalidRetryTimeout),
            },
            None => self.transaction_retry_after_secs,
        };
        let identity_keypair = match env.identity {
            Some(v) => Some(v),
            None => self.identity_keypair,
        };
        let grpc_x_token = match env.grpc_x_token {
            Some(v) => Some(v),
            None => self.grpc_x_token,
        };
        Ok(Config {
            rpc_addr: pick(env.rpc_addr, self.rpc_addr),
            ws_addr: pick(env.ws_addr, self.ws_addr),
            lite_rpc_http_addr: pick(env.lite_rpc_http_addr, self.lite_rpc_http_addr),
            lite_rpc_ws_addr: pick(env.lite_rpc_ws_addr, self.lite_rpc_ws_addr),
            fanout_size,
            enable_postgres: env.pg_enabled || self.enable_postgres,
            identity_keypair,
            prometheus_addr: pick(env.prometheus_addr, self.prometheus_addr),
            maximum_retries_per_tx,
            transaction_retry_after_secs,
            quic_proxy_addr: env.quic_proxy_addr,
            use_grpc: env.use_grpc || self.use_grpc,
            grpc_addr: pick(env.grpc_addr, self.grpc_addr),
            grpc_x_token,
        })
    }

    pub fn lite_rpc_ws_addr() -> (r: String)
        ensures
            r@ == "[::]:8891"@,
    {
        "[::]:8891".to_string()
    }

    pub fn default_lite_rpc_http_addr() -> (r: String)
        ensures
            r@ == "[::]:8890"@,
    {
        "[::]:8890".to_string()
    }

    pub fn default_rpc_addr() -> (r: String)
        ensures
            r@ == DEFAULT_RPC_ADDR@,
    {
        DEFAULT_RPC_ADDR.to_string()
    }

    pub fn default_ws_addr() -> (r: String)
        ensures
            r@ == DEFAULT_WS_ADDR@,
    {
        DEFAULT_WS_ADDR.to_string()
    }

    pub fn default_lite_rpc_ws_addr() -> (r: String)
        ensures
            r@ == "[::]:8891"@,
    {
        "[::]:8891".to_string()
    }

    pub fn default_fanout_size() -> (r: u64)
        ensures
            r == DEFAULT_FANOUT_SIZE,
    {
        DEFAULT_FANOUT_SIZE
    }

    pub fn default_prometheus_addr() -> (r: String)
        ensures
            r@ == "[::]:9091"@,
    {
        "[::]:9091".to_string()
    }

    pub fn default_maximum_retries_per_tx() -> (r: usize)
        ensures
            r == MAX_RETRIES,
    {
        MAX_RETRIES
    }

    pub fn default_transaction_retry_after_secs() -> (r: u64)
        ensures
            r == DEFAULT_RETRY_TIMEOUT,
    {
        DEFAULT_RETRY_TIMEOUT
    }

    pub fn default_grpc_addr() -> (r: String)
        ensures
            r@ == DEFAULT_GRPC_ADDR@,
    {
        DEFAULT_GRPC_ADDR.to_string()
    }
}

} // verus!
