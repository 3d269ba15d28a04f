//! Application configuration, loaded once at startup from environment
//! variables (the caller reads the variables; this module decides).

use vstd::prelude::*;

verus! {

/// App configuration loaded from environment variables.
#[derive(Clone, Debug)]
pub struct Config {
    /// PostgreSQL connection string (`DATABASE_URL`).
    pub database_url: String,
    /// Redis connection string (`REDIS_URL`).
    pub redis_url: String,
    /// Quant trading API key (`QUANT_API_KEY`).
    pub quant_api_key: String,
    /// Quant trading API base URL (`QUANT_API_BASE_URL`).
    pub quant_api_base_url: String,
    /// Lambda Labs API key, for model training (`LAMBDA_LABS_API_KEY`).
    pub lambda_labs_api_key: Option<String>,
    /// Host to bind the app to (`APP_HOST`).
    pub app_host: String,
    /// Port to bind the app to (`PORT`, else `APP_PORT`).
    pub app_port: u16,
}

/// Why the configuration could not be loaded.
#[derive(Clone, Copy, Debug, PartialEq, Eq, Structural)]
pub enum ConfigError {
    MissingDatabaseUrl,
    MissingRedisUrl,
    MissingQuantApiKey,
    InvalidPort,
}

pub open spec fn config_error_text(e: ConfigError) -> Seq<char> {
    match e {
        ConfigError::MissingDatabaseUrl => "DATABASE_URL must be set — get it from Railway PostgreSQL"@,
        ConfigError::MissingRedisUrl => "REDIS_URL must be set — get it from Railway Redis"@,
        ConfigError::MissingQuantApiKey => "QUANT_API_KEY must be set"@,
        ConfigError::InvalidPort => "APP_PORT must be a valid number"@,
    }
}

impl ConfigError {
    /// The message the error is reported with.
    pub fn message(&self) -> (s: String)
        ensures
            s@ == config_error_text(*self),
    {
        match self {
            ConfigError::MissingDatabaseUrl => String::from_str(
                "DATABASE_URL must be set — get it from Railway PostgreSQL",
            ),
            ConfigError::MissingRedisUrl => String::from_str(
                "REDIS_URL must be set — get it from Railway Redis",
            ),
            ConfigError::MissingQuantApiKey => String::from_str("QUANT_API_KEY must be set"),
            ConfigError::InvalidPort => String::from_str("APP_PORT must be a valid number"),
        }
    }
}

/// An ASCII decimal digit.
pub open spec fn is_decimal_digit(c: char) -> bool {
    48 <= (c as int) <= 57
}

/// The value of a string of decimal digits.
pub open spec fn decimal_value(s: Seq<char>) -> int
    decreases s.len(),
{
    if s.len() == 0 {
        0
    } else {
        decimal_value(s.drop_last()) * 10 + ((s.last() as int) - 48)
    }
}

/// What `str::parse::<u16>` gives: an optional `+` followed by one or more
/// decimal digits whose value is at most 65535; anything else (a sign
/// alone, a `-`, whitespace, other characters, overflow) is an error.
pub open spec fn parsed_u16(s: Seq<char>) -> Option<u16> {
    let digits = if s.len() > 0 && s[0] == '+' {
        s.drop_first()
    } else {
        s
    };
    if digits.len() > 0 && (forall|i: int| 0 <= i < digits.len() ==> is_decimal_digit(
        #[trigger] digits[i],
    )) && decimal_value(digits) <= 65535 {
        Some(decimal_value(digits) as u16)
    } else {
        None
    }
}

/// Calls `str::parse::<u16>` (std's `FromStr` for `u16`, radix 10) and
/// keeps the value; the contract is the grammar that std documents for
/// `from_str_radix`: an optional `+` and only digits, within range.
#[verifier::external_body]
fn parse_u16(s: &str) -> (r: Option<u16>)
    ensures
        r == parsed_u16(s@),
{
    s.parse::<u16>().ok()
}

/// The port text: `PORT`, else `APP_PORT`, else "8080".
pub open spec fn port_text(port: Option<Seq<char>>, app_port: Option<Seq<char>>) -> Seq<char> {
    match port {
        Some(p) => p,
        None => match app_port {
            Some(p) => p,
            None => "8080"@,
        },
    }
}

/// The view of an optional string.
pub open spec fn opt_view(s: Option<String>) -> Option<Seq<char>> {
    match s {
        Some(v) => Some(v@),
        None => None,
    }
}

impl Config {
    /// Build the configuration from the values of the environment variables
    /// (`None` for a variable that is not set). The required variables are
    /// checked in this order: `DATABASE_URL`, `REDIS_URL`, `QUANT_API_KEY`;
    /// then the port must parse as a `u16`.
    pub fn from_env_values(
        database_url: Option<String>,
        redis_url: Option<String>,
        quant_api_key: Option<String>,
        quant_api_base_url: Option<String>,
        lambda_labs_api_key: Option<String>,
        app_host: Option<String>,
        port: Option<String>,
        app_port: Option<String>,
    ) -> (r: Result<Config, ConfigError>)
        ensures
            database_url is None ==> r == Err::<Config, ConfigError>(ConfigError::MissingDatabaseUrl),
            database_url is Some && redis_url is None ==> r == Err::<Config, ConfigError>(
                ConfigError::MissingRedisUrl,
            ),
            database_url is Some && redis_url is Some && quant_api_key is None ==> r == Err::<
                Config,
                ConfigError,
            >(ConfigError::MissingQuantApiKey),
            database_url is Some && redis_url is Some && quant_api_key is Some && parsed_u16(
                port_text(opt_view(port), opt_view(app_port)),
            ) is None ==> r == Err::<Config, ConfigError>(ConfigError::InvalidPort),
            (database_url is Some && redis_url is Some && quant_api_key is Some && parsed_u16(
                port_text(opt_view(port), opt_view(app_port)),
            ) is Some) ==> r is Ok,
            r is Ok ==> {
                let c = r->Ok_0;
                &&& database_url is Some && c.database_url@ == database_url->Some_0@
                &&& redis_url is Some && c.redis_url@ == redis_url->Some_0@
                &&& quant_api_key is Some && c.quant_api_key@ == quant_api_key->Some_0@
                &&& c.quant_api_base_url@ == match quant_api_base_url {
                    Some(u) => u@,
                    None => "https://api.example.com/v1"@,
                }
                &&& opt_view(c.lambda_labs_api_key) == opt_view(lambda_labs_api_key)
                &&& c.app_host@ == match app_host {
                    Some(h) => h@,
                    None => "0.0.0.0"@,
                }
                &&& parsed_u16(port_text(opt_view(port), opt_view(app_port))) == Some(c.app_port)
            },
    {
        let database_url = match database_url {
            Some(v) => v,
            None => return Err(ConfigError::MissingDatabaseUrl),
        };
        let redis_url = match redis_url {
            Some(v) => v,
            None => return Err(ConfigError::MissingRedisUrl),
        };
        let quant_api_key = match quant_api_key {
            Some(v) => v,
            None => return Err(ConfigError::MissingQuantApiKey),
        };
        let quant_api_base_url = match quant_api_base_url {
            Some(v) => v,
            None => String::from_str("https://api.example.com/v1"),
        };
        let app_host = match app_host {
            Some(v) => v,
            None => String::from_str("0.0.0.0"),
        };
        let port_value = match port {
            Some(p) => p,
            None => match app_port {
                Some(p) => p,
                None => String::from_str("8080"),
            },
        };
        let app_port = match parse_u16(port_value.as_str()) {
            Some(p) => p,
            None => return Err(ConfigError::InvalidPort),
        };
        Ok(
            Config {
                database_url,
                redis_url,
                quant_api_key,
                quant_api_base_url,
                lambda_labs_api_key,
                app_host,
                app_port,
            },
        )
    }
}

} // verus!
