//! The configuration that the service is started with, read from the text
//! values of its settings.

use vstd::prelude::*;
use vstd::string::*;

verus! {

/// The settings, in the order in which they are read.
#[derive(Clone, Copy, Debug, PartialEq, Eq, Structural)]
pub enum Setting {
    DatabaseHost,
    DatabasePort,
    DatabaseUsername,
    DatabasePassword,
    DatabaseName,
    RedisHost,
    RedisPort,
    AuthTokenTtl,
}

/// Why a configuration could not be read.
#[derive(Clone, Copy, Debug, PartialEq, Eq, Structural)]
pub enum ConfigError {
    /// The setting has no value.
    Missing(Setting),
    /// The setting's value is not a number in range.
    Invalid(Setting),
}

/// The text values of the settings as found; `None` where one is not set.
#[derive(Debug)]
pub struct ConfigVars {
    pub database_host: Option<String>,
    pub database_port: Option<String>,
    pub database_username: Option<String>,
    pub database_password: Option<String>,
    pub database_name: Option<String>,
    pub redis_host: Option<String>,
    pub redis_port: Option<String>,
    pub auth_token_ttl: Option<String>,
}

#[derive(Debug)]
pub struct DatabaseConfig {
    pub host: String,
    pub port: u16,
    pub username: String,
    pub password: String,
    pub database: String,
}

#[derive(Debug)]
pub struct RedisConfig {
    pub host: String,
    pub port: u16,
}

/// The lifetime of every token, in seconds.
#[derive(Clone, Copy, Debug, PartialEq, Eq, Structural)]
pub struct AuthConfig {
    pub ttl: u64,
}

#[derive(Debug)]
pub struct AppConfig {
    pub database: DatabaseConfig,
    pub redis: RedisConfig,
    pub auth: AuthConfig,
}

pub open spec fn is_digit(c: char) -> bool {
    '0' <= c && c <= '9'
}

pub open spec fn digit_value(c: char) -> nat {
    (c as int - '0' as int) as nat
}

/// The number that a sequence of decimal digits denotes.
pub open spec fn decimal_value(digits: Seq<char>) -> nat
    decreases digits.len(),
{
    if digits.len() == 0 {
        0
    } else {
        decimal_value(digits.drop_last()) * 10 + digit_value(digits.last())
    }
}

pub open spec fn all_digits(digits: Seq<char>) -> bool {
    forall|i: int| 0 <= i < digits.len() ==> is_digit(#[trigger] digits[i])
}

/// The digits of a number's text: the text without one leading `+`.
pub open spec fn unsigned_digits(text: Seq<char>) -> Seq<char> {
    if text.len() > 0 && text[0] == '+' {
        text.subrange(1, text.len() as int)
    } else {
        text
    }
}

/// The number that a text denotes, where it is one or more decimal digits,
/// after an optional `+`, and the number is at most `max`.
pub open spec fn parse_number(text: Seq<char>, max: u64) -> Option<u64> {
    let digits = unsigned_digits(text);
    if digits.len() > 0 && all_digits(digits) && decimal_value(digits) <= max {
        Some(decimal_value(digits) as u64)
    } else {
        None
    }
}

proof fn decimal_value_grows(digits: Seq<char>, k: int)
    requires
        0 <= k <= digits.len(),
    ensures
        decimal_value(digits.take(k)) <= decimal_value(digits),
    decreases digits.len() - k,
{
    if k == digits.len() {
        assert(digits.take(k) =~= digits);
    } else {
        let next = digits.take(k + 1);
        assert(next.drop_last() =~= digits.take(k));
        decimal_value_grows(digits, k + 1);
        assert(decimal_value(next) == decimal_value(digits.take(k)) * 10 + digit_value(next.last()));
    }
}

/// Reads a decimal number of at most `max` from a text.
pub fn parse_decimal(text: &str, max: u64) -> (parsed: Option<u64>)
    ensures
        parsed == parse_number(text@, max),
{
    if !text.is_ascii() {
        proof {
            let i = choose|i: int| 0 <= i < text@.len() && !('\0' <= #[trigger] text@[i] <= '\u{7f}');
            let digits = unsigned_digits(text@);
            if digits.len() > 0 && all_digits(digits) {
                if text@[0] == '+' {
                    assert(i >= 1);
                    assert(digits[i - 1] == text@[i]);
                } else {
                    assert(digits[i] == text@[i]);
                }
            }
        }
        return None;
    }
    let n: usize = text.as_bytes().len();
    assert(n == text@.len()) by {
        is_ascii_spec_bytes(text);
    }
    let start: usize = if n > 0 && text.get_ascii(0) == 43 { 1 } else { 0 };
    let ghost digits = unsigned_digits(text@);
    assert(digits =~= text@.subrange(start as int, n as int)) by {
        if n > 0 {
            assert('\0' <= text@[0] <= '\u{7f}');
        }
    }
    if start == n {
        return None;
    }
    let mut value: u64 = 0;
    let mut i: usize = start;
    assert(digits.take(0) =~= Seq::<char>::empty());
    while i < n
        invariant
            start <= i <= n,
            n == text@.len(),
            text.is_ascii(),
            digits == text@.subrange(start as int, n as int),
            digits == unsigned_digits(text@),
            all_digits(digits.take(i - start)),
            value == decimal_value(digits.take(i - start)),
            value <= max,
        decreases n - i,
    {
        let b: u8 = text.get_ascii(i);
        let ghost c = text@[i as int];
        assert('\0' <= c <= '\u{7f}');
        assert(digits[i - start] == c);
        let ghost next = digits.take(i - start + 1);
        assert(next.drop_last() =~= digits.take(i - start));
        assert(next.last() == c);
        if b < 48 || b > 57 {
            assert(!is_digit(digits[i - start]));
            return None;
        }
        let d: u64 = (b - 48) as u64;
        assert(d == digit_value(c));
        assert(decimal_value(next) == value * 10 + d);
        if d > max || value > (max - d) / 10 {
            proof {
                assert(value * 10 + d > max);
                decimal_value_grows(digits, i - start + 1);
            }
            return None;
        }
        value = value * 10 + d;
        assert(all_digits(next)) by {
            assert forall|k: int| 0 <= k < next.len() implies is_digit(#[trigger] next[k]) by {
                if k < next.len() - 1 {
                    assert(next[k] == digits.take(i - start)[k]);
                }
            }
        }
        i = i + 1;
    }
    assert(digits.take(n - start) =~= digits);
    Some(value)
}

} // verus!

verus! {

/// The largest port number.
pub const MAX_PORT: u64 = 65535;

/// What reading one text setting comes to.
pub open spec fn text_setting(value: Option<String>, setting: Setting) -> Result<Seq<char>, ConfigError> {
    match value {
        Some(text) => Ok(text@),
        None => Err(ConfigError::Missing(setting)),
    }
}

/// What reading one numeric setting comes to.
pub open spec fn number_setting(value: Option<String>, setting: Setting, max: u64) -> Result<
    u64,
    ConfigError,
> {
    match value {
        Some(text) => match parse_number(text@, max) {
            Some(number) => Ok(number),
            None => Err(ConfigError::Invalid(setting)),
        },
        None => Err(ConfigError::Missing(setting)),
    }
}

fn required(value: Option<String>, setting: Setting) -> (read: Result<String, ConfigError>)
    ensures
        read matches Ok(text) ==> text_setting(value, setting) == Ok::<Seq<char>, ConfigError>(text@),
        read matches Err(error) ==> text_setting(value, setting) == Err::<Seq<char>, ConfigError>(error),
{
    match value {
        Some(text) => Ok(text),
        None => Err(ConfigError::Missing(setting)),
    }
}

fn required_number(value: Option<String>, setting: Setting, max: u64) -> (read: Result<u64, ConfigError>)
    ensures
        read == number_setting(value, setting, max),
        read matches Ok(number) ==> number <= max,
{
    match value {
        Some(text) => match parse_decimal(text.as_str(), max) {
            Some(number) => Ok(number),
            None => Err(ConfigError::Invalid(setting)),
        },
        None => Err(ConfigError::Missing(setting)),
    }
}

/// The error of a reading that failed.
pub open spec fn error_of<T>(read: Result<T, ConfigError>) -> Option<ConfigError> {
    match read {
        Ok(_) => None,
        Err(error) => Some(error),
    }
}

/// The earlier of two errors.
pub open spec fn or_next(first: Option<ConfigError>, next: Option<ConfigError>) -> Option<ConfigError> {
    if first is Some {
        first
    } else {
        next
    }
}

impl ConfigVars {
    /// The first setting, in reading order, that is missing or not a number
    /// in range, with what is wrong with it; `None` where every setting
    /// reads.
    pub open spec fn first_error(self) -> Option<ConfigError> {
        or_next(
            error_of(text_setting(self.database_host, Setting::DatabaseHost)),
            or_next(
                error_of(number_setting(self.database_port, Setting::DatabasePort, MAX_PORT)),
                or_next(
                    error_of(text_setting(self.database_username, Setting::DatabaseUsername)),
                    or_next(
                        error_of(text_setting(self.database_password, Setting::DatabasePassword)),
                        or_next(
                            error_of(text_setting(self.database_name, Setting::DatabaseName)),
                            or_next(
                                error_of(text_setting(self.redis_host, Setting::RedisHost)),
                                or_next(
                                    error_of(number_setting(self.redis_port, Setting::RedisPort, MAX_PORT)),
                                    error_of(
                                        number_setting(self.auth_token_ttl, Setting::AuthTokenTtl, u64::MAX),
                                    ),
                                ),
                            ),
                        ),
                    ),
                ),
            ),
        )
    }
}

impl AppConfig {
    /// Whether this configuration holds exactly what `vars` say.
    pub open spec fn reads(self, vars: ConfigVars) -> bool {
        &&& text_setting(vars.database_host, Setting::DatabaseHost) == Ok::<Seq<char>, ConfigError>(
            self.database.host@,
        )
        &&& number_setting(vars.database_port, Setting::DatabasePort, MAX_PORT) == Ok::<u64, ConfigError>(
            self.database.port as u64,
        )
        &&& text_setting(vars.database_username, Setting::DatabaseUsername) == Ok::<
            Seq<char>,
            ConfigError,
        >(self.database.username@)
        &&& text_setting(vars.database_password, Setting::DatabasePassword) == Ok::<
            Seq<char>,
            ConfigError,
        >(self.database.password@)
        &&& text_setting(vars.database_name, Setting::DatabaseName) == Ok::<Seq<char>, ConfigError>(
            self.database.database@,
        )
        &&& text_setting(vars.redis_host, Setting::RedisHost) == Ok::<Seq<char>, ConfigError>(
            self.redis.host@,
        )
        &&& number_setting(vars.redis_port, Setting::RedisPort, MAX_PORT) == Ok::<u64, ConfigError>(
            self.redis.port as u64,
        )
        &&& number_setting(vars.auth_token_ttl, Setting::AuthTokenTtl, u64::MAX) == Ok::<
            u64,
            ConfigError,
        >(self.auth.ttl)
    }

    /// Reads the configuration from the text values of the settings. The
    /// settings are read in a fixed order and the first one that is missing
    /// or not a number in range is the error.
    pub fn new(vars: ConfigVars) -> (config: Result<AppConfig, ConfigError>)
        ensures
            vars.first_error() matches Some(error) ==> config == Err::<AppConfig, ConfigError>(error),
            vars.first_error() is None ==> config is Ok && config->Ok_0.reads(vars),
    {
        let ConfigVars {
            database_host,
            database_port,
            database_username,
            database_password,
            database_name,
            redis_host,
            redis_port,
            auth_token_ttl,
        } = vars;
        let host = match required(database_host, Setting::DatabaseHost) {
            Ok(text) => text,
            Err(error) => { return Err(error); },
        };
        let port: u64 = match required_number(database_port, Setting::DatabasePort, MAX_PORT) {
            Ok(number) => number,
            Err(error) => { return Err(error); },
        };
        let username = match required(database_username, Setting::DatabaseUsername) {
            Ok(text) => text,
            Err(error) => { return Err(error); },
        };
        let password = match required(database_password, Setting::DatabasePassword) {
            Ok(text) => text,
            Err(error) => { return Err(error); },
        };
        let database_name = match required(database_name, Setting::DatabaseName) {
            Ok(text) => text,
            Err(error) => { return Err(error); },
        };
        let database = DatabaseConfig { host, port: port as u16, username, password, database: database_name };
        let redis_host = match required(redis_host, Setting::RedisHost) {
            Ok(text) => text,
            Err(error) => { return Err(error); },
        };
        let redis_port: u64 = match required_number(redis_port, Setting::RedisPort, MAX_PORT) {
            Ok(number) => number,
            Err(error) => { return Err(error); },
        };
        let redis = RedisConfig { host: redis_host, port: redis_port as u16 };
        let ttl: u64 = match required_number(auth_token_ttl, Setting::AuthTokenTtl, u64::MAX) {
            Ok(number) => number,
            Err(error) => { return Err(error); },
        };
        Ok(AppConfig { database, redis, auth: AuthConfig { ttl } })
    }
}

} // verus!
