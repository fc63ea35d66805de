//! The bot's settings, read from the values of its environment variables.
use vstd::prelude::*;

use crate::text::{parse_u16, parse_u16_spec};

verus! {

/// The settings of the bot.
#[derive(Clone, Debug, PartialEq, Eq)]
pub struct Config {
    pub database_password: String,
    pub database_name: String,
    pub database_host: String,
    pub database_user: String,
    pub database_port: u16,
    pub cache_host: String,
    pub url: String,
    pub port: u16,
}

/// The value of an environment variable: unset, set but not Unicode, or set.
#[derive(Clone, Debug, PartialEq, Eq)]
pub enum EnvValue {
    Missing,
    NotUnicode,
    Present(String),
}

/// The environment variables the settings come from.
#[derive(Clone, Debug, PartialEq, Eq)]
pub struct ConfigEnv {
    pub server_port: EnvValue,
    pub database_port: EnvValue,
    pub database_password: EnvValue,
    pub url: EnvValue,
    pub database_user: EnvValue,
    pub database_host: EnvValue,
    pub database_name: EnvValue,
    pub cache_host: EnvValue,
}

/// The environment variables, by name.
#[derive(Clone, Copy, Debug, PartialEq, Eq, Structural)]
pub enum EnvVar {
    ServerPort,
    DatabasePort,
    DatabasePassword,
    Url,
    DatabaseUser,
    DatabaseHost,
    DatabaseName,
    CacheHost,
}

pub open spec fn env_var_name(v: EnvVar) -> Seq<char> {
    match v {
        EnvVar::ServerPort => "SERVER_PORT"@,
        EnvVar::DatabasePort => "DATABASE_PORT"@,
        EnvVar::DatabasePassword => "DATABASE_PASSWORD"@,
        EnvVar::Url => "URL"@,
        EnvVar::DatabaseUser => "DATABASE_USER"@,
        EnvVar::DatabaseHost => "DATABASE_HOST"@,
        EnvVar::DatabaseName => "DATABASE_NAME"@,
        EnvVar::CacheHost => "CACHE_HOST"@,
    }
}

impl EnvVar {
    /// The variable's name in the environment.
    pub fn name(&self) -> (s: &'static str)
        ensures
            s@ == env_var_name(*self),
    {
        match self {
            EnvVar::ServerPort => "SERVER_PORT",
            EnvVar::DatabasePort => "DATABASE_PORT",
            EnvVar::DatabasePassword => "DATABASE_PASSWORD",
            EnvVar::Url => "URL",
            EnvVar::DatabaseUser => "DATABASE_USER",
            EnvVar::DatabaseHost => "DATABASE_HOST",
            EnvVar::DatabaseName => "DATABASE_NAME",
            EnvVar::CacheHost => "CACHE_HOST",
        }
    }
}

/// Why the settings cannot be read; the bot stops on any of these.
#[derive(Clone, Copy, Debug, PartialEq, Eq, Structural)]
pub enum ConfigError {
    /// A variable without default is not set.
    NotSet(EnvVar),
    /// A variable is set to something that is not Unicode.
    NotUnicode(EnvVar),
    /// A port variable does not hold a 16-bit number.
    InvalidPort(EnvVar),
}

/// A port setting: its default when unset, else the number it holds.
pub open spec fn port_setting(v: EnvValue, var: EnvVar, default: u16) -> Result<u16, ConfigError> {
    match v {
        EnvValue::Missing => Ok(default),
        EnvValue::NotUnicode => Err(ConfigError::NotUnicode(var)),
        EnvValue::Present(s) => match parse_u16_spec(s@) {
            Some(p) => Ok(p),
            None => Err(ConfigError::InvalidPort(var)),
        },
    }
}

/// A text setting: its default (if it has one) when unset, else its value.
pub open spec fn text_setting(v: EnvValue, var: EnvVar, default: Option<Seq<char>>) -> Result<
    Seq<char>,
    ConfigError,
> {
    match v {
        EnvValue::Missing => match default {
            Some(d) => Ok(d),
            None => Err(ConfigError::NotSet(var)),
        },
        EnvValue::NotUnicode => Err(ConfigError::NotUnicode(var)),
        EnvValue::Present(s) => Ok(s@),
    }
}

pub open spec fn server_port_setting(env: ConfigEnv) -> Result<u16, ConfigError> {
    port_setting(env.server_port, EnvVar::ServerPort, 3000)
}

pub open spec fn database_port_setting(env: ConfigEnv) -> Result<u16, ConfigError> {
    port_setting(env.database_port, EnvVar::DatabasePort, 5432)
}

pub open spec fn password_setting(env: ConfigEnv) -> Result<Seq<char>, ConfigError> {
    text_setting(env.database_password, EnvVar::DatabasePassword, None)
}

pub open spec fn url_setting(env: ConfigEnv) -> Result<Seq<char>, ConfigError> {
    text_setting(env.url, EnvVar::Url, None)
}

pub open spec fn user_setting(env: ConfigEnv) -> Result<Seq<char>, ConfigError> {
    text_setting(env.database_user, EnvVar::DatabaseUser, Some("postgres"@))
}

pub open spec fn host_setting(env: ConfigEnv) -> Result<Seq<char>, ConfigError> {
    text_setting(env.database_host, EnvVar::DatabaseHost, Some("127.0.0.1"@))
}

pub open spec fn name_setting(env: ConfigEnv) -> Result<Seq<char>, ConfigError> {
    text_setting(env.database_name, EnvVar::DatabaseName, Some("tigerbot"@))
}

pub open spec fn cache_setting(env: ConfigEnv) -> Result<Seq<char>, ConfigError> {
    text_setting(env.cache_host, EnvVar::CacheHost, Some("cache"@))
}

/// The first setting that cannot be read, in the order the bot reads them.
pub open spec fn first_config_error(env: ConfigEnv) -> Option<ConfigError> {
    if server_port_setting(env) is Err {
        Some(server_port_setting(env)->Err_0)
    } else if database_port_setting(env) is Err {
        Some(database_port_setting(env)->Err_0)
    } else if password_setting(env) is Err {
        Some(password_setting(env)->Err_0)
    } else if url_setting(env) is Err {
        Some(url_setting(env)->Err_0)
    } else if user_setting(env) is Err {
        Some(user_setting(env)->Err_0)
    } else if host_setting(env) is Err {
        Some(host_setting(env)->Err_0)
    } else if name_setting(env) is Err {
        Some(name_setting(env)->Err_0)
    } else if cache_setting(env) is Err {
        Some(cache_setting(env)->Err_0)
    } else {
        None
    }
}

fn read_port(v: EnvValue, var: EnvVar, default: u16) -> (r: Result<u16, ConfigError>)
    ensures
        r == port_setting(v, var, default),
{
    match v {
        EnvValue::Missing => Ok(default),
        EnvValue::NotUnicode => Err(ConfigError::NotUnicode(var)),
        EnvValue::Present(s) => match parse_u16(s.as_str()) {
            Some(p) => Ok(p),
            None => Err(ConfigError::InvalidPort(var)),
        },
    }
}

fn read_text(v: EnvValue, var: EnvVar, default: Option<&str>) -> (r: Result<String, ConfigError>)
    ensures
        r is Ok <==> text_setting(v, var, default.deep_view()) is Ok,
        r matches Ok(s) ==> text_setting(v, var, default.deep_view()) == Ok::<Seq<char>, ConfigError>(s@),
        r matches Err(e) ==> text_setting(v, var, default.deep_view()) == Err::<Seq<char>, ConfigError>(e),
{
    match v {
        EnvValue::Missing => match default {
            Some(d) => Ok(String::from_str(d)),
            None => Err(ConfigError::NotSet(var)),
        },
        EnvValue::NotUnicode => Err(ConfigError::NotUnicode(var)),
        EnvValue::Present(s) => Ok(s),
    }
}

impl Config {
    /// Reads the settings from the environment's values. The ports default
    /// to 3000 and 5432, the database user, host and name to `postgres`,
    /// `127.0.0.1` and `tigerbot`, the cache host to `cache`; the database
    /// password and the URL must be set. The first variable that cannot be
    /// read, in the order of [`first_config_error`], is reported.
    pub fn new(env: ConfigEnv) -> (r: Result<Config, ConfigError>)
        ensures
            r is Ok <==> first_config_error(env) is None,
            r matches Err(e) ==> first_config_error(env) == Some(e),
            r matches Ok(c) ==> {
                &&& server_port_setting(env) == Ok::<u16, ConfigError>(c.port)
                &&& database_port_setting(env) == Ok::<u16, ConfigError>(c.database_port)
                &&& password_setting(env) == Ok::<Seq<char>, ConfigError>(c.database_password@)
                &&& url_setting(env) == Ok::<Seq<char>, ConfigError>(c.url@)
                &&& user_setting(env) == Ok::<Seq<char>, ConfigError>(c.database_user@)
                &&& host_setting(env) == Ok::<Seq<char>, ConfigError>(c.database_host@)
                &&& name_setting(env) == Ok::<Seq<char>, ConfigError>(c.database_name@)
                &&& cache_setting(env) == Ok::<Seq<char>, ConfigError>(c.cache_host@)
            },
    {
        proof {
            reveal_strlit("postgres");
            reveal_strlit("127.0.0.1");
            reveal_strlit("tigerbot");
            reveal_strlit("cache");
        }
        let port = match read_port(env.server_port, EnvVar::ServerPort, 3000) {
            Ok(p) => p,
            Err(e) => {
                return Err(e);
            },
        };
        let database_port = match read_port(env.database_port, EnvVar::DatabasePort, 5432) {
            Ok(p) => p,
            Err(e) => {
                return Err(e);
            },
        };
        let database_password = match read_text(env.database_password, EnvVar::DatabasePassword, None) {
            Ok(s) => s,
            Err(e) => {
                return Err(e);
            },
        };
        let url = match read_text(env.url, EnvVar::Url, None) {
            Ok(s) => s,
            Err(e) => {
                return Err(e);
            },
        };
        let database_user = match read_text(env.database_user, EnvVar::DatabaseUser, Some("postgres")) {
            Ok(s) => s,
            Err(e) => {
                return Err(e);
            },
        };
        let database_host = match read_text(env.database_host, EnvVar::DatabaseHost, Some("127.0.0.1")) {
            Ok(s) => s,
            Err(e) => {
                return Err(e);
            },
        };
        let database_name = match read_text(env.database_name, EnvVar::DatabaseName, Some("tigerbot")) {
            Ok(s) => s,
            Err(e) => {
                return Err(e);
            },
        };
        let cache_host = match read_text(env.cache_host, EnvVar::CacheHost, Some("cache")) {
            Ok(s) => s,
            Err(e) => {
                return Err(e);
            },
        };
        Ok(
            Config {
                database_password,
                database_name,
                database_host,
                database_user,
                database_port,
                cache_host,
                url,
                port,
            },
        )
    }
}

/// A variable that is not set takes its default; the database password and
/// the URL have none.
pub proof fn lemma_unset_variables_take_defaults(env: ConfigEnv)
    ensures
        env.server_port is Missing ==> server_port_setting(env) == Ok::<u16, ConfigError>(3000),
        env.database_port is Missing ==> database_port_setting(env) == Ok::<u16, ConfigError>(5432),
        env.database_user is Missing ==> user_setting(env) == Ok::<Seq<char>, ConfigError>("postgres"@),
        env.database_host is Missing ==> host_setting(env) == Ok::<Seq<char>, ConfigError>("127.0.0.1"@),
        env.database_name is Missing ==> name_setting(env) == Ok::<Seq<char>, ConfigError>("tigerbot"@),
        env.cache_host is Missing ==> cache_setting(env) == Ok::<Seq<char>, ConfigError>("cache"@),
        env.database_password is Missing ==> password_setting(env) == Err::<Seq<char>, ConfigError>(ConfigError::NotSet(EnvVar::DatabasePassword)),
        env.url is Missing ==> url_setting(env) == Err::<Seq<char>, ConfigError>(ConfigError::NotSet(EnvVar::Url)),
{
}

} // verus!
