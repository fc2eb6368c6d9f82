use vstd::prelude::*;
use crate::text::{parse_u16, parse_u32, parse_i64, u16_parsed, u32_parsed, i64_parsed};

verus! {

/// Settings of the whole service.
pub struct Config {
    pub server: ServerConfig,
    pub database: DatabaseConfig,
    pub redis: RedisConfig,
    pub jwt: JwtConfig,
}

/// Where the service listens.
pub struct ServerConfig {
    pub host: String,
    pub port: u16,
}

/// The relational store and the size of its connection pool.
pub struct DatabaseConfig {
    pub url: String,
    pub max_connections: u32,
}

/// The cache that holds sessions.
pub struct RedisConfig {
    pub url: String,
}

/// The signing secret and the lifetimes, in seconds, of access and refresh tokens.
pub struct JwtConfig {
    pub secret: String,
    pub expiration: i64,
    pub refresh_expiration: i64,
}

/// The raw settings as the environment gives them, each where set.
pub struct EnvSettings<'a> {
    pub server_host: Option<&'a str>,
    pub server_port: Option<&'a str>,
    pub database_url: Option<&'a str>,
    pub database_max_connections: Option<&'a str>,
    pub redis_url: Option<&'a str>,
    pub jwt_secret: Option<&'a str>,
    pub jwt_expiration: Option<&'a str>,
    pub jwt_refresh_expiration: Option<&'a str>,
}

/// A setting's text, or its default where it is not set.
pub open spec fn or_default(o: Option<&str>, d: Seq<char>) -> Seq<char> {
    match o {
        Some(s) => s@,
        None => d,
    }
}

/// A number read from a setting, or the default where it is not set or does not read.
pub open spec fn number_or<T>(o: Option<T>, d: T) -> T {
    match o {
        Some(x) => x,
        None => d,
    }
}

fn text_or(o: Option<&str>, d: &str) -> (r: String)
    ensures
        r@ == or_default(o, d@),
{
    match o {
        Some(s) => String::from_str(s),
        None => String::from_str(d),
    }
}

impl Config {
    /// The settings read from their raw texts: the port must be a number, and
    /// the database URL and the signing secret must be set; everything else
    /// has a default.
    pub fn from_settings(env: &EnvSettings) -> (r: Result<Config, String>)
        ensures
            u16_parsed(or_default(env.server_port, "8080"@)) is None ==> (r matches Err(m) && m@
                == "Invalid SERVER_PORT"@),
            u16_parsed(or_default(env.server_port, "8080"@)) is Some && env.database_url is None ==> (
            r matches Err(m) && m@ == "DATABASE_URL must be set"@),
            u16_parsed(or_default(env.server_port, "8080"@)) is Some && env.database_url is Some
                && env.jwt_secret is None ==> (r matches Err(m) && m@ == "JWT_SECRET must be set"@),
            u16_parsed(or_default(env.server_port, "8080"@)) matches Some(port) ==> (env.database_url matches Some(db) ==> (env.jwt_secret matches Some(secret) ==> (r matches Ok(c) && {
                &&& c.server.host@ == or_default(env.server_host, "127.0.0.1"@)
                &&& c.server.port == port
                &&& c.database.url@ == db@
                &&& c.database.max_connections == number_or(
                    u32_parsed(or_default(env.database_max_connections, "10"@)),
                    10u32,
                )
                &&& c.redis.url@ == or_default(env.redis_url, "redis://127.0.0.1:6379"@)
                &&& c.jwt.secret@ == secret@
                &&& c.jwt.expiration == number_or(i64_parsed(or_default(env.jwt_expiration, "3600"@)), 3600i64)
                &&& c.jwt.refresh_expiration == number_or(
                    i64_parsed(or_default(env.jwt_refresh_expiration, "86400"@)),
                    86400i64,
                )
            }))),
    {
        let host = text_or(env.server_host, "127.0.0.1");
        let port_text = text_or(env.server_port, "8080");
        let port = match parse_u16(port_text.as_str()) {
            Some(p) => p,
            None => return Err(String::from_str("Invalid SERVER_PORT")),
        };
        let url = match env.database_url {
            Some(u) => String::from_str(u),
            None => return Err(String::from_str("DATABASE_URL must be set")),
        };
        let max_text = text_or(env.database_max_connections, "10");
        let max_connections = match parse_u32(max_text.as_str()) {
            Some(n) => n,
            None => 10,
        };
        let redis_url = text_or(env.redis_url, "redis://127.0.0.1:6379");
        let secret = match env.jwt_secret {
            Some(s) => String::from_str(s),
            None => return Err(String::from_str("JWT_SECRET must be set")),
        };
        let exp_text = text_or(env.jwt_expiration, "3600");
        let expiration = match parse_i64(exp_text.as_str()) {
            Some(n) => n,
            None => 3600,
        };
        let refresh_text = text_or(env.jwt_refresh_expiration, "86400");
        let refresh_expiration = match parse_i64(refresh_text.as_str()) {
            Some(n) => n,
            None => 86400,
        };
        Ok(Config {
            server: ServerConfig { host, port },
            database: DatabaseConfig { url, max_connections },
            redis: RedisConfig { url: redis_url },
            jwt: JwtConfig { secret, expiration, refresh_expiration },
        })
    }
}

} // verus!
