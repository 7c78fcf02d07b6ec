//! Start-up settings and the database connection string.
use vstd::prelude::*;
use vstd::string::*;

use crate::text::{concat_text, contains, contains_spec, decimal, has_prefix, parse_u16, parse_u16_spec, push_decimal, starts_with};

verus! {

/// The settings the server starts with.
#[derive(Clone, Debug, PartialEq, Eq)]
pub struct Config {
    pub database_url: String,
    pub jwt_secret: String,
    pub host: String,
    pub port: u16,
}

/// The port a `PORT` setting gives: its value when it parses as a `u16`,
/// else 3000.
pub open spec fn port_setting(port: Option<String>) -> u16 {
    match port {
        Some(p) => match parse_u16_spec(p@) {
            Some(n) => n,
            None => 3000,
        },
        None => 3000,
    }
}

fn text_or(v: Option<String>, default: &str) -> (r: String)
    ensures
        r@ == match v {
            Some(s) => s@,
            None => default@,
        },
{
    match v {
        Some(s) => s,
        None => String::from_str(default),
    }
}

/// The settings from the environment's `DATABASE_URL`, `JWT_SECRET`, `HOST`
/// and `PORT` (`None` when unset), with their defaults.
pub fn load_config(
    database_url: Option<String>,
    jwt_secret: Option<String>,
    host: Option<String>,
    port: Option<String>,
) -> (r: Config)
    ensures
        r.database_url@ == match database_url {
            Some(s) => s@,
            None => "sqlite:///data/tasks.db"@,
        },
        r.jwt_secret@ == match jwt_secret {
            Some(s) => s@,
            None => "dev-secret-key-change-in-production"@,
        },
        r.host@ == match host {
            Some(s) => s@,
            None => "127.0.0.1"@,
        },
        r.port == port_setting(port),
{
    let port_value: u16 = match &port {
        Some(p) => match parse_u16(p.as_str()) {
            Some(n) => n,
            None => 3000,
        },
        None => 3000,
    };
    Config {
        database_url: text_or(database_url, "sqlite:///data/tasks.db"),
        jwt_secret: text_or(jwt_secret, "dev-secret-key-change-in-production"),
        host: text_or(host, "127.0.0.1"),
        port: port_value,
    }
}

/// How the start-up banner shows the secret: `[DEFAULT]` when it contains
/// `change`, as the shipped default does, else `[SET]`.
pub fn secret_label(secret: &str) -> (r: String)
    ensures
        r@ == if contains_spec(secret@, "change"@) {
            "[DEFAULT]"@
        } else {
            "[SET]"@
        },
{
    if contains(secret, "change") {
        String::from_str("[DEFAULT]")
    } else {
        String::from_str("[SET]")
    }
}

/// The `host:port` address to listen on.
pub fn listen_address(host: &str, port: u16) -> (r: String)
    ensures
        r@ == host@ + ":"@ + decimal(port as nat),
{
    let mut r = concat_text(host, ":");
    push_decimal(&mut r, port as u32);
    r
}

/// The connection string for an SQLite URL: a `sqlite://` URL gets
/// `?mode=rwc` so that a missing database file is created.
pub fn connection_options(database_url: &str) -> (r: String)
    ensures
        has_prefix(database_url@, "sqlite://"@) ==> r@ == database_url@ + "?mode=rwc"@,
        !has_prefix(database_url@, "sqlite://"@) ==> r@ == database_url@,
{
    if starts_with(database_url, "sqlite://") {
        concat_text(database_url, "?mode=rwc")
    } else {
        String::from_str(database_url)
    }
}

} // verus!
