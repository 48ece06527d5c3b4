//! Runtime configuration of the endpoint, from environment variables.
use vstd::prelude::*;
use crate::endpoint::error::AppError;
use crate::text::{chars_of, push_str, to_string};

verus! {

/// Why a text is not a `u16` (std's `IntErrorKind`, for unsigned targets).
#[derive(Debug, Clone, Copy, PartialEq, Eq, Structural)]
pub enum IntErrorKind {
    /// The text is empty.
    Empty,
    /// A character is not a decimal digit.
    InvalidDigit,
    /// The value exceeds the type's maximum.
    PosOverflow,
}

/// Whether `c` is an ASCII decimal digit.
pub open spec fn is_digit(c: char) -> bool {
    '0' <= c && c <= '9'
}

/// The value of a sequence of decimal digits.
pub open spec fn digits_value(d: Seq<char>) -> nat
    decreases d.len(),
{
    if d.len() == 0 {
        0
    } else {
        digits_value(d.drop_last()) * 10 + ((d.last() as u32) - 48) as nat
    }
}

/// Scanning `d` from index `i` on: the first problem found (a non-digit,
/// or a prefix whose value exceeds 65535), or the value of all of `d`.
pub open spec fn scan_u16(d: Seq<char>, i: int) -> Result<u16, IntErrorKind>
    decreases d.len() - i,
{
    if i < 0 || i >= d.len() {
        if digits_value(d) <= 65535 {
            Ok(digits_value(d) as u16)
        } else {
            Err(IntErrorKind::PosOverflow)
        }
    } else if !is_digit(d[i]) {
        Err(IntErrorKind::InvalidDigit)
    } else if digits_value(d.take(i + 1)) > 65535 {
        Err(IntErrorKind::PosOverflow)
    } else {
        scan_u16(d, i + 1)
    }
}

/// `u16::from_str`: an optional `+` and then decimal digits, checked from
/// left to right; the first non-digit or the first digit that makes the
/// value exceed 65535 decides the error.
pub open spec fn parse_u16_spec(s: Seq<char>) -> Result<u16, IntErrorKind> {
    if s.len() == 0 {
        Err(IntErrorKind::Empty)
    } else if s[0] == '+' {
        if s.len() == 1 {
            Err(IntErrorKind::InvalidDigit)
        } else {
            scan_u16(s.drop_first(), 0)
        }
    } else {
        scan_u16(s, 0)
    }
}

/// Parses a decimal `u16` as `u16::from_str` does.
pub fn parse_u16(s: &str) -> (r: Result<u16, IntErrorKind>)
    ensures
        r == parse_u16_spec(s@),
{
    let v = chars_of(s);
    if v.len() == 0 {
        return Err(IntErrorKind::Empty);
    }
    let start: usize = if v[0] == '+' {
        if v.len() == 1 {
            return Err(IntErrorKind::InvalidDigit);
        }
        1
    } else {
        0
    };
    let ghost d = v@.skip(start as int);
    assert(start == 1 ==> d =~= s@.drop_first());
    assert(start == 0 ==> d =~= s@);
    assert(parse_u16_spec(s@) == scan_u16(d, 0));
    let mut i = start;
    let mut value: u32 = 0;
    while i < v.len()
        invariant
            start <= i <= v.len(),
            d == v@.skip(start as int),
            value as nat == digits_value(d.take(i - start)),
            value <= 65535,
            scan_u16(d, 0) == scan_u16(d, i - start),
            parse_u16_spec(s@) == scan_u16(d, 0),
        decreases v.len() - i,
    {
        let c = v[i];
        assert(d[i - start] == c);
        if !('0' <= c && c <= '9') {
            return Err(IntErrorKind::InvalidDigit);
        }
        let digit: u32 = (c as u32) - 48;
        assert(d.take(i - start + 1).drop_last() =~= d.take(i - start));
        assert(d.take(i - start + 1).last() == c);
        let next = value * 10 + digit;
        assert(digits_value(d.take(i - start + 1)) == digits_value(d.take(i - start)) * 10 + ((c as u32) - 48) as nat);
        if next > 65535 {
            return Err(IntErrorKind::PosOverflow);
        }
        value = next;
        i += 1;
    }
    assert(d.take(d.len() as int) =~= d);
    Ok(value as u16)
}

/// The `Display` text of a parse error.
pub open spec fn int_error_text(k: IntErrorKind) -> Seq<char> {
    match k {
        IntErrorKind::Empty => "cannot parse integer from empty string"@,
        IntErrorKind::InvalidDigit => "invalid digit found in string"@,
        IntErrorKind::PosOverflow => "number too large to fit in target type"@,
    }
}

fn int_error_message(k: IntErrorKind) -> (m: &'static str)
    ensures
        m@ == int_error_text(k),
{
    match k {
        IntErrorKind::Empty => "cannot parse integer from empty string",
        IntErrorKind::InvalidDigit => "invalid digit found in string",
        IntErrorKind::PosOverflow => "number too large to fit in target type",
    }
}

/// Runtime configuration loaded from environment variables.
#[derive(Debug, Clone)]
pub struct Config {
    /// Deployment environment (e.g. `dev`, `staging`, `prod`).
    pub environment: String,
    /// Application name used in logging and metadata.
    pub app_name: String,
    /// Tracing log level filter (e.g. `info`, `debug`).
    pub log_level: String,
    /// TCP port to bind the HTTP listener on.
    pub port: u16,
    /// Storage backend selection (`sqlite` or `dynamo`).
    pub store_backend: String,
    /// DynamoDB table name for device records.
    pub devices_table: String,
    /// DynamoDB table name for uplink messages.
    pub messages_table: String,
    /// Filesystem path (or `:memory:`) for the SQLite database.
    pub sqlite_db_path: String,
}

/// The values of the environment variables the configuration reads
/// (`None` where a variable is unset).
pub struct ConfigVars {
    pub port: Option<String>,
    pub aws_lwa_port: Option<String>,
    pub environment: Option<String>,
    pub app_name: Option<String>,
    pub log_level: Option<String>,
    pub store_backend: Option<String>,
    pub devices_table: Option<String>,
    pub messages_table: Option<String>,
    pub sqlite_db_path: Option<String>,
}

/// A variable's value, or the default.
pub open spec fn or_default(v: Option<String>, d: Seq<char>) -> Seq<char> {
    match v {
        Some(s) => s@,
        None => d,
    }
}

/// The port text: `PORT`, else `AWS_LWA_PORT`, else `8000`.
pub open spec fn port_text(vars: ConfigVars) -> Seq<char> {
    match vars.port {
        Some(p) => p@,
        None => or_default(vars.aws_lwa_port, "8000"@),
    }
}

fn value_or(v: Option<String>, d: &str) -> (s: String)
    ensures
        s@ == or_default(v, d@),
{
    match v {
        Some(s) => s,
        None => to_string(d),
    }
}

impl Config {
    /// The configuration from the variables' values, with defaults: port
    /// 8000, environment `dev`, app `supervictor`, log level `info`, store
    /// `sqlite`, tables `devices` and `messages`, database `:memory:`. A port
    /// that is not a `u16` is a configuration error naming it and the reason.
    pub fn from_vars(vars: ConfigVars) -> (r: Result<Config, AppError>)
        ensures
            match parse_u16_spec(port_text(vars)) {
                Err(k) => r matches Err(AppError::Config(m)) && m@ == "invalid port '"@ + port_text(vars)
                    + "': "@ + int_error_text(k),
                Ok(port) => r matches Ok(c) && c.port == port && c.environment@ == or_default(
                    vars.environment,
                    "dev"@,
                ) && c.app_name@ == or_default(vars.app_name, "supervictor"@) && c.log_level@
                    == or_default(vars.log_level, "info"@) && c.store_backend@ == or_default(
                    vars.store_backend,
                    "sqlite"@,
                ) && c.devices_table@ == or_default(vars.devices_table, "devices"@)
                    && c.messages_table@ == or_default(vars.messages_table, "messages"@)
                    && c.sqlite_db_path@ == or_default(vars.sqlite_db_path, ":memory:"@),
            },
    {
        let ghost pt = port_text(vars);
        let port_str = match vars.port {
            Some(p) => p,
            None => value_or(vars.aws_lwa_port, "8000"),
        };
        let port = match parse_u16(port_str.as_str()) {
            Ok(p) => p,
            Err(k) => {
                let mut m = to_string("invalid port '");
                push_str(&mut m, port_str.as_str());
                push_str(&mut m, "': ");
                push_str(&mut m, int_error_message(k));
                return Err(AppError::Config(m));
            },
        };
        Ok(Config {
            environment: value_or(vars.environment, "dev"),
            app_name: value_or(vars.app_name, "supervictor"),
            log_level: value_or(vars.log_level, "info"),
            port,
            store_backend: value_or(vars.store_backend, "sqlite"),
            devices_table: value_or(vars.devices_table, "devices"),
            messages_table: value_or(vars.messages_table, "messages"),
            sqlite_db_path: value_or(vars.sqlite_db_path, ":memory:"),
        })
    }
}

} // verus!
