//! Settings read from the process environment, each with its fallback.
//! The environment itself is handed in as a snapshot of name/value pairs,
//! so that every setting is a function of that snapshot.

use vstd::prelude::*;
use crate::text::{concat, decimal, same_text, u64_to_decimal};

verus! {

/// A snapshot of the process environment: variable names with their values.
pub struct EnvVars {
    pub entries: Vec<(String, String)>,
}

impl View for EnvVars {
    type V = Seq<(Seq<char>, Seq<char>)>;

    open spec fn view(&self) -> Seq<(Seq<char>, Seq<char>)> {
        self.entries.deep_view()
    }
}

/// The value of the first entry named `key`, if any.
pub open spec fn lookup(entries: Seq<(Seq<char>, Seq<char>)>, key: Seq<char>) -> Option<
    Seq<char>,
>
    decreases entries.len(),
{
    if entries.len() == 0 {
        None
    } else if entries[0].0 == key {
        Some(entries[0].1)
    } else {
        lookup(entries.drop_first(), key)
    }
}

/// The value of `key` in `entries`, or `default` when it is unset.
pub open spec fn value_or(entries: Seq<(Seq<char>, Seq<char>)>, key: Seq<char>, default: Seq<
    char,
>) -> Seq<char> {
    match lookup(entries, key) {
        Some(v) => v,
        None => default,
    }
}

/// Whether `c` is an ASCII decimal digit.
pub open spec fn is_digit(c: char) -> bool {
    '0' <= c <= '9'
}

/// The number written by a string of decimal digits.
pub open spec fn digits_value(s: Seq<char>) -> nat
    decreases s.len(),
{
    if s.len() == 0 {
        0
    } else {
        digits_value(s.drop_last()) * 10 + ((s.last() as u32) - ('0' as u32)) as nat
    }
}

/// The digits of a number written with an optional leading `+`.
pub open spec fn unsigned_digits(s: Seq<char>) -> Seq<char> {
    if s.len() > 0 && s[0] == '+' {
        s.drop_first()
    } else {
        s
    }
}

/// The `u16` that `s` writes in decimal, with an optional leading `+`; none
/// when `s` holds anything else or the number does not fit.
pub open spec fn parsed_u16(s: Seq<char>) -> Option<u16> {
    let d = unsigned_digits(s);
    if d.len() > 0 && (forall|i: int| 0 <= i < d.len() ==> is_digit(#[trigger] d[i]))
        && digits_value(d) <= 65535 {
        Some(digits_value(d) as u16)
    } else {
        None
    }
}

/// Reads `s` as a decimal `u16`, as `str::parse::<u16>` does.
pub fn parse_u16(s: &str) -> (r: Option<u16>)
    ensures
        r == parsed_u16(s@),
{
    let n = s.unicode_len();
    let start: usize = if n > 0 && s.get_char(0) == '+' {
        1
    } else {
        0
    };
    let d = s.substring_char(start, n);
    assert(d@ == unsigned_digits(s@)) by {
        if start == 1 {
            assert(d@ =~= s@.drop_first());
        } else {
            assert(d@ =~= s@);
        }
    }
    let m = d.unicode_len();
    if m == 0 {
        return None;
    }
    let mut value: u32 = 0;
    let mut too_big = false;
    let mut i: usize = 0;
    while i < m
        invariant
            m == d@.len(),
            d@ == unsigned_digits(s@),
            0 <= i <= m,
            forall|j: int| 0 <= j < i ==> is_digit(#[trigger] d@[j]),
            !too_big ==> value as nat == digits_value(d@.take(i as int)) && value <= 65535,
            too_big ==> digits_value(d@.take(i as int)) > 65535,
        decreases m - i,
    {
        let c = d.get_char(i);
        if !('0' <= c && c <= '9') {
            assert(!is_digit(d@[i as int]));
            return None;
        }
        let ghost prev = d@.take(i as int);
        proof {
            let next = d@.take(i + 1);
            assert(next.drop_last() =~= prev);
            assert(next.last() == c);
        }
        if !too_big {
            let digit = (c as u32) - ('0' as u32);
            value = value * 10 + digit;
            if value > 65535 {
                too_big = true;
            }
        }
        i = i + 1;
    }
    assert(d@.take(m as int) =~= d@);
    if too_big {
        None
    } else {
        Some(value as u16)
    }
}

/// The value of `key` in the environment, or `default` when it is unset.
pub fn get_env_or_default(env: &EnvVars, key: &str, default: &str) -> (r: String)
    ensures
        r@ == value_or(env@, key@, default@),
{
    let n = env.entries.len();
    let mut i: usize = 0;
    assert(env@.skip(0) =~= env@);
    while i < n
        invariant
            n == env@.len(),
            0 <= i <= n,
            lookup(env@, key@) == lookup(env@.skip(i as int), key@),
        decreases n - i,
    {
        proof {
            assert(env@.skip(i as int).drop_first() =~= env@.skip(i + 1));
            assert(env@.skip(i as int)[0] == env@[i as int]);
        }
        if same_text(env.entries[i].0.as_str(), key) {
            return env.entries[i].1.clone();
        }
        i = i + 1;
    }
    String::from_str(default)
}

/// The database user: `DB_USER`, or `postgres`.
pub fn db_user(env: &EnvVars) -> (r: String)
    ensures
        r@ == value_or(env@, "DB_USER"@, "postgres"@),
{
    get_env_or_default(env, "DB_USER", "postgres")
}

/// The database password: `DB_PASSWORD`, or `123`.
pub fn db_password(env: &EnvVars) -> (r: String)
    ensures
        r@ == value_or(env@, "DB_PASSWORD"@, "123"@),
{
    get_env_or_default(env, "DB_PASSWORD", "123")
}

/// A port read from `key`: its number when it holds one, else `fallback`.
pub open spec fn port_setting(env: Seq<(Seq<char>, Seq<char>)>, key: Seq<char>, fallback: u16) -> u16 {
    match lookup(env, key) {
        Some(v) => match parsed_u16(v) {
            Some(p) => p,
            None => fallback,
        },
        None => fallback,
    }
}

fn port_or(env: &EnvVars, key: &str, fallback: u16) -> (r: u16)
    ensures
        r == port_setting(env@, key@, fallback),
{
    let text = get_env_or_default(env, key, "");
    match lookup_is_set(env, key) {
        true => match parse_u16(text.as_str()) {
            Some(p) => p,
            None => fallback,
        },
        false => fallback,
    }
}

fn lookup_is_set(env: &EnvVars, key: &str) -> (r: bool)
    ensures
        r == lookup(env@, key@) is Some,
{
    let n = env.entries.len();
    let mut i: usize = 0;
    assert(env@.skip(0) =~= env@);
    while i < n
        invariant
            n == env@.len(),
            0 <= i <= n,
            lookup(env@, key@) == lookup(env@.skip(i as int), key@),
        decreases n - i,
    {
        proof {
            assert(env@.skip(i as int).drop_first() =~= env@.skip(i + 1));
            assert(env@.skip(i as int)[0] == env@[i as int]);
        }
        if same_text(env.entries[i].0.as_str(), key) {
            return true;
        }
        i = i + 1;
    }
    false
}

/// The database port: `DB_PORT` when it holds a port number, else 5432.
pub fn db_port(env: &EnvVars) -> (r: u16)
    ensures
        r == port_setting(env@, "DB_PORT"@, 5432),
{
    port_or(env, "DB_PORT", 5432)
}

/// The database name: `DB_NAME`, or `postgres`.
pub fn db_name(env: &EnvVars) -> (r: String)
    ensures
        r@ == value_or(env@, "DB_NAME"@, "postgres"@),
{
    get_env_or_default(env, "DB_NAME", "postgres")
}

/// The port the platform's own server listens on: `APPLICATION_PORT` when
/// it holds a port number, else 8080.
pub fn app_port(env: &EnvVars) -> (r: u16)
    ensures
        r == port_setting(env@, "APPLICATION_PORT"@, 8080),
{
    port_or(env, "APPLICATION_PORT", 8080)
}

/// The base domain under which deployed containers are routed: `DOMAIN`, or
/// `localhost`.
pub fn domain(env: &EnvVars) -> (r: String)
    ensures
        r@ == value_or(env@, "DOMAIN"@, "localhost"@),
{
    get_env_or_default(env, "DOMAIN", "localhost")
}

/// The connection URL assembled from the database settings.
pub open spec fn default_database_url(env: Seq<(Seq<char>, Seq<char>)>) -> Seq<char> {
    "postgresql://"@ + value_or(env, "DB_USER"@, "postgres"@) + ":"@ + value_or(
        env,
        "DB_PASSWORD"@,
        "123"@,
    ) + "@localhost:"@ + decimal(port_setting(env, "DB_PORT"@, 5432) as nat) + "/"@ + value_or(
        env,
        "DB_NAME"@,
        "postgres"@,
    )
}

/// The database URL: `DATABASE_URL`, or one assembled from the user,
/// password, port and name settings on `localhost`.
pub fn database_url(env: &EnvVars) -> (r: String)
    ensures
        r@ == value_or(env@, "DATABASE_URL"@, default_database_url(env@)),
{
    let user = db_user(env);
    let password = db_password(env);
    let port = u64_to_decimal(db_port(env) as u64);
    let name = db_name(env);
    let s = concat("postgresql://", user.as_str());
    let s = s.concat(":");
    let s = s.concat(password.as_str());
    let s = s.concat("@localhost:");
    let s = s.concat(port.as_str());
    let s = s.concat("/");
    let s = s.concat(name.as_str());
    get_env_or_default(env, "DATABASE_URL", s.as_str())
}

/// The Grafana admin user: `GF_SECURITY_ADMIN_USER`, or `user`.
pub fn grafana_user(env: &EnvVars) -> (r: String)
    ensures
        r@ == value_or(env@, "GF_SECURITY_ADMIN_USER"@, "user"@),
{
    get_env_or_default(env, "GF_SECURITY_ADMIN_USER", "user")
}

/// The Grafana admin password: `GF_SECURITY_ADMIN_PASSWORD`, or `password`.
pub fn grafana_password(env: &EnvVars) -> (r: String)
    ensures
        r@ == value_or(env@, "GF_SECURITY_ADMIN_PASSWORD"@, "password"@),
{
    get_env_or_default(env, "GF_SECURITY_ADMIN_PASSWORD", "password")
}

} // verus!
