//! Server configuration, read from environment variables.
use vstd::prelude::*;
use crate::text::{list_entries, split_list, str_eq};

verus! {

/// Settings for outbound email (the contact endpoint).
#[derive(Clone, Debug)]
pub struct EmailConfig {
    pub resend_api_key: String,
    pub from: String,
    pub from_name: String,
    /// Request timeout for the email API, in seconds.
    pub timeout_secs: u64,
}

/// The whole server configuration.
#[derive(Clone, Debug)]
pub struct Config {
    pub bind_addr: String,
    pub database_url: String,
    /// Site ids accepted by `/collect` and the stats routes; `None` accepts any.
    pub allowed_sites: Option<Vec<String>>,
    /// Bearer token required by `/stats/*`; `None` leaves them open.
    pub admin_token: Option<String>,
    pub email: Option<EmailConfig>,
    pub contact_to: Option<String>,
    /// Browser origins allowed to read `/stats/*`; `None` allows any.
    pub stats_origins: Option<Vec<String>>,
    /// Whether the server sits behind TLS and should send HSTS.
    pub behind_tls: bool,
}

/// Why the configuration could not be built.
#[derive(Debug, Clone, Copy)]
pub enum ConfigError {
    /// A required variable is unset; carries its name.
    Missing(&'static str),
}

/// The environment variables the server reads, each `None` when unset or not
/// valid Unicode.
#[derive(Clone, Debug)]
pub struct EnvVars {
    pub database_url: Option<String>,
    pub bind_addr: Option<String>,
    pub allowed_sites: Option<String>,
    pub admin_token: Option<String>,
    pub resend_api_key: Option<String>,
    pub email_from: Option<String>,
    pub email_from_name: Option<String>,
    pub contact_to: Option<String>,
    pub stats_origins: Option<String>,
    pub behind_tls: Option<String>,
}

pub const DEFAULT_BIND_ADDR: &'static str = "0.0.0.0:3001";

pub const DEFAULT_FROM_NAME: &'static str = "pagetally";

pub const EMAIL_TIMEOUT_SECS: u64 = 10;

/// A comma-separated list variable, split, trimmed and without empty entries.
pub open spec fn list_setting(v: Option<String>) -> Option<Seq<Seq<char>>> {
    match v {
        Some(s) => Some(list_entries(s@)),
        None => None,
    }
}

/// The view of an optional list of strings.
pub open spec fn list_view(v: Option<Vec<String>>) -> Option<Seq<Seq<char>>> {
    match v {
        Some(l) => Some(l.deep_view()),
        None => None,
    }
}

/// An optional string variable that counts only when it is not empty.
pub open spec fn nonempty_setting(v: Option<String>) -> Option<Seq<char>> {
    match v {
        Some(s) => if s@.len() > 0 { Some(s@) } else { None },
        None => None,
    }
}

pub open spec fn opt_string_view(v: Option<String>) -> Option<Seq<char>> {
    match v {
        Some(s) => Some(s@),
        None => None,
    }
}

/// A yes/no variable: set to `1` or `true`.
pub open spec fn flag_setting(v: Option<String>) -> bool {
    v matches Some(s) && (s@ == "1"@ || s@ == "true"@)
}

/// The variable, or the default when it is unset.
pub open spec fn or_default(v: Option<String>, default: Seq<char>) -> Seq<char> {
    match v {
        Some(s) => s@,
        None => default,
    }
}

/// Email is configured exactly when both the API key and the sender are set
/// and not empty.
pub open spec fn email_enabled(vars: EnvVars) -> bool {
    nonempty_setting(vars.resend_api_key) is Some && nonempty_setting(vars.email_from) is Some
}

/// What `Config::from_vars` builds from `vars`, field by field.
pub open spec fn config_matches(c: Config, vars: EnvVars) -> bool {
    &&& vars.database_url matches Some(u) && c.database_url@ == u@
    &&& c.bind_addr@ == or_default(vars.bind_addr, DEFAULT_BIND_ADDR@)
    &&& list_view(c.allowed_sites) == list_setting(vars.allowed_sites)
    &&& opt_string_view(c.admin_token) == nonempty_setting(vars.admin_token)
    &&& opt_string_view(c.contact_to) == nonempty_setting(vars.contact_to)
    &&& list_view(c.stats_origins) == list_setting(vars.stats_origins)
    &&& c.behind_tls == flag_setting(vars.behind_tls)
    &&& (c.email is Some <==> email_enabled(vars))
    &&& c.email matches Some(e) ==> {
        &&& Some(e.resend_api_key@) == opt_string_view(vars.resend_api_key)
        &&& Some(e.from@) == opt_string_view(vars.email_from)
        &&& e.from_name@ == or_default(vars.email_from_name, DEFAULT_FROM_NAME@)
        &&& e.timeout_secs == EMAIL_TIMEOUT_SECS
    }
}

fn list_of(v: &Option<String>) -> (r: Option<Vec<String>>)
    ensures
        list_view(r) == list_setting(*v),
{
    match v {
        Some(s) => Some(split_list(s.as_str())),
        None => None,
    }
}

fn nonempty_of(v: &Option<String>) -> (r: Option<String>)
    ensures
        opt_string_view(r) == nonempty_setting(*v),
{
    match v {
        Some(s) => if !s.as_str().is_empty() {
            Some(s.clone())
        } else {
            None
        },
        None => None,
    }
}

fn or_default_of(v: &Option<String>, default: &str) -> (r: String)
    ensures
        r@ == or_default(*v, default@),
{
    match v {
        Some(s) => s.clone(),
        None => default.to_owned(),
    }
}

impl Config {
    /// Builds the configuration from the environment. `DATABASE_URL` is
    /// required; everything else has a default.
    pub fn from_vars(vars: &EnvVars) -> (r: Result<Config, ConfigError>)
        ensures
            vars.database_url is None <==> r is Err,
            r matches Err(e) ==> e matches ConfigError::Missing(name) && name@ == "DATABASE_URL"@,
            r matches Ok(c) ==> config_matches(c, *vars),
    {
        let database_url = match &vars.database_url {
            Some(u) => u.clone(),
            None => return Err(ConfigError::Missing("DATABASE_URL")),
        };
        let bind_addr = or_default_of(&vars.bind_addr, DEFAULT_BIND_ADDR);
        let allowed_sites = list_of(&vars.allowed_sites);
        let admin_token = nonempty_of(&vars.admin_token);
        let contact_to = nonempty_of(&vars.contact_to);
        let stats_origins = list_of(&vars.stats_origins);
        let behind_tls = match &vars.behind_tls {
            Some(v) => str_eq(v.as_str(), "1") || str_eq(v.as_str(), "true"),
            None => false,
        };
        let api_key = nonempty_of(&vars.resend_api_key);
        let from = nonempty_of(&vars.email_from);
        let email = match (api_key, from) {
            (Some(api_key), Some(from)) => Some(
                EmailConfig {
                    resend_api_key: api_key,
                    from,
                    from_name: or_default_of(&vars.email_from_name, DEFAULT_FROM_NAME),
                    timeout_secs: EMAIL_TIMEOUT_SECS,
                },
            ),
            _ => None,
        };
        Ok(
            Config {
                bind_addr,
                database_url,
                allowed_sites,
                admin_token,
                email,
                contact_to,
                stats_origins,
                behind_tls,
            },
        )
    }
}

} // verus!
