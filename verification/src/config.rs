//! The service's configuration, read from environment variables (the
//! caller reads the environment; this module applies defaults and checks
//! the values).
use vstd::prelude::*;

use crate::queries::opt_text_view;
use crate::text::{owned, parse_bool, parse_i64, parse_usize, spec_parse_i64, spec_parse_usize};

verus! {

pub struct Config {
    pub database_url: String,
    pub bind_addr: String,
    pub jwt_secret: String,
    pub access_token_ttl_minutes: i64,
    pub refresh_token_ttl_days: i64,
    pub storage_dir: String,
    pub max_upload_mb: usize,
    /// Directory holding the built frontend; served as well when set.
    pub static_dir: Option<String>,
    pub bootstrap_admin_email: Option<String>,
    pub bootstrap_admin_password: Option<String>,
    pub bootstrap_admin_name: String,
    /// Mark the refresh-token cookie `Secure`.
    pub cookie_secure: bool,
}

/// The environment variables the configuration is read from, each `None`
/// when unset (or not valid Unicode).
pub struct ConfigVars {
    pub database_url: Option<String>,
    pub bind_addr: Option<String>,
    pub jwt_secret: Option<String>,
    pub access_token_ttl_minutes: Option<String>,
    pub refresh_token_ttl_days: Option<String>,
    pub storage_dir: Option<String>,
    pub max_upload_mb: Option<String>,
    pub static_dir: Option<String>,
    pub bootstrap_admin_email: Option<String>,
    pub bootstrap_admin_password: Option<String>,
    pub bootstrap_admin_name: Option<String>,
    pub cookie_secure: Option<String>,
}

/// A variable's value, or the default when unset.
pub open spec fn or_default(v: Option<String>, default: Seq<char>) -> Seq<char> {
    match v {
        Some(s) => s@,
        None => default,
    }
}

/// `bool::from_str` on text.
pub open spec fn spec_parse_bool(s: Seq<char>) -> Option<bool> {
    if s == "true"@ {
        Some(true)
    } else if s == "false"@ {
        Some(false)
    } else {
        None
    }
}

/// The first configuration problem, in the order the variables are read:
/// a required variable unset, or a value that does not parse.
pub open spec fn spec_config_error(v: ConfigVars) -> Option<Seq<char>> {
    if v.database_url is None {
        Some("DATABASE_URL must be set"@)
    } else if v.jwt_secret is None {
        Some("JWT_SECRET must be set"@)
    } else if spec_parse_i64(or_default(v.access_token_ttl_minutes, "15"@)) is None {
        Some("ACCESS_TOKEN_TTL_MINUTES must be an integer"@)
    } else if spec_parse_i64(or_default(v.refresh_token_ttl_days, "7"@)) is None {
        Some("REFRESH_TOKEN_TTL_DAYS must be an integer"@)
    } else if spec_parse_usize(or_default(v.max_upload_mb, "25"@)) is None {
        Some("MAX_UPLOAD_MB must be an integer"@)
    } else if spec_parse_bool(or_default(v.cookie_secure, "false"@)) is None {
        Some("COOKIE_SECURE must be true or false"@)
    } else {
        None
    }
}

fn value_or(v: Option<String>, default: &str) -> (r: String)
    ensures
        r@ == or_default(v, default@),
{
    match v {
        Some(s) => s,
        None => owned(default),
    }
}

impl Config {
    /// The configuration the variables describe, defaults applied; or the
    /// first problem with them (see `spec_config_error`).
    pub fn from_vars(v: ConfigVars) -> (r: Result<Config, String>)
        ensures
            match r {
                Ok(c) => spec_config_error(v) is None && c.database_url@ == v.database_url->0@
                    && c.bind_addr@ == or_default(v.bind_addr, "0.0.0.0:8080"@) && c.jwt_secret@
                    == v.jwt_secret->0@ && Some(c.access_token_ttl_minutes) == spec_parse_i64(
                    or_default(v.access_token_ttl_minutes, "15"@),
                ) && Some(c.refresh_token_ttl_days) == spec_parse_i64(
                    or_default(v.refresh_token_ttl_days, "7"@),
                ) && c.storage_dir@ == or_default(v.storage_dir, "./data/attachments"@)
                    && Some(c.max_upload_mb) == spec_parse_usize(or_default(v.max_upload_mb, "25"@))
                    && opt_text_view(c.static_dir) == opt_text_view(v.static_dir) && opt_text_view(
                    c.bootstrap_admin_email,
                ) == opt_text_view(v.bootstrap_admin_email) && opt_text_view(
                    c.bootstrap_admin_password,
                ) == opt_text_view(v.bootstrap_admin_password) && c.bootstrap_admin_name@
                    == or_default(v.bootstrap_admin_name, "Admin"@) && Some(c.cookie_secure)
                    == spec_parse_bool(or_default(v.cookie_secure, "false"@)),
                Err(m) => spec_config_error(v) == Some(m@),
            },
    {
        let ghost vars = v;
        let database_url = match v.database_url {
            Some(s) => s,
            None => return Err(owned("DATABASE_URL must be set")),
        };
        let bind_addr = value_or(v.bind_addr, "0.0.0.0:8080");
        let jwt_secret = match v.jwt_secret {
            Some(s) => s,
            None => return Err(owned("JWT_SECRET must be set")),
        };
        let access_text = value_or(v.access_token_ttl_minutes, "15");
        let access_token_ttl_minutes = match parse_i64(access_text.as_str()) {
            Some(n) => n,
            None => return Err(owned("ACCESS_TOKEN_TTL_MINUTES must be an integer")),
        };
        let refresh_text = value_or(v.refresh_token_ttl_days, "7");
        let refresh_token_ttl_days = match parse_i64(refresh_text.as_str()) {
            Some(n) => n,
            None => return Err(owned("REFRESH_TOKEN_TTL_DAYS must be an integer")),
        };
        let storage_dir = value_or(v.storage_dir, "./data/attachments");
        let upload_text = value_or(v.max_upload_mb, "25");
        let max_upload_mb = match parse_usize(upload_text.as_str()) {
            Some(n) => n,
            None => return Err(owned("MAX_UPLOAD_MB must be an integer")),
        };
        let bootstrap_admin_name = value_or(v.bootstrap_admin_name, "Admin");
        let secure_text = value_or(v.cookie_secure, "false");
        let cookie_secure = match parse_bool(secure_text.as_str()) {
            Some(b) => b,
            None => return Err(owned("COOKIE_SECURE must be true or false")),
        };
        Ok(
            Config {
                database_url,
                bind_addr,
                jwt_secret,
                access_token_ttl_minutes,
                refresh_token_ttl_days,
                storage_dir,
                max_upload_mb,
                static_dir: v.static_dir,
                bootstrap_admin_email: v.bootstrap_admin_email,
                bootstrap_admin_password: v.bootstrap_admin_password,
                bootstrap_admin_name,
                cookie_secure,
            },
        )
    }
}

} // verus!
