//! Attributes of the cookies the service sets.

use crate::config::{Config, SameSiteMode};
use vstd::prelude::*;

verus! {

/// Everything that makes up a cookie the service sets.
#[derive(Clone, Debug)]
pub struct CookieAttrs {
    pub name: String,
    pub value: String,
    pub path: String,
    pub http_only: bool,
    /// `Max-Age` in seconds; 0 expires the cookie.
    pub max_age_secs: i64,
    pub domain: Option<String>,
    pub secure: bool,
    pub same_site: SameSiteMode,
}

/// `c` is the cookie `name=value` for path `/`, with the given lifetime and
/// `HttpOnly` flag, and the domain, `Secure` flag and `SameSite` mode of the
/// configuration.
pub open spec fn is_cookie(
    c: CookieAttrs,
    config: Config,
    name: Seq<char>,
    value: Seq<char>,
    max_age_secs: i64,
    http_only: bool,
) -> bool {
    &&& c.name@ == name
    &&& c.value@ == value
    &&& c.path@ == "/"@
    &&& c.http_only == http_only
    &&& c.max_age_secs == max_age_secs
    &&& crate::config::opt_view(c.domain) == crate::config::opt_view(config.cookie_domain)
    &&& c.secure == config.cookie_secure
    &&& c.same_site == config.cookie_samesite
}

fn clone_opt(v: &Option<String>) -> (r: Option<String>)
    ensures
        crate::config::opt_view(r) == crate::config::opt_view(*v),
{
    match v {
        Some(s) => Some(s.clone()),
        None => None,
    }
}

/// The cookie `name=value` for path `/` with the given `Max-Age` and
/// `HttpOnly` flag, carrying the configured domain, `Secure` flag and
/// `SameSite` mode.
pub fn make_cookie(config: Config, name: &str, value: &str, max_age_secs: i64, http_only: bool) -> (r:
    CookieAttrs)
    ensures
        is_cookie(r, config, name@, value@, max_age_secs, http_only),
{
    cookie_for(&config, name, value, max_age_secs, http_only)
}

/// As `make_cookie`, reading the configuration by reference.
pub fn cookie_for(config: &Config, name: &str, value: &str, max_age_secs: i64, http_only: bool) -> (r:
    CookieAttrs)
    ensures
        is_cookie(r, *config, name@, value@, max_age_secs, http_only),
{
    CookieAttrs {
        name: name.to_owned(),
        value: value.to_owned(),
        path: "/".to_owned(),
        http_only,
        max_age_secs,
        domain: clone_opt(&config.cookie_domain),
        secure: config.cookie_secure,
        same_site: config.cookie_samesite,
    }
}

} // verus!
