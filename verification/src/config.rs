//! Service configuration: defaults, reading from environment values, and the
//! checks a configuration must pass before the service starts.

use vstd::prelude::*;
use vstd::string::*;
use crate::codec::base64_standard_decode;
use crate::text::{eq_ignore_ascii_case, str_eq};

verus! {

/// `SameSite` attribute given to every cookie the service sets.
#[derive(Clone, Copy, Debug, PartialEq, Eq, Structural)]
pub enum SameSiteMode {
    Lax,
    Strict,
    NoRestriction,
}

/// Default size limit, in bytes, of one uploaded file and of one upload
/// request: the request body limit the HTTP router enforces.
pub const DEFAULT_UPLOAD_LIMIT: usize = 52428800;

#[derive(Clone, Debug)]
pub struct Config {
    pub bind_addr: String,
    pub database_url: String,
    pub upload_dir: String,
    pub login_redirect_url: String,
    pub oauth_client_id: String,
    pub oauth_client_secret: String,
    pub oauth_redirect_url: String,
    pub cookie_secret: String,
    pub cookie_domain: Option<String>,
    pub cookie_secure: bool,
    pub cookie_samesite: SameSiteMode,
    pub cors_allow_origins: Option<String>,
    pub enable_offline_access: bool,
    pub openai_key: String,
    pub per_file_max_bytes: usize,
    pub max_upload_bytes: usize,
}

/// The environment variables the configuration is read from, each `None`
/// when unset (or not valid Unicode).
pub struct ConfigEnv {
    /// `BIND_ADDR`
    pub bind_addr: Option<String>,
    /// `DATABASE_URL`
    pub database_url: Option<String>,
    /// `UPLOAD_DIR`
    pub upload_dir: Option<String>,
    /// `LOGIN_REDIRECT_URL`
    pub login_redirect_url: Option<String>,
    /// `GOOGLE_CLIENT_ID`
    pub oauth_client_id: Option<String>,
    /// `GOOGLE_CLIENT_SECRET`
    pub oauth_client_secret: Option<String>,
    /// `OAUTH_REDIRECT_URL`
    pub oauth_redirect_url: Option<String>,
    /// `COOKIE_SECRET`
    pub cookie_secret: Option<String>,
    /// `COOKIE_DOMAIN`
    pub cookie_domain: Option<String>,
    /// `COOKIE_SECURE`
    pub cookie_secure: Option<String>,
    /// `COOKIE_SAMESITE`
    pub cookie_samesite: Option<String>,
    /// `CORS_ALLOW_ORIGINS`
    pub cors_allow_origins: Option<String>,
    /// `ENABLE_OFFLINE_ACCESS`
    pub enable_offline_access: Option<String>,
    /// `OPENAI_API_KEY`
    pub openai_key: Option<String>,
}

/// Why a configuration is refused.
#[derive(Clone, Copy, Debug, PartialEq, Eq, Structural)]
pub enum ConfigError {
    /// `COOKIE_SAMESITE=None` requires `COOKIE_SECURE=true`.
    SameSiteNoneRequiresSecure,
    /// The cookie secret has fewer than 64 bytes.
    CookieSecretTooWeak,
}

/// Minimum number of bytes of the cookie signing secret.
pub const MIN_COOKIE_SECRET_BYTES: usize = 64;

pub open spec fn opt_view(v: Option<String>) -> Option<Seq<char>> {
    match v {
        Some(s) => Some(s@),
        None => None,
    }
}

/// The value of a variable, or `default` when it is unset.
pub open spec fn value_or(v: Option<String>, default: Seq<char>) -> Seq<char> {
    match v {
        Some(s) => s@,
        None => default,
    }
}

/// A boolean switch: set to `1` or to `true` in any ASCII case.
pub open spec fn flag_value(v: Option<String>) -> bool {
    match v {
        Some(s) => s@ == "1"@ || crate::text::seq_eq_ignore_ascii_case(s@, "true"@),
        None => false,
    }
}

/// `Strict` and `None` select those modes; anything else, and an unset
/// variable, selects `Lax`.
pub open spec fn same_site_value(v: Option<String>) -> SameSiteMode {
    match v {
        Some(s) => if s@ == "Strict"@ {
            SameSiteMode::Strict
        } else if s@ == "None"@ {
            SameSiteMode::NoRestriction
        } else {
            SameSiteMode::Lax
        },
        None => SameSiteMode::Lax,
    }
}

/// Number of secret bytes: those of the base64 decoding of the secret when
/// it decodes to something non-empty, else the secret's own UTF-8 bytes.
pub open spec fn secret_len_from(decoded: Option<Seq<u8>>, secret_bytes: Seq<u8>) -> nat {
    match decoded {
        Some(d) => if d.len() > 0 {
            d.len()
        } else {
            secret_bytes.len()
        },
        None => secret_bytes.len(),
    }
}

/// Number of bytes the cookie secret `s` provides.
pub open spec fn cookie_secret_len_of(s: Seq<char>) -> nat {
    secret_len_from(
        crate::codec::base64_standard_decoding(vstd::utf8::encode_utf8(s)),
        vstd::utf8::encode_utf8(s),
    )
}

/// The verdict on a configuration: the `SameSite` rule is checked first,
/// then the strength of the cookie secret.
pub open spec fn validation_of(same_site: SameSiteMode, secure: bool, secret_len: nat) -> Result<
    (),
    ConfigError,
> {
    if same_site == SameSiteMode::NoRestriction && !secure {
        Err(ConfigError::SameSiteNoneRequiresSecure)
    } else if secret_len < 64 {
        Err(ConfigError::CookieSecretTooWeak)
    } else {
        Ok(())
    }
}

/// `SameSite=None` without `Secure` is refused whatever the secret, and it
/// is the only configuration refused for its `SameSite` setting.
pub proof fn samesite_refusal_only_for_none_without_secure(
    same_site: SameSiteMode,
    secure: bool,
    secret_len: nat,
)
    ensures
        validation_of(same_site, secure, secret_len) == Err::<(), ConfigError>(
            ConfigError::SameSiteNoneRequiresSecure,
        ) <==> (same_site == SameSiteMode::NoRestriction && !secure),
{
}

/// Apart from `SameSite=None` without `Secure`, a configuration is refused
/// as weak exactly when its secret has fewer than 64 bytes, and accepted
/// otherwise.
pub proof fn secret_strength_decides_the_rest(same_site: SameSiteMode, secure: bool, secret_len: nat)
    requires
        same_site != SameSiteMode::NoRestriction || secure,
    ensures
        secret_len < 64 ==> validation_of(same_site, secure, secret_len) == Err::<(), ConfigError>(
            ConfigError::CookieSecretTooWeak,
        ),
        secret_len >= 64 ==> validation_of(same_site, secure, secret_len) == Ok::<(), ConfigError>(()),
{
}

/// A switch is on exactly when it is set to `1`, or to `true` in any mix of
/// ASCII upper and lower case; every other value (`false`, `0`, `yes`, ...)
/// and an unset switch leave it off.
pub proof fn switch_on_only_for_one_or_true(v: Option<String>)
    ensures
        flag_value(v) <==> (v matches Some(s) && (s@ =~= seq!['1'] || (s@.len() == 4 && (s@[0]
            == 't' || s@[0] == 'T') && (s@[1] == 'r' || s@[1] == 'R') && (s@[2] == 'u' || s@[2]
            == 'U') && (s@[3] == 'e' || s@[3] == 'E')))),
{
    reveal_strlit("1");
    reveal_strlit("true");
    assert("1"@ =~= seq!['1']);
    assert("true"@ =~= seq!['t', 'r', 'u', 'e']);
    lemma_letter_ignoring_case('t', 'T');
    lemma_letter_ignoring_case('r', 'R');
    lemma_letter_ignoring_case('u', 'U');
    lemma_letter_ignoring_case('e', 'E');
    if let Some(s) = v {
        let t = "true"@;
        if crate::text::seq_eq_ignore_ascii_case(s@, t) {
            assert(crate::text::chars_eq_ignore_ascii_case(s@[0], t[0]));
            assert(crate::text::chars_eq_ignore_ascii_case(s@[1], t[1]));
            assert(crate::text::chars_eq_ignore_ascii_case(s@[2], t[2]));
            assert(crate::text::chars_eq_ignore_ascii_case(s@[3], t[3]));
        }
        if s@.len() == 4 && (s@[0] == 't' || s@[0] == 'T') && (s@[1] == 'r' || s@[1] == 'R') && (
        s@[2] == 'u' || s@[2] == 'U') && (s@[3] == 'e' || s@[3] == 'E') {
            assert forall|i: int| 0 <= i < s@.len() implies #[trigger]
                crate::text::chars_eq_ignore_ascii_case(s@[i], t[i]) by {}
        }
    }
}

/// A character matches the lower-case letter `lower` up to ASCII case
/// exactly when it is that letter or its capital `upper`.
proof fn lemma_letter_ignoring_case(lower: char, upper: char)
    requires
        97 <= lower as int <= 122,
        upper as int == lower as int - 32,
    ensures
        forall|c: char|
            #[trigger] crate::text::chars_eq_ignore_ascii_case(c, lower) <==> (c == lower || c
                == upper),
{
    assert forall|c: char|
        #[trigger] crate::text::chars_eq_ignore_ascii_case(c, lower) implies (c == lower || c
            == upper) by {
        if 65 <= (c as int) <= 90 {
            assert(c as int == upper as int);
        } else {
            assert(c as int == lower as int);
        }
    }
}

/// `Strict` and `None`, spelt exactly so, select those modes; every other
/// value and an unset variable select `Lax`.
pub proof fn samesite_modes_by_exact_name(v: Option<String>)
    ensures
        same_site_value(v) == SameSiteMode::Strict <==> (v matches Some(s) && s@ =~= seq![
            'S',
            't',
            'r',
            'i',
            'c',
            't',
        ]),
        same_site_value(v) == SameSiteMode::NoRestriction <==> (v matches Some(s) && s@ =~= seq![
            'N',
            'o',
            'n',
            'e',
        ]),
{
    reveal_strlit("Strict");
    reveal_strlit("None");
    assert("Strict"@ =~= seq!['S', 't', 'r', 'i', 'c', 't']);
    assert("None"@ =~= seq!['N', 'o', 'n', 'e']);
}

/// Reads a boolean switch (`1` or ASCII-case-insensitive `true`).
pub fn parse_flag(v: &Option<String>) -> (r: bool)
    ensures
        r == flag_value(*v),
{
    match v {
        Some(s) => {
            let one = "1";
            let t = "true";
            str_eq(s.as_str(), one) || eq_ignore_ascii_case(s.as_str(), t)
        },
        None => false,
    }
}

/// Reads the `SameSite` mode.
pub fn parse_same_site(v: &Option<String>) -> (r: SameSiteMode)
    ensures
        r == same_site_value(*v),
{
    match v {
        Some(s) => {
            if str_eq(s.as_str(), "Strict") {
                SameSiteMode::Strict
            } else if str_eq(s.as_str(), "None") {
                SameSiteMode::NoRestriction
            } else {
                SameSiteMode::Lax
            }
        },
        None => SameSiteMode::Lax,
    }
}

/// Number of secret bytes given the crate's base64 decoding of the secret.
pub fn cookie_secret_len(decoded: Option<Vec<u8>>, secret: &str) -> (r: usize)
    ensures
        r == secret_len_from(
            match decoded {
                Some(d) => Some(d@),
                None => None,
            },
            secret.spec_bytes(),
        ),
{
    match decoded {
        Some(d) => {
            if d.len() > 0 {
                d.len()
            } else {
                secret.as_bytes().len()
            }
        },
        None => secret.as_bytes().len(),
    }
}

/// Number of bytes the cookie secret provides: it is base64-decoded first.
pub fn decoded_cookie_secret_len(secret: &str) -> (r: usize)
    ensures
        r == cookie_secret_len_of(secret@),
{
    let bytes = secret.as_bytes();
    let decoded = base64_standard_decode(bytes);
    cookie_secret_len(decoded, secret)
}

/// Checks the `SameSite` rule, then the strength of the cookie secret.
pub fn validate(same_site: SameSiteMode, secure: bool, secret_len: usize) -> (r: Result<
    (),
    ConfigError,
>)
    ensures
        r == validation_of(same_site, secure, secret_len as nat),
{
    if same_site == SameSiteMode::NoRestriction && !secure {
        Err(ConfigError::SameSiteNoneRequiresSecure)
    } else if secret_len < MIN_COOKIE_SECRET_BYTES {
        Err(ConfigError::CookieSecretTooWeak)
    } else {
        Ok(())
    }
}

fn value_or_default(v: Option<String>, default: &str) -> (r: String)
    ensures
        r@ == value_or(v, default@),
{
    match v {
        Some(s) => s,
        None => default.to_owned(),
    }
}

impl Default for Config {
    fn default() -> (r: Config)
        ensures
            r.bind_addr@ == "0.0.0.0:8080"@,
            r.database_url@ == ""@,
            r.upload_dir@ == "uploads"@,
            r.login_redirect_url@ == ""@,
            r.oauth_client_id@ == ""@,
            r.oauth_client_secret@ == ""@,
            r.oauth_redirect_url@ == ""@,
            r.cookie_secret@ == ""@,
            r.cookie_domain is None,
            !r.cookie_secure,
            r.cookie_samesite == SameSiteMode::Lax,
            r.cors_allow_origins is None,
            !r.enable_offline_access,
            r.openai_key@ == ""@,
            r.per_file_max_bytes == DEFAULT_UPLOAD_LIMIT,
            r.max_upload_bytes == DEFAULT_UPLOAD_LIMIT,
    {
        Config {
            bind_addr: "0.0.0.0:8080".to_owned(),
            database_url: "".to_owned(),
            upload_dir: "uploads".to_owned(),
            login_redirect_url: "".to_owned(),
            oauth_client_id: "".to_owned(),
            oauth_client_secret: "".to_owned(),
            oauth_redirect_url: "".to_owned(),
            cookie_secret: "".to_owned(),
            cookie_domain: None,
            cookie_secure: false,
            cookie_samesite: SameSiteMode::Lax,
            cors_allow_origins: None,
            enable_offline_access: false,
            openai_key: "".to_owned(),
            per_file_max_bytes: DEFAULT_UPLOAD_LIMIT,
            max_upload_bytes: DEFAULT_UPLOAD_LIMIT,
        }
    }
}

impl Config {
    /// Builds the configuration from the values of the environment variables:
    /// unset variables keep their defaults, then the configuration is checked.
    pub fn from_env_values(env: ConfigEnv) -> (r: Result<Config, ConfigError>)
        ensures
            match r {
                Ok(c) => {
                    &&& validation_of(
                        same_site_value(env.cookie_samesite),
                        flag_value(env.cookie_secure),
                        cookie_secret_len_of(value_or(env.cookie_secret, ""@)),
                    ) is Ok
                    &&& c.bind_addr@ == value_or(env.bind_addr, "0.0.0.0:8080"@)
                    &&& c.database_url@ == value_or(env.database_url, ""@)
                    &&& c.upload_dir@ == value_or(env.upload_dir, "uploads"@)
                    &&& c.login_redirect_url@ == value_or(env.login_redirect_url, ""@)
                    &&& c.oauth_client_id@ == value_or(env.oauth_client_id, ""@)
                    &&& c.oauth_client_secret@ == value_or(env.oauth_client_secret, ""@)
                    &&& c.oauth_redirect_url@ == value_or(env.oauth_redirect_url, ""@)
                    &&& c.cookie_secret@ == value_or(env.cookie_secret, ""@)
                    &&& opt_view(c.cookie_domain) == opt_view(env.cookie_domain)
                    &&& c.cookie_secure == flag_value(env.cookie_secure)
                    &&& c.cookie_samesite == same_site_value(env.cookie_samesite)
                    &&& opt_view(c.cors_allow_origins) == opt_view(env.cors_allow_origins)
                    &&& c.enable_offline_access == flag_value(env.enable_offline_access)
                    &&& c.openai_key@ == value_or(env.openai_key, ""@)
                    &&& c.per_file_max_bytes == DEFAULT_UPLOAD_LIMIT
                    &&& c.max_upload_bytes == DEFAULT_UPLOAD_LIMIT
                },
                Err(e) => validation_of(
                    same_site_value(env.cookie_samesite),
                    flag_value(env.cookie_secure),
                    cookie_secret_len_of(value_or(env.cookie_secret, ""@)),
                ) == Err::<(), ConfigError>(e),
            },
    {
        let cookie_secure = parse_flag(&env.cookie_secure);
        let cookie_samesite = parse_same_site(&env.cookie_samesite);
        let enable_offline_access = parse_flag(&env.enable_offline_access);
        let cookie_secret = value_or_default(env.cookie_secret, "");
        let secret_len = decoded_cookie_secret_len(cookie_secret.as_str());
        match validate(cookie_samesite, cookie_secure, secret_len) {
            Err(e) => Err(e),
            Ok(()) => Ok(
                Config {
                    bind_addr: value_or_default(env.bind_addr, "0.0.0.0:8080"),
                    database_url: value_or_default(env.database_url, ""),
                    upload_dir: value_or_default(env.upload_dir, "uploads"),
                    login_redirect_url: value_or_default(env.login_redirect_url, ""),
                    oauth_client_id: value_or_default(env.oauth_client_id, ""),
                    oauth_client_secret: value_or_default(env.oauth_client_secret, ""),
                    oauth_redirect_url: value_or_default(env.oauth_redirect_url, ""),
                    cookie_secret,
                    cookie_domain: env.cookie_domain,
                    cookie_secure,
                    cookie_samesite,
                    cors_allow_origins: env.cors_allow_origins,
                    enable_offline_access,
                    openai_key: value_or_default(env.openai_key, ""),
                    per_file_max_bytes: DEFAULT_UPLOAD_LIMIT,
                    max_upload_bytes: DEFAULT_UPLOAD_LIMIT,
                },
            ),
        }
    }
}

} // verus!
