use rocy::config::{
    cookie_secret_len, decoded_cookie_secret_len, parse_flag, parse_same_site, validate, Config, ConfigEnv, ConfigError,
    SameSiteMode, DEFAULT_UPLOAD_LIMIT,
};

fn empty_env() -> ConfigEnv {
    ConfigEnv {
        bind_addr: None,
        database_url: None,
        upload_dir: None,
        login_redirect_url: None,
        oauth_client_id: None,
        oauth_client_secret: None,
        oauth_redirect_url: None,
        cookie_secret: None,
        cookie_domain: None,
        cookie_secure: None,
        cookie_samesite: None,
        cors_allow_origins: None,
        enable_offline_access: None,
        openai_key: None,
    }
}

fn strong_secret() -> String {
    "secret!".repeat(10)
}

#[test]
fn defaults() {
    let c = Config::default();
    assert_eq!(c.bind_addr, "0.0.0.0:8080");
    assert_eq!(c.database_url, "");
    assert_eq!(c.upload_dir, "uploads");
    assert_eq!(c.cookie_domain, None);
    assert!(!c.cookie_secure);
    assert_eq!(c.cookie_samesite, SameSiteMode::Lax);
    assert_eq!(c.cors_allow_origins, None);
    assert!(!c.enable_offline_access);
    assert_eq!(c.per_file_max_bytes, 52428800);
    assert_eq!(c.max_upload_bytes, DEFAULT_UPLOAD_LIMIT);
}

#[test]
fn flags_accept_one_and_true_in_any_case() {
    assert!(parse_flag(&Some("1".into())));
    assert!(parse_flag(&Some("true".into())));
    assert!(parse_flag(&Some("TRUE".into())));
    assert!(parse_flag(&Some("tRuE".into())));
    assert!(!parse_flag(&Some("yes".into())));
    assert!(!parse_flag(&Some("0".into())));
    assert!(!parse_flag(&Some(" true".into())));
    assert!(!parse_flag(&Some("".into())));
    assert!(!parse_flag(&None));
}

#[test]
fn same_site_is_case_sensitive_and_defaults_to_lax() {
    assert_eq!(parse_same_site(&Some("Strict".into())), SameSiteMode::Strict);
    assert_eq!(parse_same_site(&Some("None".into())), SameSiteMode::NoRestriction);
    assert_eq!(parse_same_site(&Some("strict".into())), SameSiteMode::Lax);
    assert_eq!(parse_same_site(&Some("Lax".into())), SameSiteMode::Lax);
    assert_eq!(parse_same_site(&None), SameSiteMode::Lax);
}

#[test]
fn secret_length_counts_decoded_bytes_when_base64() {
    // 64 zero bytes in base64.
    let b64 = "A".repeat(86) + "==";
    assert_eq!(decoded_cookie_secret_len(&b64), 64);
    // "AAAA" decodes to three bytes.
    assert_eq!(decoded_cookie_secret_len("AAAA"), 3);
    // Not base64: its UTF-8 bytes count.
    assert_eq!(decoded_cookie_secret_len("not base64!"), 11);
    assert_eq!(decoded_cookie_secret_len("é"), 2);
    assert_eq!(decoded_cookie_secret_len(""), 0);
    assert_eq!(cookie_secret_len(Some(vec![]), "abc"), 3);
    assert_eq!(cookie_secret_len(Some(vec![1, 2]), "abc"), 2);
    assert_eq!(cookie_secret_len(None, "abcd"), 4);
}

#[test]
fn validation_checks_same_site_first() {
    assert_eq!(validate(SameSiteMode::NoRestriction, false, 10), Err(ConfigError::SameSiteNoneRequiresSecure));
    assert_eq!(validate(SameSiteMode::NoRestriction, false, 64), Err(ConfigError::SameSiteNoneRequiresSecure));
    assert_eq!(validate(SameSiteMode::NoRestriction, true, 63), Err(ConfigError::CookieSecretTooWeak));
    assert_eq!(validate(SameSiteMode::Lax, false, 63), Err(ConfigError::CookieSecretTooWeak));
    assert_eq!(validate(SameSiteMode::NoRestriction, true, 64), Ok(()));
    assert_eq!(validate(SameSiteMode::Strict, false, 64), Ok(()));
}

#[test]
fn from_env_values_reads_variables_and_keeps_defaults() {
    let mut env = empty_env();
    env.cookie_secret = Some(strong_secret());
    env.bind_addr = Some("127.0.0.1:3000".into());
    env.cookie_domain = Some("example.com".into());
    env.cookie_secure = Some("True".into());
    env.cookie_samesite = Some("Strict".into());
    env.cors_allow_origins = Some("*".into());
    env.enable_offline_access = Some("1".into());
    env.openai_key = Some("SECRET-REDACTED".into());
    let c = Config::from_env_values(env).unwrap();
    assert_eq!(c.bind_addr, "127.0.0.1:3000");
    assert_eq!(c.upload_dir, "uploads");
    assert_eq!(c.cookie_domain.as_deref(), Some("example.com"));
    assert!(c.cookie_secure);
    assert_eq!(c.cookie_samesite, SameSiteMode::Strict);
    assert_eq!(c.cors_allow_origins.as_deref(), Some("*"));
    assert!(c.enable_offline_access);
    assert_eq!(c.openai_key, "SECRET-REDACTED");
    assert_eq!(c.cookie_secret, strong_secret());
}

#[test]
fn from_env_values_refuses_weak_secret_and_insecure_none() {
    let env = empty_env();
    assert!(matches!(Config::from_env_values(env), Err(ConfigError::CookieSecretTooWeak)));

    let mut env = empty_env();
    env.cookie_secret = Some(strong_secret());
    env.cookie_samesite = Some("None".into());
    assert!(matches!(Config::from_env_values(env), Err(ConfigError::SameSiteNoneRequiresSecure)));

    let mut env = empty_env();
    env.cookie_secret = Some(strong_secret());
    env.cookie_samesite = Some("None".into());
    env.cookie_secure = Some("1".into());
    assert_eq!(Config::from_env_values(env).unwrap().cookie_samesite, SameSiteMode::NoRestriction);

    // 64 characters that decode to 48 bytes are too weak.
    let mut env = empty_env();
    env.cookie_secret = Some("A".repeat(64));
    assert!(matches!(Config::from_env_values(env), Err(ConfigError::CookieSecretTooWeak)));
}
